//! The log-subscription adapter: it owns one subscription to the chain's
//! liquidation logs, has the time of each log's block looked up, and puts the
//! completed event onto the bus. Logs are taken one at a time, so events
//! leave in the order in which their logs arrived. Subscribing, decoding and
//! the lookup are the caller's; what to do with each outcome is decided here.

use crate::state::AppState;
use crate::types::{DecodedLog, DecodedLogView, NormalizedEvent, NormalizedEventView};
use vstd::prelude::*;

verus! {

/// Where the adapter stands with its subscription.
#[derive(Debug, Clone, PartialEq, Eq)]
pub enum LogState {
    /// The next log is awaited.
    Listening,
    /// The time of this log's block is being looked up.
    Enriching(DecodedLog),
    /// The subscription has ended.
    Terminated,
}

/// What a `LogState` holds, as text and numbers.
pub enum LogStateView {
    Listening,
    Enriching(DecodedLogView),
    Terminated,
}

impl View for LogState {
    type V = LogStateView;

    open spec fn view(&self) -> LogStateView {
        match self {
            LogState::Listening => LogStateView::Listening,
            LogState::Enriching(log) => LogStateView::Enriching(log@),
            LogState::Terminated => LogStateView::Terminated,
        }
    }
}

/// One thing that happened on the subscription.
#[derive(Debug, Clone, PartialEq, Eq)]
pub enum LogInbound {
    /// A log arrived and was decoded.
    Log(DecodedLog),
    /// A log arrived that could not be decoded.
    Undecodable,
    /// The lookup of the block's time has ended: with the time in seconds, or
    /// without one.
    Timestamp(Option<u64>),
    /// The subscription has ended.
    Ended,
}

/// What a `LogInbound` holds, as text and numbers.
pub enum LogInboundView {
    Log(DecodedLogView),
    Undecodable,
    Timestamp(Option<u64>),
    Ended,
}

impl View for LogInbound {
    type V = LogInboundView;

    open spec fn view(&self) -> LogInboundView {
        match self {
            LogInbound::Log(log) => LogInboundView::Log(log@),
            LogInbound::Undecodable => LogInboundView::Undecodable,
            LogInbound::Timestamp(lookup) => LogInboundView::Timestamp(*lookup),
            LogInbound::Ended => LogInboundView::Ended,
        }
    }
}

/// What the caller is to do next.
#[derive(Debug, Clone, Copy, PartialEq, Eq, Structural)]
pub enum LogDirective {
    /// Take the next log from the subscription.
    Next,
    /// Look up the time of this block, once.
    Lookup { block_number: u64 },
    /// Stop: the adapter is done.
    Stop,
}

/// The state that follows when `inbound` happens in `state`. What a state
/// does not expect leaves it as it is.
pub open spec fn next_log_state(state: LogStateView, inbound: LogInboundView) -> LogStateView {
    match state {
        LogStateView::Listening => match inbound {
            LogInboundView::Log(log) => LogStateView::Enriching(log),
            LogInboundView::Ended => LogStateView::Terminated,
            _ => LogStateView::Listening,
        },
        LogStateView::Enriching(log) => match inbound {
            LogInboundView::Timestamp(_) => LogStateView::Listening,
            _ => LogStateView::Enriching(log),
        },
        LogStateView::Terminated => LogStateView::Terminated,
    }
}

/// What a state waits for. This is what the caller is to do once the state
/// has been entered, and again when something happens that the state does not
/// expect.
pub open spec fn standing_log_directive(state: LogStateView) -> LogDirective {
    match state {
        LogStateView::Listening => LogDirective::Next,
        LogStateView::Enriching(log) => LogDirective::Lookup { block_number: log.block_number },
        LogStateView::Terminated => LogDirective::Stop,
    }
}

/// What the caller is to do after `inbound` has happened in `state`.
pub open spec fn log_directive_for(state: LogStateView, inbound: LogInboundView) -> LogDirective {
    standing_log_directive(next_log_state(state, inbound))
}

/// The event that goes onto the bus when `inbound` happens in `state`: the
/// pending log, completed, when its lookup ends, whether or not a time was
/// found; and nothing else.
pub open spec fn published_log(state: LogStateView, inbound: LogInboundView) -> Option<
    NormalizedEventView,
> {
    match (state, inbound) {
        (LogStateView::Enriching(log), LogInboundView::Timestamp(lookup)) => Some(
            NormalizedEventView::Chain(log.enriched(lookup)),
        ),
        _ => None,
    }
}

/// What the adapter makes of one thing that happened.
#[derive(Debug, Clone, PartialEq, Eq)]
pub struct LogDecision {
    /// The state from now on.
    pub state: LogState,
    /// The event to put onto the bus, if any.
    pub publish: Option<NormalizedEvent>,
    /// What the caller is to do next.
    pub directive: LogDirective,
}

/// Decides what follows from one thing that happened on the subscription.
pub fn decide_log(state: LogState, inbound: LogInbound) -> (decision: LogDecision)
    ensures
        decision.state@ == next_log_state(state@, inbound@),
        decision.directive == log_directive_for(state@, inbound@),
        decision.publish is Some <==> published_log(state@, inbound@) is Some,
        decision.publish matches Some(event) ==> Some(event@) == published_log(state@, inbound@),
{
    match state {
        LogState::Listening => match inbound {
            LogInbound::Log(log) => {
                let block_number: u64 = log.block_number;
                LogDecision {
                    state: LogState::Enriching(log),
                    publish: None,
                    directive: LogDirective::Lookup { block_number },
                }
            },
            LogInbound::Ended => LogDecision {
                state: LogState::Terminated,
                publish: None,
                directive: LogDirective::Stop,
            },
            _ => LogDecision {
                state: LogState::Listening,
                publish: None,
                directive: LogDirective::Next,
            },
        },
        LogState::Enriching(log) => match inbound {
            LogInbound::Timestamp(lookup) => LogDecision {
                state: LogState::Listening,
                publish: Some(NormalizedEvent::Chain(log.enrich(lookup))),
                directive: LogDirective::Next,
            },
            _ => {
                let block_number: u64 = log.block_number;
                LogDecision {
                    state: LogState::Enriching(log),
                    publish: None,
                    directive: LogDirective::Lookup { block_number },
                }
            },
        },
        LogState::Terminated => LogDecision {
            state: LogState::Terminated,
            publish: None,
            directive: LogDirective::Stop,
        },
    }
}

/// The state after all of `inputs` have happened, in order.
pub open spec fn log_state_after(state: LogStateView, inputs: Seq<LogInboundView>) -> LogStateView
    decreases inputs.len(),
{
    if inputs.len() == 0 {
        state
    } else {
        next_log_state(log_state_after(state, inputs.drop_last()), inputs.last())
    }
}

/// The events that went onto the bus while all of `inputs` happened, in order.
pub open spec fn published_logs(state: LogStateView, inputs: Seq<LogInboundView>) -> Seq<
    NormalizedEventView,
>
    decreases inputs.len(),
{
    if inputs.len() == 0 {
        Seq::<NormalizedEventView>::empty()
    } else {
        let earlier = published_logs(state, inputs.drop_last());
        match published_log(log_state_after(state, inputs.drop_last()), inputs.last()) {
            Some(event) => earlier.push(event),
            None => earlier,
        }
    }
}

/// One log of the subscription with all that follows from it: a decoded log
/// and the outcome of its lookup, or a log that could not be decoded.
pub enum LogUnit {
    Decoded(DecodedLogView, Option<u64>),
    Undecodable,
}

/// What happens on the subscription as `units` are taken one at a time: for a
/// decoded log its arrival and then the end of its lookup, for another log
/// its arrival alone.
pub open spec fn happenings(units: Seq<LogUnit>) -> Seq<LogInboundView>
    decreases units.len(),
{
    if units.len() == 0 {
        Seq::<LogInboundView>::empty()
    } else {
        let earlier = happenings(units.drop_last());
        match units.last() {
            LogUnit::Decoded(log, lookup) => earlier.push(LogInboundView::Log(log)).push(
                LogInboundView::Timestamp(lookup),
            ),
            LogUnit::Undecodable => earlier.push(LogInboundView::Undecodable),
        }
    }
}

/// The events that the decoded logs among `units` become, in order.
pub open spec fn events_of(units: Seq<LogUnit>) -> Seq<NormalizedEventView>
    decreases units.len(),
{
    if units.len() == 0 {
        Seq::<NormalizedEventView>::empty()
    } else {
        let earlier = events_of(units.drop_last());
        match units.last() {
            LogUnit::Decoded(log, lookup) => earlier.push(
                NormalizedEventView::Chain(log.enriched(lookup)),
            ),
            LogUnit::Undecodable => earlier,
        }
    }
}

/// As long as the subscription lasts, the adapter publishes the event of
/// every decoded log: each one once, in the order in which the logs arrived,
/// whether or not its lookup found a time, and nothing else. Logs that cannot
/// be decoded change none of this.
pub proof fn lemma_logs_publish_in_order(units: Seq<LogUnit>)
    ensures
        log_state_after(LogStateView::Listening, happenings(units)) == LogStateView::Listening,
        published_logs(LogStateView::Listening, happenings(units)) == events_of(units),
    decreases units.len(),
{
    if units.len() > 0 {
        lemma_logs_publish_in_order(units.drop_last());
        let earlier = happenings(units.drop_last());
        match units.last() {
            LogUnit::Decoded(log, lookup) => {
                let arrived = earlier.push(LogInboundView::Log(log));
                assert(arrived.drop_last() =~= earlier);
                assert(happenings(units).drop_last() =~= arrived);
                assert(log_state_after(LogStateView::Listening, arrived)
                    == LogStateView::Enriching(log));
                assert(published_logs(LogStateView::Listening, arrived) == events_of(
                    units.drop_last(),
                ));
            },
            LogUnit::Undecodable => {
                assert(happenings(units).drop_last() =~= earlier);
            },
        }
    }
}

/// A log that cannot be decoded leaves no trace: the log after it is handled
/// as if the bad one had never arrived.
pub proof fn lemma_undecodable_log_leaves_no_trace(next: LogInboundView)
    ensures
        next_log_state(LogStateView::Listening, LogInboundView::Undecodable)
            == LogStateView::Listening,
        published_log(LogStateView::Listening, LogInboundView::Undecodable) is None,
        log_directive_for(LogStateView::Listening, LogInboundView::Undecodable)
            == LogDirective::Next,
        next_log_state(
            next_log_state(LogStateView::Listening, LogInboundView::Undecodable),
            next,
        ) == next_log_state(LogStateView::Listening, next),
        published_log(
            next_log_state(LogStateView::Listening, LogInboundView::Undecodable),
            next,
        ) == published_log(LogStateView::Listening, next),
        log_directive_for(
            next_log_state(LogStateView::Listening, LogInboundView::Undecodable),
            next,
        ) == log_directive_for(LogStateView::Listening, next),
{
}

/// A lookup that fails costs the timestamp and nothing else: the log's event
/// is published all the same, with timestamp 0 and every decoded field as it
/// was, and the adapter goes on to the next log.
pub proof fn lemma_failed_lookup_still_publishes(log: DecodedLogView)
    ensures
        published_log(LogStateView::Enriching(log), LogInboundView::Timestamp(None)) == Some(
            NormalizedEventView::Chain(log.enriched(None)),
        ),
        log.enriched(None).timestamp == 0,
        log.enriched(None).collateral_asset == log.collateral_asset,
        log.enriched(None).debt_asset == log.debt_asset,
        log.enriched(None).subject == log.subject,
        log.enriched(None).debt_covered == log.debt_covered,
        log.enriched(None).collateral_liquidated == log.collateral_liquidated,
        log.enriched(None).liquidator == log.liquidator,
        log.enriched(None).flag == log.flag,
        log.enriched(None).block_number == log.block_number,
        log.enriched(None).transaction_hash == log.transaction_hash,
        next_log_state(LogStateView::Enriching(log), LogInboundView::Timestamp(None))
            == LogStateView::Listening,
        log_directive_for(LogStateView::Enriching(log), LogInboundView::Timestamp(None))
            == LogDirective::Next,
{
}

/// Each decoded log has its block's time looked up, and its event is
/// published on the one outcome of that lookup: a log, then the lookup's end,
/// bring the adapter back to listening with the log's event on the bus.
pub proof fn lemma_log_is_published_after_lookup(log: DecodedLogView, lookup: Option<u64>)
    ensures
        log_directive_for(LogStateView::Listening, LogInboundView::Log(log))
            == (LogDirective::Lookup { block_number: log.block_number }),
        published_log(LogStateView::Listening, LogInboundView::Log(log)) is None,
        published_log(
            next_log_state(LogStateView::Listening, LogInboundView::Log(log)),
            LogInboundView::Timestamp(lookup),
        ) == Some(NormalizedEventView::Chain(log.enriched(lookup))),
        next_log_state(
            next_log_state(LogStateView::Listening, LogInboundView::Log(log)),
            LogInboundView::Timestamp(lookup),
        ) == LogStateView::Listening,
{
}

/// The log-subscription adapter: its handle on the bus and where it stands
/// with its subscription.
#[derive(Debug)]
pub struct LogSubscription {
    /// The bus that the liquidations go to.
    pub liquidations: AppState,
    /// Where the adapter stands with its subscription.
    pub state: LogState,
}

impl LogSubscription {
    /// An adapter that awaits its first log.
    pub fn new(liquidations: AppState) -> (adapter: LogSubscription)
        ensures
            adapter.state@ == LogStateView::Listening,
            adapter.liquidations == liquidations,
    {
        LogSubscription { liquidations, state: LogState::Listening }
    }

    /// What the adapter waits for as it stands: the first thing to do, and
    /// what to go on with once a directive has been carried out.
    pub fn directive(&self) -> (directive: LogDirective)
        ensures
            directive == standing_log_directive(self.state@),
    {
        match &self.state {
            LogState::Listening => LogDirective::Next,
            LogState::Enriching(log) => LogDirective::Lookup { block_number: log.block_number },
            LogState::Terminated => LogDirective::Stop,
        }
    }

    /// Takes in one thing that happened on the subscription: moves to the
    /// state that follows, publishes the pending log's event if its lookup
    /// has ended, and says what the caller is to do next.
    pub fn handle(&mut self, inbound: LogInbound) -> (directive: LogDirective)
        ensures
            final(self).state@ == next_log_state(old(self).state@, inbound@),
            final(self).liquidations == old(self).liquidations,
            directive == log_directive_for(old(self).state@, inbound@),
    {
        let mut state = LogState::Terminated;
        std::mem::swap(&mut self.state, &mut state);
        let decision = decide_log(state, inbound);
        self.state = decision.state;
        match decision.publish {
            Some(event) => {
                let _reached: usize = self.liquidations.publish(event);
            },
            None => {},
        }
        decision.directive
    }
}

} // verus!
