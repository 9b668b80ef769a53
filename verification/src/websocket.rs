//! The streaming-feed adapter: it owns one connection to the push feed and
//! turns what arrives on it into stream events on the bus. Connecting,
//! reading and answering are the caller's; what to do with each thing that
//! happened on the connection is decided here.

use crate::state::AppState;
use crate::types::{BinanceMessage, NormalizedEvent, NormalizedEventView};
use vstd::prelude::*;

verus! {

/// Where the adapter stands with its connection.
#[derive(Debug, Clone, Copy, PartialEq, Eq, Structural)]
pub enum ConnectionState {
    /// The first connection is being made.
    Connecting,
    /// Frames are being read.
    Streaming,
    /// The connection was lost and is being made again.
    Reconnecting,
    /// The adapter is done.
    Terminated,
}

/// One thing that happened on the connection.
#[derive(Debug, Clone, PartialEq, Eq)]
pub enum Inbound {
    /// An attempt to connect succeeded.
    Connected,
    /// An attempt to connect failed.
    ConnectFailed,
    /// A text frame that held an order update.
    Payload(BinanceMessage),
    /// A text frame that held none: a heartbeat, a control message, garbage.
    Malformed,
    /// A liveness probe from the peer.
    Probe,
    /// The answer to a liveness probe could not be sent.
    AckFailed,
    /// A frame of any other kind.
    Unrecognized,
    /// Reading failed: the connection is lost.
    Lost,
    /// The peer ended the stream.
    Ended,
}

/// What the caller is to do next.
#[derive(Debug, Clone, Copy, PartialEq, Eq, Structural)]
pub enum Directive {
    /// Wait so many milliseconds, then connect.
    Connect { delay_ms: u64 },
    /// Read the next frame.
    Read,
    /// Answer the probe, then read the next frame.
    Acknowledge,
    /// Give up: the first connection could not be made.
    Abort,
    /// Stop: the adapter is done.
    Stop,
}

/// The wait before the first attempt to reconnect, in milliseconds.
pub const BACKOFF_BASE_MS: u64 = 1000;

/// The longest wait between two attempts to reconnect, in milliseconds.
pub const BACKOFF_CAP_MS: u64 = 60000;

/// The wait before an attempt to reconnect, after so many attempts have
/// failed in a row: each failure doubles it, up to the cap.
pub open spec fn backoff(failures: nat) -> nat
    decreases failures,
{
    if failures == 0 {
        BACKOFF_BASE_MS as nat
    } else if 2 * backoff((failures - 1) as nat) < BACKOFF_CAP_MS {
        2 * backoff((failures - 1) as nat)
    } else {
        BACKOFF_CAP_MS as nat
    }
}

/// The wait is never shorter than the base nor longer than the cap, and it
/// never shrinks as failures add up.
pub proof fn lemma_backoff_bounds(failures: nat)
    ensures
        BACKOFF_BASE_MS <= backoff(failures) <= BACKOFF_CAP_MS,
        backoff(failures) <= backoff(failures + 1),
    decreases failures,
{
    if failures > 0 {
        lemma_backoff_bounds((failures - 1) as nat);
    }
}

/// Once the wait has reached the cap it stays there.
proof fn lemma_backoff_stays_capped(reached: nat, failures: nat)
    requires
        backoff(reached) == BACKOFF_CAP_MS,
        reached <= failures,
    ensures
        backoff(failures) == BACKOFF_CAP_MS,
    decreases failures,
{
    if reached < failures {
        lemma_backoff_stays_capped(reached, (failures - 1) as nat);
    }
}

/// Computes the wait before an attempt to reconnect.
pub fn backoff_delay_ms(failures: u32) -> (delay_ms: u64)
    ensures
        delay_ms == backoff(failures as nat),
{
    let mut delay: u64 = BACKOFF_BASE_MS;
    let mut counted: u32 = 0;
    while counted < failures && delay < BACKOFF_CAP_MS
        invariant
            counted <= failures,
            delay == backoff(counted as nat),
            delay <= BACKOFF_CAP_MS,
        decreases failures - counted,
    {
        delay = if 2 * delay < BACKOFF_CAP_MS {
            2 * delay
        } else {
            BACKOFF_CAP_MS
        };
        counted = counted + 1;
    }
    proof {
        if counted < failures {
            lemma_backoff_stays_capped(counted as nat, failures as nat);
        }
    }
    delay
}

/// The state that follows when `inbound` happens in `state`. What a state
/// does not expect leaves it as it is.
pub open spec fn next_state(state: ConnectionState, inbound: Inbound) -> ConnectionState {
    match state {
        ConnectionState::Connecting => match inbound {
            Inbound::Connected => ConnectionState::Streaming,
            Inbound::ConnectFailed => ConnectionState::Terminated,
            _ => ConnectionState::Connecting,
        },
        ConnectionState::Streaming => match inbound {
            Inbound::AckFailed => ConnectionState::Reconnecting,
            Inbound::Lost => ConnectionState::Reconnecting,
            Inbound::Ended => ConnectionState::Terminated,
            _ => ConnectionState::Streaming,
        },
        ConnectionState::Reconnecting => match inbound {
            Inbound::Connected => ConnectionState::Streaming,
            _ => ConnectionState::Reconnecting,
        },
        ConnectionState::Terminated => ConnectionState::Terminated,
    }
}

/// The number of attempts to reconnect that have failed in a row, after
/// `inbound` happens in `state`.
pub open spec fn next_failures(state: ConnectionState, failures: u32, inbound: Inbound) -> u32 {
    match state {
        ConnectionState::Reconnecting => match inbound {
            Inbound::Connected => 0,
            Inbound::ConnectFailed => if failures < u32::MAX {
                (failures + 1) as u32
            } else {
                failures
            },
            _ => failures,
        },
        ConnectionState::Streaming => match inbound {
            Inbound::AckFailed => 0,
            Inbound::Lost => 0,
            _ => failures,
        },
        ConnectionState::Connecting => match inbound {
            Inbound::Connected => 0,
            _ => failures,
        },
        ConnectionState::Terminated => failures,
    }
}

/// What a state waits for: the directive that is given again when something
/// happens that the state does not expect.
pub open spec fn standing_directive(state: ConnectionState, failures: u32) -> Directive {
    match state {
        ConnectionState::Connecting => Directive::Connect { delay_ms: 0 },
        ConnectionState::Streaming => Directive::Read,
        ConnectionState::Reconnecting => Directive::Connect {
            delay_ms: backoff(failures as nat) as u64,
        },
        ConnectionState::Terminated => Directive::Stop,
    }
}

/// What the caller is to do after `inbound` has happened in `state`.
pub open spec fn directive_for(state: ConnectionState, failures: u32, inbound: Inbound) -> Directive {
    match (state, inbound) {
        (ConnectionState::Connecting, Inbound::ConnectFailed) => Directive::Abort,
        (ConnectionState::Streaming, Inbound::Probe) => Directive::Acknowledge,
        _ => standing_directive(
            next_state(state, inbound),
            next_failures(state, failures, inbound),
        ),
    }
}

/// The event that goes onto the bus when `inbound` happens in `state`: the
/// order update of a payload that arrives while streaming, and nothing else.
pub open spec fn published(state: ConnectionState, inbound: Inbound) -> Option<NormalizedEventView> {
    match (state, inbound) {
        (ConnectionState::Streaming, Inbound::Payload(message)) => Some(
            NormalizedEventView::Stream(message@.normalized()),
        ),
        _ => None,
    }
}

/// What the adapter makes of one thing that happened.
#[derive(Debug, Clone, PartialEq, Eq)]
pub struct Decision {
    /// The state from now on.
    pub state: ConnectionState,
    /// The attempts to reconnect that have failed in a row.
    pub failures: u32,
    /// The event to put onto the bus, if any.
    pub publish: Option<NormalizedEvent>,
    /// What the caller is to do next.
    pub directive: Directive,
}

/// Decides what follows from one thing that happened on the connection.
pub fn decide(state: ConnectionState, failures: u32, inbound: Inbound) -> (decision: Decision)
    ensures
        decision.state == next_state(state, inbound),
        decision.failures == next_failures(state, failures, inbound),
        decision.directive == directive_for(state, failures, inbound),
        decision.publish is Some <==> published(state, inbound) is Some,
        decision.publish matches Some(event) ==> Some(event@) == published(state, inbound),
{
    proof {
        lemma_backoff_bounds(failures as nat);
        lemma_backoff_bounds(0);
    }
    match state {
        ConnectionState::Connecting => match inbound {
            Inbound::Connected => Decision {
                state: ConnectionState::Streaming,
                failures: 0,
                publish: None,
                directive: Directive::Read,
            },
            Inbound::ConnectFailed => Decision {
                state: ConnectionState::Terminated,
                failures,
                publish: None,
                directive: Directive::Abort,
            },
            _ => Decision {
                state,
                failures,
                publish: None,
                directive: Directive::Connect { delay_ms: 0 },
            },
        },
        ConnectionState::Streaming => match inbound {
            Inbound::Payload(message) => Decision {
                state,
                failures,
                publish: Some(NormalizedEvent::Stream(message.normalize())),
                directive: Directive::Read,
            },
            Inbound::Probe => Decision {
                state,
                failures,
                publish: None,
                directive: Directive::Acknowledge,
            },
            Inbound::AckFailed | Inbound::Lost => Decision {
                state: ConnectionState::Reconnecting,
                failures: 0,
                publish: None,
                directive: Directive::Connect { delay_ms: backoff_delay_ms(0) },
            },
            Inbound::Ended => Decision {
                state: ConnectionState::Terminated,
                failures,
                publish: None,
                directive: Directive::Stop,
            },
            _ => Decision { state, failures, publish: None, directive: Directive::Read },
        },
        ConnectionState::Reconnecting => match inbound {
            Inbound::Connected => Decision {
                state: ConnectionState::Streaming,
                failures: 0,
                publish: None,
                directive: Directive::Read,
            },
            Inbound::ConnectFailed => {
                let failed: u32 = if failures < u32::MAX {
                    failures + 1
                } else {
                    failures
                };
                proof {
                    lemma_backoff_bounds(failed as nat);
                }
                Decision {
                    state,
                    failures: failed,
                    publish: None,
                    directive: Directive::Connect { delay_ms: backoff_delay_ms(failed) },
                }
            },
            _ => Decision {
                state,
                failures,
                publish: None,
                directive: Directive::Connect { delay_ms: backoff_delay_ms(failures) },
            },
        },
        ConnectionState::Terminated => Decision {
            state,
            failures,
            publish: None,
            directive: Directive::Stop,
        },
    }
}

/// The state and the count of failures after all of `inputs` have happened,
/// in order.
pub open spec fn connection_after(state: ConnectionState, failures: u32, inputs: Seq<Inbound>) -> (
    ConnectionState,
    u32,
)
    decreases inputs.len(),
{
    if inputs.len() == 0 {
        (state, failures)
    } else {
        let before = connection_after(state, failures, inputs.drop_last());
        (
            next_state(before.0, inputs.last()),
            next_failures(before.0, before.1, inputs.last()),
        )
    }
}

/// The events that went onto the bus while all of `inputs` happened, in order.
pub open spec fn published_during(
    state: ConnectionState,
    failures: u32,
    inputs: Seq<Inbound>,
) -> Seq<NormalizedEventView>
    decreases inputs.len(),
{
    if inputs.len() == 0 {
        Seq::<NormalizedEventView>::empty()
    } else {
        let before = connection_after(state, failures, inputs.drop_last());
        let earlier = published_during(state, failures, inputs.drop_last());
        match published(before.0, inputs.last()) {
            Some(event) => earlier.push(event),
            None => earlier,
        }
    }
}

/// The order updates that the payloads among `inputs` stand for, in order.
pub open spec fn payloads_among(inputs: Seq<Inbound>) -> Seq<NormalizedEventView>
    decreases inputs.len(),
{
    if inputs.len() == 0 {
        Seq::<NormalizedEventView>::empty()
    } else {
        let earlier = payloads_among(inputs.drop_last());
        match inputs.last() {
            Inbound::Payload(message) => earlier.push(
                NormalizedEventView::Stream(message@.normalized()),
            ),
            _ => earlier,
        }
    }
}

/// Whether `inbound` takes a streaming adapter off its connection.
pub open spec fn breaks_connection(inbound: Inbound) -> bool {
    inbound is AckFailed || inbound is Lost || inbound is Ended
}

/// As long as the connection holds, the adapter keeps streaming and publishes
/// the order update of every payload: each one once, in the order of arrival,
/// and nothing else. Frames that cannot be decoded, probes and frames of
/// other kinds change none of this.
pub proof fn lemma_stream_publishes_in_order(failures: u32, inputs: Seq<Inbound>)
    requires
        forall|i: int| 0 <= i < inputs.len() ==> !breaks_connection(#[trigger] inputs[i]),
    ensures
        connection_after(ConnectionState::Streaming, failures, inputs) == (
            ConnectionState::Streaming,
            failures,
        ),
        published_during(ConnectionState::Streaming, failures, inputs) == payloads_among(inputs),
    decreases inputs.len(),
{
    if inputs.len() > 0 {
        let before = inputs.drop_last();
        assert forall|i: int| 0 <= i < before.len() implies !breaks_connection(
            #[trigger] before[i],
        ) by {
            assert(before[i] == inputs[i]);
        }
        lemma_stream_publishes_in_order(failures, before);
        assert(!breaks_connection(inputs.last()));
    }
}

/// A frame that cannot be decoded, or is of a kind the adapter does not know,
/// leaves no trace: whatever comes next is handled as if the frame had never
/// arrived.
pub proof fn lemma_bad_frame_leaves_no_trace(failures: u32, bad: Inbound, next: Inbound)
    requires
        bad is Malformed || bad is Unrecognized,
    ensures
        next_state(ConnectionState::Streaming, bad) == ConnectionState::Streaming,
        next_failures(ConnectionState::Streaming, failures, bad) == failures,
        published(ConnectionState::Streaming, bad) is None,
        directive_for(ConnectionState::Streaming, failures, bad) == Directive::Read,
        next_state(next_state(ConnectionState::Streaming, bad), next) == next_state(
            ConnectionState::Streaming,
            next,
        ),
        published(next_state(ConnectionState::Streaming, bad), next) == published(
            ConnectionState::Streaming,
            next,
        ),
        directive_for(
            next_state(ConnectionState::Streaming, bad),
            next_failures(ConnectionState::Streaming, failures, bad),
            next,
        ) == directive_for(ConnectionState::Streaming, failures, next),
{
}

/// While the adapter streams, every payload is published as the order update
/// it stands for, and the adapter goes on reading.
pub proof fn lemma_payload_is_published(failures: u32, message: BinanceMessage)
    ensures
        published(ConnectionState::Streaming, Inbound::Payload(message)) == Some(
            NormalizedEventView::Stream(message@.normalized()),
        ),
        next_state(ConnectionState::Streaming, Inbound::Payload(message))
            == ConnectionState::Streaming,
        directive_for(ConnectionState::Streaming, failures, Inbound::Payload(message))
            == Directive::Read,
{
}

/// Once terminated the adapter stays so and publishes nothing.
pub proof fn lemma_terminated_is_final(failures: u32, inbound: Inbound)
    ensures
        next_state(ConnectionState::Terminated, inbound) == ConnectionState::Terminated,
        published(ConnectionState::Terminated, inbound) is None,
        directive_for(ConnectionState::Terminated, failures, inbound) == Directive::Stop,
{
}

/// The streaming-feed adapter: its handle on the bus and where it stands with
/// its connection.
#[derive(Debug)]
pub struct UpstreamWebsocket {
    /// The bus that the order updates go to.
    pub liquidations: AppState,
    /// Where the adapter stands with its connection.
    pub state: ConnectionState,
    /// The attempts to reconnect that have failed in a row.
    pub failures: u32,
}

impl UpstreamWebsocket {
    /// An adapter that has yet to make its first connection.
    pub fn new(liquidations: AppState) -> (adapter: UpstreamWebsocket)
        ensures
            adapter.state == ConnectionState::Connecting,
            adapter.failures == 0,
            adapter.liquidations == liquidations,
    {
        UpstreamWebsocket { liquidations, state: ConnectionState::Connecting, failures: 0 }
    }

    /// What the adapter waits for as it stands: the first thing to do, and
    /// what to go on with once a directive has been carried out.
    pub fn directive(&self) -> (directive: Directive)
        ensures
            directive == standing_directive(self.state, self.failures),
    {
        proof {
            lemma_backoff_bounds(self.failures as nat);
        }
        match self.state {
            ConnectionState::Connecting => Directive::Connect { delay_ms: 0 },
            ConnectionState::Streaming => Directive::Read,
            ConnectionState::Reconnecting => Directive::Connect {
                delay_ms: backoff_delay_ms(self.failures),
            },
            ConnectionState::Terminated => Directive::Stop,
        }
    }

    /// Takes in one thing that happened on the connection: moves to the state
    /// that follows, publishes the order update if it was a payload, and says
    /// what the caller is to do next. Publishing never holds the adapter up.
    pub fn handle(&mut self, inbound: Inbound) -> (directive: Directive)
        ensures
            final(self).state == next_state(old(self).state, inbound),
            final(self).failures == next_failures(old(self).state, old(self).failures, inbound),
            final(self).liquidations == old(self).liquidations,
            directive == directive_for(old(self).state, old(self).failures, inbound),
    {
        let decision = decide(self.state, self.failures, inbound);
        self.state = decision.state;
        self.failures = decision.failures;
        match decision.publish {
            Some(event) => {
                let _reached: usize = self.liquidations.publish(event);
            },
            None => {},
        }
        decision.directive
    }
}

} // verus!
