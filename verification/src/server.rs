//! The consumer session: one cursor on the bus, bridged to one downstream
//! connection. Waiting for the bus and writing to the connection are the
//! caller's; what to do with each thing that happened is decided here.

use crate::state::{cursor_moved, AppState, Cursor, Delivery, DeliveryView};
use crate::types::NormalizedEventView;
use vstd::prelude::*;

verus! {

/// Whether the session still serves its connection.
#[derive(Debug, Clone, Copy, PartialEq, Eq, Structural)]
pub enum SessionState {
    /// The session forwards what the bus delivers.
    Open,
    /// The session has ended.
    Closed,
}

/// One thing that happened to the session.
#[derive(Debug, Clone, PartialEq, Eq)]
pub enum SessionInbound {
    /// The bus answered the cursor.
    Delivered(Delivery),
    /// Writing to the downstream connection failed.
    WriteFailed,
}

/// What a `SessionInbound` holds, as text and numbers.
pub enum SessionInboundView {
    Delivered(DeliveryView),
    WriteFailed,
}

impl View for SessionInbound {
    type V = SessionInboundView;

    open spec fn view(&self) -> SessionInboundView {
        match self {
            SessionInbound::Delivered(delivery) => SessionInboundView::Delivered(delivery@),
            SessionInbound::WriteFailed => SessionInboundView::WriteFailed,
        }
    }
}

/// What the caller is to do next.
#[derive(Debug, Clone, PartialEq, Eq)]
pub enum SessionDirective {
    /// Write this text to the downstream connection, then take the next event.
    Write(String),
    /// Take the next event from the bus.
    Receive,
    /// Stop: give the cursor up and end the session.
    Stop,
}

/// What a `SessionDirective` holds, as text.
pub enum SessionDirectiveView {
    Write(Seq<char>),
    Receive,
    Stop,
}

impl View for SessionDirective {
    type V = SessionDirectiveView;

    open spec fn view(&self) -> SessionDirectiveView {
        match self {
            SessionDirective::Write(text) => SessionDirectiveView::Write(text@),
            SessionDirective::Receive => SessionDirectiveView::Receive,
            SessionDirective::Stop => SessionDirectiveView::Stop,
        }
    }
}

/// Whether `inbound` ends a session: the bus has closed, or a write failed.
/// Falling behind does not.
pub open spec fn ends_session(inbound: SessionInboundView) -> bool {
    inbound is WriteFailed || inbound == SessionInboundView::Delivered(DeliveryView::Closed)
}

/// The state that follows when `inbound` happens in `state`.
pub open spec fn next_session_state(state: SessionState, inbound: SessionInboundView) -> SessionState {
    if state == SessionState::Open && !ends_session(inbound) {
        SessionState::Open
    } else {
        SessionState::Closed
    }
}

/// What the caller is to do after `inbound` has happened in `state`: write
/// the encoding of an event that was delivered, go on receiving after a gap
/// or when there was nothing to take, stop when the session has ended.
pub open spec fn session_directive_for(
    state: SessionState,
    inbound: SessionInboundView,
) -> SessionDirectiveView {
    if next_session_state(state, inbound) == SessionState::Closed {
        SessionDirectiveView::Stop
    } else {
        match inbound {
            SessionInboundView::Delivered(DeliveryView::Event(event)) => SessionDirectiveView::Write(
                event.json(),
            ),
            _ => SessionDirectiveView::Receive,
        }
    }
}

/// Decides what follows from one thing that happened to a session.
pub fn respond(state: SessionState, inbound: SessionInbound) -> (outcome: (
    SessionState,
    SessionDirective,
))
    ensures
        outcome.0 == next_session_state(state, inbound@),
        outcome.1@ == session_directive_for(state, inbound@),
{
    match state {
        SessionState::Closed => (SessionState::Closed, SessionDirective::Stop),
        SessionState::Open => match inbound {
            SessionInbound::WriteFailed => (SessionState::Closed, SessionDirective::Stop),
            SessionInbound::Delivered(delivery) => match delivery {
                Delivery::Event(event) => (
                    SessionState::Open,
                    SessionDirective::Write(event.to_json()),
                ),
                Delivery::Lagged(_) => (SessionState::Open, SessionDirective::Receive),
                Delivery::Empty => (SessionState::Open, SessionDirective::Receive),
                Delivery::Closed => (SessionState::Closed, SessionDirective::Stop),
            },
        },
    }
}

/// The state of a session after all of `inputs` have happened to it, in order.
pub open spec fn session_after(state: SessionState, inputs: Seq<SessionInboundView>) -> SessionState
    decreases inputs.len(),
{
    if inputs.len() == 0 {
        state
    } else {
        next_session_state(session_after(state, inputs.drop_last()), inputs.last())
    }
}

/// The texts that a session has been told to write while all of `inputs`
/// happened to it, in order.
pub open spec fn written(state: SessionState, inputs: Seq<SessionInboundView>) -> Seq<Seq<char>>
    decreases inputs.len(),
{
    if inputs.len() == 0 {
        Seq::<Seq<char>>::empty()
    } else {
        let earlier = written(state, inputs.drop_last());
        match session_directive_for(session_after(state, inputs.drop_last()), inputs.last()) {
            SessionDirectiveView::Write(text) => earlier.push(text),
            _ => earlier,
        }
    }
}

/// The events among `inputs`, in order.
pub open spec fn events_delivered(inputs: Seq<SessionInboundView>) -> Seq<NormalizedEventView>
    decreases inputs.len(),
{
    if inputs.len() == 0 {
        Seq::<NormalizedEventView>::empty()
    } else {
        let earlier = events_delivered(inputs.drop_last());
        match inputs.last() {
            SessionInboundView::Delivered(DeliveryView::Event(event)) => earlier.push(event),
            _ => earlier,
        }
    }
}

/// The encodings of `events`, in order.
pub open spec fn encodings(events: Seq<NormalizedEventView>) -> Seq<Seq<char>> {
    Seq::new(events.len(), |i: int| events[i].json())
}

/// As long as the bus stays open and no write fails, a session stays open and
/// writes the encoding of every event that the bus delivers to it: each one
/// once, in the order of delivery, and nothing else. Gaps in the delivery and
/// moments with nothing to take change none of this.
pub proof fn lemma_session_forwards_in_order(inputs: Seq<SessionInboundView>)
    requires
        forall|i: int| 0 <= i < inputs.len() ==> !ends_session(#[trigger] inputs[i]),
    ensures
        session_after(SessionState::Open, inputs) == SessionState::Open,
        written(SessionState::Open, inputs) == encodings(events_delivered(inputs)),
    decreases inputs.len(),
{
    if inputs.len() > 0 {
        let before = inputs.drop_last();
        assert forall|i: int| 0 <= i < before.len() implies !ends_session(#[trigger] before[i]) by {
            assert(before[i] == inputs[i]);
        }
        lemma_session_forwards_in_order(before);
        assert(!ends_session(inputs.last()));
        assert(written(SessionState::Open, inputs) =~= encodings(events_delivered(inputs)));
    } else {
        assert(written(SessionState::Open, inputs) =~= encodings(events_delivered(inputs)));
    }
}

/// Falling behind does not end a session, and what is delivered after the gap
/// is handled as if there had been none.
pub proof fn lemma_lag_is_not_fatal(lost: u64, next: SessionInboundView)
    ensures
        next_session_state(
            SessionState::Open,
            SessionInboundView::Delivered(DeliveryView::Lagged(lost)),
        ) == SessionState::Open,
        session_directive_for(
            SessionState::Open,
            SessionInboundView::Delivered(DeliveryView::Lagged(lost)),
        ) == SessionDirectiveView::Receive,
        session_directive_for(
            next_session_state(
                SessionState::Open,
                SessionInboundView::Delivered(DeliveryView::Lagged(lost)),
            ),
            next,
        ) == session_directive_for(SessionState::Open, next),
{
}

/// A session that has ended stays so and writes nothing more.
pub proof fn lemma_closed_session_is_silent(inputs: Seq<SessionInboundView>)
    ensures
        session_after(SessionState::Closed, inputs) == SessionState::Closed,
        written(SessionState::Closed, inputs) == Seq::<Seq<char>>::empty(),
    decreases inputs.len(),
{
    if inputs.len() > 0 {
        lemma_closed_session_is_silent(inputs.drop_last());
    }
}

/// One consumer session: its cursor on the bus and whether it is still open.
#[derive(Debug)]
pub struct Session {
    /// The session's place on the bus.
    pub cursor: Cursor,
    /// Whether the session still serves its connection.
    pub state: SessionState,
}

impl Session {
    /// Opens a session on the bus. It sees what is published from now on.
    pub fn new(bus: &AppState) -> (session: Session)
        ensures
            session.state == SessionState::Open,
            session.cursor.channel() == bus.channel(),
    {
        Session { cursor: bus.subscribe(), state: SessionState::Open }
    }

    /// Takes in one thing that happened to the session, moves to the state
    /// that follows and says what the caller is to do next. The cursor is
    /// left where it stands.
    pub fn handle(&mut self, inbound: SessionInbound) -> (directive: SessionDirective)
        ensures
            final(self).state == next_session_state(old(self).state, inbound@),
            final(self).cursor == old(self).cursor,
            directive@ == session_directive_for(old(self).state, inbound@),
    {
        let outcome = respond(self.state, inbound);
        self.state = outcome.0;
        outcome.1
    }

    /// Asks the bus for the next event without waiting, and handles the
    /// answer: the cursor moves as the answer says, and state and directive
    /// follow from it. A session that has ended leaves the bus alone.
    pub fn poll(&mut self) -> (directive: SessionDirective)
        ensures
            final(self).cursor.channel() == old(self).cursor.channel(),
            old(self).state == SessionState::Closed ==> final(self).state == SessionState::Closed
                && final(self).cursor == old(self).cursor
                && directive@ == SessionDirectiveView::Stop,
            old(self).state == SessionState::Open ==> exists|delivery: DeliveryView|
                final(self).state == #[trigger] next_session_state(
                    SessionState::Open,
                    SessionInboundView::Delivered(delivery),
                ) && directive@ == session_directive_for(
                    SessionState::Open,
                    SessionInboundView::Delivered(delivery),
                ) && cursor_moved(
                    old(self).cursor.position(),
                    final(self).cursor.position(),
                    delivery,
                ),
    {
        match self.state {
            SessionState::Closed => SessionDirective::Stop,
            SessionState::Open => {
                let delivery = self.cursor.try_recv_next();
                let ghost answer = delivery@;
                let directive = self.handle(SessionInbound::Delivered(delivery));
                assert(self.state == next_session_state(
                    SessionState::Open,
                    SessionInboundView::Delivered(answer),
                ) && cursor_moved(
                    old(self).cursor.position(),
                    self.cursor.position(),
                    answer,
                ));
                directive
            },
        }
    }

    /// Ends the session: the cursor is given up, and with it the
    /// subscription. The bus and the other sessions are not touched.
    pub fn close(self) {
    }
}

} // verus!
