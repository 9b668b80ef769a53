//! The event bus: one bounded broadcast channel between the feed adapters and
//! the consumer sessions. The channel is tokio's; this module holds its two
//! halves and what the relay does with them.

use crate::types::{NormalizedEvent, NormalizedEventView};
use tokio::sync::broadcast::{Receiver, Sender};
use vstd::prelude::*;

verus! {

/// The sending half of tokio's broadcast channel, opaque to the verifier.
#[verifier::external_type_specification]
#[verifier::external_body]
#[verifier::reject_recursive_types(T)]
pub struct ExSender<T>(Sender<T>);

/// The receiving half of tokio's broadcast channel, opaque to the verifier.
#[verifier::external_type_specification]
#[verifier::external_body]
#[verifier::reject_recursive_types(T)]
pub struct ExReceiver<T>(Receiver<T>);

/// The number of events that the bus retains unless told otherwise.
pub const DEFAULT_CAPACITY: usize = 1024;

/// The capacities that a bus can be made with.
pub open spec fn valid_capacity(capacity: usize) -> bool {
    0 < capacity <= usize::MAX / 2
}

/// The smallest power of two that is no less than `capacity`: the number of
/// events that a bus asked to retain `capacity` events does retain.
pub open spec fn rounded_up(capacity: nat) -> nat
    decreases capacity,
{
    if capacity <= 1 {
        1
    } else {
        2 * rounded_up((capacity + 1) / 2)
    }
}

/// A bus retains at least what was asked of it, and less than twice as much.
pub proof fn lemma_rounded_up_bounds(capacity: nat)
    requires
        capacity >= 1,
    ensures
        capacity <= rounded_up(capacity) < 2 * capacity,
    decreases capacity,
{
    if capacity > 1 {
        lemma_rounded_up_bounds((capacity + 1) / 2);
    }
}

/// The channel that a sending half belongs to. Handles of one channel have
/// the same, as tokio's `same_channel` tells; nothing is said of its value.
pub uninterp spec fn sender_channel(sender: Sender<NormalizedEvent>) -> nat;

/// The channel that a receiving half belongs to.
pub uninterp spec fn receiver_channel(receiver: Receiver<NormalizedEvent>) -> nat;

/// The number of events that the channel of a sending half retains. It is
/// fixed when the channel is made.
pub uninterp spec fn sender_capacity(sender: Sender<NormalizedEvent>) -> nat;

/// Where a receiving half stands: the count, modulo 2^64, of the channel's
/// events that lie before the one it takes next. The receiving half keeps it
/// in a field of its own, which only its own calls change.
pub uninterp spec fn receiver_position(receiver: Receiver<NormalizedEvent>) -> nat;

/// A position moved on by `steps`. Positions count modulo 2^64.
pub open spec fn advanced(position: nat, steps: nat) -> nat {
    (position + steps) % 0x1_0000_0000_0000_0000
}

/// What one attempt to take the next event from the bus gave.
#[derive(Debug, Clone, PartialEq, Eq)]
pub enum Delivery {
    /// The next event.
    Event(NormalizedEvent),
    /// The cursor had fallen behind what the bus retains: so many events were
    /// lost to it, and it now stands at the oldest event still retained.
    Lagged(u64),
    /// Nothing has been published beyond the cursor yet.
    Empty,
    /// Every sending half is gone and the cursor has seen all there was.
    Closed,
}

/// What a `Delivery` holds, as text and numbers.
pub enum DeliveryView {
    Event(NormalizedEventView),
    Lagged(u64),
    Empty,
    Closed,
}

impl View for Delivery {
    type V = DeliveryView;

    open spec fn view(&self) -> DeliveryView {
        match self {
            Delivery::Event(event) => DeliveryView::Event(event@),
            Delivery::Lagged(lost) => DeliveryView::Lagged(*lost),
            Delivery::Empty => DeliveryView::Empty,
            Delivery::Closed => DeliveryView::Closed,
        }
    }
}

/// How one attempt to take the next event moves a cursor from `before` to
/// `after`: past the event that it delivers; past the events that it reports
/// lost, of which there is at least one; not at all where there was nothing
/// to take. Nothing is said of a cursor on a closed bus.
pub open spec fn cursor_moved(before: nat, after: nat, delivery: DeliveryView) -> bool {
    match delivery {
        DeliveryView::Event(_) => after == advanced(before, 1),
        DeliveryView::Lagged(lost) => lost >= 1 && after == advanced(before, lost as nat),
        DeliveryView::Empty => after == before,
        DeliveryView::Closed => true,
    }
}

/// The number of subscribers that an event reached, from what the channel
/// answered when the event was handed to it: the count that it gave, or
/// nothing where it found no subscriber.
pub open spec fn reach(accepted: Option<usize>) -> usize {
    match accepted {
        Some(count) => count,
        None => 0,
    }
}

/// Calls `tokio::sync::broadcast::channel`, which panics on a capacity of 0
/// or above `usize::MAX / 2` and else returns the two halves of a new channel.
/// The channel sets aside room for all its events at once; as with any
/// allocation, the machine must have the memory. Both halves belong to the
/// new channel, which retains the capacity asked for, rounded up to a power
/// of two.
#[verifier::external_body]
fn open_channel(capacity: usize) -> (halves: (Sender<NormalizedEvent>, Receiver<NormalizedEvent>))
    requires
        valid_capacity(capacity),
    ensures
        receiver_channel(halves.1) == sender_channel(halves.0),
        sender_capacity(halves.0) == rounded_up(capacity as nat),
{
    tokio::sync::broadcast::channel(capacity)
}

/// Calls `Sender::clone`, which gives another sending half of the same
/// channel: the copy shares the channel's state with the half it was made
/// from, and so its capacity.
#[verifier::external_body]
fn channel_clone(sender: &Sender<NormalizedEvent>) -> (copy: Sender<NormalizedEvent>)
    ensures
        sender_channel(copy) == sender_channel(*sender),
        sender_capacity(copy) == sender_capacity(*sender),
{
    sender.clone()
}

/// Calls `Sender::receiver_count`: the number of receiving halves alive at
/// the moment of the call. Other tasks may change it at any time, so nothing
/// is claimed of it.
#[verifier::external_body]
fn channel_receiver_count(sender: &Sender<NormalizedEvent>) -> (count: usize) {
    sender.receiver_count()
}

/// Calls `Sender::send`, which queues the value for every receiving half
/// alive and returns their number, or fails when there is none. A count that
/// comes back is therefore at least 1.
#[verifier::external_body]
fn channel_send(sender: &Sender<NormalizedEvent>, event: NormalizedEvent) -> (accepted: Option<usize>)
    ensures
        accepted matches Some(count) ==> count >= 1,
{
    match sender.send(event) {
        Ok(count) => Some(count),
        Err(_) => None,
    }
}

/// Calls `Sender::subscribe`: a new receiving half on the sender's channel
/// that sees what is sent after the call. Where on the channel it starts
/// depends on what has been sent, so nothing is claimed of that. It panics
/// once `usize::MAX / 4` receiving halves are alive at the same time, more
/// than a machine can hold.
#[verifier::external_body]
fn channel_subscribe(sender: &Sender<NormalizedEvent>) -> (receiver: Receiver<NormalizedEvent>)
    ensures
        receiver_channel(receiver) == sender_channel(*sender),
{
    sender.subscribe()
}

/// Calls `Receiver::try_recv` and tells its four outcomes apart. Which of
/// them comes back depends on what other tasks have sent, so nothing is
/// claimed of that. The receiving half stays on its channel, and its own
/// position moves with the outcome: by one past a value that it returns, by
/// the count that it reports as lagged, which is never 0, and not at all
/// where it finds the channel empty.
#[verifier::external_body]
fn channel_try_recv(receiver: &mut Receiver<NormalizedEvent>) -> (delivery: Delivery)
    ensures
        receiver_channel(*final(receiver)) == receiver_channel(*old(receiver)),
        cursor_moved(
            receiver_position(*old(receiver)),
            receiver_position(*final(receiver)),
            delivery@,
        ),
{
    match receiver.try_recv() {
        Ok(event) => Delivery::Event(event),
        Err(tokio::sync::broadcast::error::TryRecvError::Empty) => Delivery::Empty,
        Err(tokio::sync::broadcast::error::TryRecvError::Closed) => Delivery::Closed,
        Err(tokio::sync::broadcast::error::TryRecvError::Lagged(lost)) => Delivery::Lagged(lost),
    }
}

/// The state that every task of the relay shares: the sending half of the bus.
/// Every clone of it is a handle on the same bus.
#[derive(Debug)]
pub struct AppState {
    pub sender: Sender<NormalizedEvent>,
}

impl Clone for AppState {
    /// Another handle on the same bus: what is published through either
    /// reaches the cursors subscribed through the other.
    fn clone(&self) -> (copy: AppState)
        ensures
            copy.channel() == self.channel(),
            copy.capacity() == self.capacity(),
    {
        AppState { sender: channel_clone(&self.sender) }
    }
}

/// A subscriber's place on the bus.
#[derive(Debug)]
pub struct Cursor {
    pub receiver: Receiver<NormalizedEvent>,
}

impl AppState {
    /// The channel that this handle on the bus belongs to.
    pub open spec fn channel(&self) -> nat {
        sender_channel(self.sender)
    }

    /// The number of events that the bus retains.
    pub open spec fn capacity(&self) -> nat {
        sender_capacity(self.sender)
    }

    /// Makes a bus that retains `capacity` events, rounded up to a power of
    /// two, and has no subscriber yet.
    pub fn new(capacity: usize) -> (state: AppState)
        requires
            valid_capacity(capacity),
        ensures
            state.capacity() == rounded_up(capacity as nat),
    {
        let halves = open_channel(capacity);
        AppState { sender: halves.0 }
    }

    /// Makes a bus of the capacity given, or none where a bus cannot have
    /// that capacity.
    pub fn try_new(capacity: usize) -> (state: Option<AppState>)
        ensures
            state is Some <==> valid_capacity(capacity),
            state matches Some(bus) ==> bus.capacity() == rounded_up(capacity as nat),
    {
        if 0 < capacity && capacity <= usize::MAX / 2 {
            Some(AppState::new(capacity))
        } else {
            None
        }
    }

    /// The number of subscribers at this moment.
    pub fn subscriber_count(&self) -> (count: usize) {
        channel_receiver_count(&self.sender)
    }

    /// Hands the event to every subscriber there is at this moment and
    /// returns their number. With no subscriber the event is dropped and 0
    /// returned: that is no error. The call never waits for a subscriber.
    pub fn publish(&self, event: NormalizedEvent) -> (reached: usize) {
        if channel_receiver_count(&self.sender) > 0 {
            reach_of(channel_send(&self.sender, event))
        } else {
            reach_of(None)
        }
    }

    /// A new cursor at the head of the bus: it sees what is published from
    /// now on and nothing from before.
    pub fn subscribe(&self) -> (cursor: Cursor)
        ensures
            cursor.channel() == self.channel(),
    {
        Cursor { receiver: channel_subscribe(&self.sender) }
    }
}

/// Counts the subscribers that an event reached, from what the channel
/// answered when the event was handed to it.
pub fn reach_of(accepted: Option<usize>) -> (reached: usize)
    ensures
        reached == reach(accepted),
{
    match accepted {
        Some(count) => count,
        None => 0,
    }
}

impl Cursor {
    /// The channel of the bus that this cursor is on.
    pub open spec fn channel(&self) -> nat {
        receiver_channel(self.receiver)
    }

    /// Where the cursor stands: the count, modulo 2^64, of the bus's events
    /// that lie before the one it takes next.
    pub open spec fn position(&self) -> nat {
        receiver_position(self.receiver)
    }

    /// Takes the next event if there is one, without waiting, and moves the
    /// cursor past it. After `Lagged` the cursor stands at the oldest event
    /// that the bus still retains.
    pub fn try_recv_next(&mut self) -> (delivery: Delivery)
        ensures
            final(self).channel() == old(self).channel(),
            cursor_moved(old(self).position(), final(self).position(), delivery@),
    {
        channel_try_recv(&mut self.receiver)
    }
}

} // verus!
