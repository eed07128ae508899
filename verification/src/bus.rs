//! The event bus: one producer side, any number of subscribers, each of
//! which sees the events published after it subscribed, in publish order.
//! The bus is a `tokio` broadcast channel.

use vstd::prelude::*;
use tokio::sync::broadcast::{Receiver, Sender};
use crate::event::{CapturedEvent, CapturedEventView, EventKind};

verus! {

/// The number of events that the bus retains at the least for subscribers
/// that fall behind.
pub const EVENT_BUS_CAPACITY: usize = 1024;

/// `tokio::sync::broadcast::Sender`, carried as an opaque value.
#[verifier::external_type_specification]
#[verifier::external_body]
#[verifier::reject_recursive_types(T)]
pub struct ExSender<T>(Sender<T>);

/// `tokio::sync::broadcast::Receiver`, carried as an opaque value.
#[verifier::external_type_specification]
#[verifier::external_body]
#[verifier::reject_recursive_types(T)]
pub struct ExReceiver<T>(Receiver<T>);

/// What became of a published event.
#[derive(Debug)]
pub enum PublishOutcome {
    /// The event was handed to this many subscribers.
    Delivered(usize),
    /// Nobody was subscribed; the event was dropped. This is no fault.
    NoSubscribers,
}

/// What one read on a subscription came back with.
#[derive(Debug)]
pub enum Delivery {
    /// The next event.
    Event(CapturedEvent),
    /// Nothing is pending, and the bus is still open.
    Empty,
    /// The bus was torn down and nothing is pending.
    Closed,
    /// The subscriber fell behind by this many events, which are lost.
    Lagged(u64),
}

/// What a subscriber's stream does after one read.
#[derive(Debug)]
pub enum StreamAction {
    /// Hand this event to the subscriber.
    Yield(CapturedEvent),
    /// Events were lost; read again for the next one that is retained.
    Skip,
    /// Nothing to hand on for now.
    Wait,
    /// End the stream, without error.
    End,
}

/// The channel that `sender` sends on: what all the senders cloned from
/// one another have in common, and the receivers subscribed through them.
pub uninterp spec fn channel_of(sender: Sender<CapturedEvent>) -> int;

/// The capacity that the channel of `sender` was made with: the number of
/// events that it retains at the least for receivers that fall behind.
pub uninterp spec fn capacity_of(sender: Sender<CapturedEvent>) -> nat;

/// The channel that `receiver` receives from.
pub uninterp spec fn source_of(receiver: Receiver<CapturedEvent>) -> int;

/// `tokio::sync::broadcast::channel`, of which the sender is kept and the
/// first receiver dropped. The channel is made with the capacity handed in.
/// The outside function panics on a capacity of zero or above
/// `usize::MAX / 2`, which `requires` leaves out.
#[verifier::external_body]
fn open_channel(capacity: usize) -> (sender: Sender<CapturedEvent>)
    requires
        0 < capacity <= usize::MAX / 2,
    ensures
        capacity_of(sender) == capacity,
{
    let (sender, _first) = tokio::sync::broadcast::channel(capacity);
    sender
}

/// `Sender::send`. It fails only where no receiver is subscribed, and then
/// hands the value back; where it succeeds it returns the number of
/// receivers, which is not zero.
#[verifier::external_body]
fn send_event(sender: &Sender<CapturedEvent>, event: CapturedEvent) -> (sent: Result<
    usize,
    CapturedEvent,
>)
    ensures
        sent matches Ok(receivers) ==> receivers > 0,
        sent matches Err(returned) ==> returned == event,
{
    match sender.send(event) {
        Ok(receivers) => Ok(receivers),
        Err(tokio::sync::broadcast::error::SendError(returned)) => Err(returned),
    }
}

/// `Sender::clone`: another sender on the same channel, which has the
/// capacity that it was made with.
#[verifier::external_body]
fn clone_sender(sender: &Sender<CapturedEvent>) -> (copy: Sender<CapturedEvent>)
    ensures
        channel_of(copy) == channel_of(*sender),
        capacity_of(copy) == capacity_of(*sender),
{
    sender.clone()
}

/// `Sender::subscribe`: a receiver on the sender's channel. Nothing is
/// claimed of what it will receive. The outside function panics only where
/// the channel already has `usize::MAX / 4` receivers, more than memory can
/// hold.
#[verifier::external_body]
fn new_receiver(sender: &Sender<CapturedEvent>) -> (receiver: Receiver<CapturedEvent>)
    ensures
        source_of(receiver) == channel_of(*sender),
{
    sender.subscribe()
}

/// `Receiver::try_recv`, with its result as a `Delivery`. A lag is reported
/// only where at least one event was lost. The receiver stays on its
/// channel whatever it reads.
#[verifier::external_body]
fn try_receive(receiver: &mut Receiver<CapturedEvent>) -> (delivery: Delivery)
    ensures
        delivery matches Delivery::Lagged(missed) ==> missed > 0,
        source_of(*final(receiver)) == source_of(*old(receiver)),
{
    match receiver.try_recv() {
        Ok(event) => Delivery::Event(event),
        Err(tokio::sync::broadcast::error::TryRecvError::Empty) => Delivery::Empty,
        Err(tokio::sync::broadcast::error::TryRecvError::Closed) => Delivery::Closed,
        Err(tokio::sync::broadcast::error::TryRecvError::Lagged(missed)) => Delivery::Lagged(missed),
    }
}

/// What `publish` reports for each result of the send: a send that reached
/// receivers was delivered; one that found none is no error.
pub open spec fn outcome_of(sent: Result<usize, CapturedEvent>) -> PublishOutcome {
    match sent {
        Ok(receivers) => PublishOutcome::Delivered(receivers),
        Err(_) => PublishOutcome::NoSubscribers,
    }
}

/// Says what became of an event, given the result of sending it.
pub fn publish_outcome(sent: Result<usize, CapturedEvent>) -> (outcome: PublishOutcome)
    ensures
        outcome == outcome_of(sent),
{
    match sent {
        Ok(receivers) => PublishOutcome::Delivered(receivers),
        Err(_) => PublishOutcome::NoSubscribers,
    }
}

/// A send that found no subscriber is reported as that and as nothing
/// worse: publishing to nobody is no fault.
pub proof fn no_subscribers_is_no_fault(returned: CapturedEvent)
    ensures
        outcome_of(Err(returned)) == PublishOutcome::NoSubscribers,
{
}

/// What a stream does after a read came back with `delivery`: an event is
/// handed on, a lag is skipped over in silence, an empty bus is waited on,
/// and a closed one ends the stream.
pub open spec fn action_for(delivery: Delivery) -> StreamAction {
    match delivery {
        Delivery::Event(event) => StreamAction::Yield(event),
        Delivery::Lagged(_) => StreamAction::Skip,
        Delivery::Empty => StreamAction::Wait,
        Delivery::Closed => StreamAction::End,
    }
}

/// Decides what a subscriber's stream does after one read.
pub fn stream_action(delivery: Delivery) -> (action: StreamAction)
    ensures
        action == action_for(delivery),
{
    match delivery {
        Delivery::Event(event) => StreamAction::Yield(event),
        Delivery::Lagged(_) => StreamAction::Skip,
        Delivery::Empty => StreamAction::Wait,
        Delivery::Closed => StreamAction::End,
    }
}

/// A producer's handle on the bus. It keeps a record, for proofs only, of
/// the events that were handed to the bus through it.
pub struct EventBus {
    sender: Sender<CapturedEvent>,
    published: Ghost<Seq<CapturedEventView>>,
}

/// One subscriber's handle on the bus.
pub struct Subscription {
    receiver: Receiver<CapturedEvent>,
}

/// `after` is `before` and one more event of kind `name` with the details
/// `details`, whatever its timestamp.
pub open spec fn grew_by(
    before: Seq<CapturedEventView>,
    after: Seq<CapturedEventView>,
    name: EventKind,
    details: Seq<char>,
) -> bool {
    &&& after.len() == before.len() + 1
    &&& after.drop_last() == before
    &&& after.last().name == name
    &&& after.last().details == details
}

impl EventBus {
    /// The events handed to the bus through this handle, in order.
    pub closed spec fn log(&self) -> Seq<CapturedEventView> {
        self.published@
    }

    /// The channel that this handle publishes to. Handles on one bus name
    /// the same channel.
    pub closed spec fn channel(&self) -> int {
        channel_of(self.sender)
    }

    /// The capacity that the bus was made with.
    pub closed spec fn capacity(&self) -> nat {
        capacity_of(self.sender)
    }

    /// A bus that retains at least `capacity` events for subscribers that
    /// fall behind; the channel rounds its buffer up to a power of two.
    pub fn with_capacity(capacity: usize) -> (bus: Self)
        requires
            0 < capacity <= usize::MAX / 2,
        ensures
            bus.capacity() == capacity,
            bus.log() == Seq::<CapturedEventView>::empty(),
    {
        EventBus { sender: open_channel(capacity), published: Ghost(Seq::empty()) }
    }

    /// A bus of the standard capacity.
    pub fn new() -> (bus: Self)
        ensures
            bus.capacity() == EVENT_BUS_CAPACITY,
            bus.log() == Seq::<CapturedEventView>::empty(),
    {
        EventBus { sender: open_channel(EVENT_BUS_CAPACITY), published: Ghost(Seq::empty()) }
    }

    /// Another producer's handle on the same bus, with a record of its own.
    pub fn handle(&self) -> (other: Self)
        ensures
            other.channel() == self.channel(),
            other.capacity() == self.capacity(),
            other.log() == Seq::<CapturedEventView>::empty(),
    {
        EventBus { sender: clone_sender(&self.sender), published: Ghost(Seq::empty()) }
    }

    /// Hands `event` to every current subscriber. Publishing to nobody is
    /// no fault: the event is dropped and the outcome says so. The handle
    /// stays on its bus.
    pub fn publish(&mut self, event: CapturedEvent) -> (outcome: PublishOutcome)
        ensures
            final(self).log() == old(self).log().push(event@),
            final(self).channel() == old(self).channel(),
            final(self).capacity() == old(self).capacity(),
            outcome matches PublishOutcome::Delivered(receivers) ==> receivers > 0,
    {
        self.published = Ghost(self.published@.push(event@));
        publish_outcome(send_event(&self.sender, event))
    }

    /// A new subscription on this bus, which sees the events published to
    /// it from now on.
    pub fn subscribe(&self) -> (subscription: Subscription)
        ensures
            subscription.channel() == self.channel(),
    {
        Subscription { receiver: new_receiver(&self.sender) }
    }
}

impl Subscription {
    /// The receiver that the subscription holds.
    pub closed spec fn receiver(&self) -> Receiver<CapturedEvent> {
        self.receiver
    }

    /// The channel of the bus that the subscription was opened on.
    pub open spec fn channel(&self) -> int {
        source_of(self.receiver())
    }

    /// Reads once without waiting and says what the stream does next. What
    /// is read depends on what the producers have published meanwhile; the
    /// subscription stays on its bus whatever it is.
    pub fn poll(&mut self) -> (action: StreamAction)
        ensures
            final(self).channel() == old(self).channel(),
    {
        let delivery = try_receive(&mut self.receiver);
        stream_action(delivery)
    }

    /// Gives up the handle for the receiver it holds.
    pub fn into_receiver(self) -> (receiver: Receiver<CapturedEvent>)
        ensures
            receiver == self.receiver(),
    {
        self.receiver
    }
}

} // verus!
