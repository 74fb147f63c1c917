//! The bounded channel between the poller and the workers.
//!
//! The poller puts deliveries in at one end and the workers take them out
//! at the other, oldest first. The channel holds at most `capacity` items,
//! which is what keeps the poller from pulling work faster than the workers
//! handle it. Once closed it takes nothing more, but hands out what it holds.
//!
//! The channel is the one of `async_channel`. The tasks of the running
//! service wait on it; here its two ends are kept together and used without
//! waiting, so that the protocol can be played through turn by turn.

use async_channel::{Receiver, Sender, TryRecvError, TrySendError};
use vstd::prelude::*;

use crate::queue::Delivery;

verus! {

#[verifier::external_type_specification]
#[verifier::external_body]
#[verifier::reject_recursive_types(T)]
pub struct ExSender<T>(Sender<T>);

#[verifier::external_type_specification]
#[verifier::external_body]
#[verifier::reject_recursive_types(T)]
pub struct ExReceiver<T>(Receiver<T>);

/// The deliveries that wait in the channel of `receiver`, oldest first.
pub uninterp spec fn buffered(receiver: Receiver<Delivery<u64>>) -> Seq<Delivery<u64>>;

/// The capacity that the channel of `receiver` was made with.
pub uninterp spec fn capacity_of(receiver: Receiver<Delivery<u64>>) -> nat;

/// Whether the channel of `receiver` has been closed.
pub uninterp spec fn is_shut(receiver: Receiver<Delivery<u64>>) -> bool;

/// Whether `sender` and `receiver` are the two ends of one channel that has
/// no other end.
pub uninterp spec fn same_channel(
    sender: Sender<Delivery<u64>>,
    receiver: Receiver<Delivery<u64>>,
) -> bool;

/// What became of an item that was offered to the channel.
#[derive(Debug, PartialEq, Eq)]
pub enum Offered<T> {
    /// The channel took the item.
    Taken,
    /// The channel is full; the item comes back.
    Full(T),
    /// The channel is closed; the item comes back.
    Closed(T),
}

/// What the channel handed out.
#[derive(Debug, PartialEq, Eq)]
pub enum Handed<T> {
    /// The oldest item.
    Item(T),
    /// Nothing at present: the channel is empty but still open.
    Empty,
    /// Nothing ever again: the channel is empty and closed.
    Closed,
}

/// Calls `async_channel::bounded`, which accepts no capacity of zero.
///
/// Trusted: the two ends are those of one new channel, which is open, empty
/// and of the capacity asked for.
#[verifier::external_body]
fn channel_bounded(capacity: usize) -> (ends: (Sender<Delivery<u64>>, Receiver<Delivery<u64>>))
    requires
        capacity > 0,
    ensures
        same_channel(ends.0, ends.1),
        buffered(ends.1) == Seq::<Delivery<u64>>::empty(),
        capacity_of(ends.1) == capacity,
        !is_shut(ends.1),
{
    async_channel::bounded(capacity)
}

/// Calls `Sender::try_send`.
///
/// Trusted: a closed channel and a full one give the item back and stay as
/// they were, the closed one first; otherwise the item becomes the newest
/// in the channel.
#[verifier::external_body]
fn channel_try_send(
    sender: &Sender<Delivery<u64>>,
    receiver: &mut Receiver<Delivery<u64>>,
    item: Delivery<u64>,
) -> (outcome: Offered<Delivery<u64>>)
    requires
        same_channel(*sender, *old(receiver)),
    ensures
        same_channel(*sender, *final(receiver)),
        capacity_of(*final(receiver)) == capacity_of(*old(receiver)),
        is_shut(*final(receiver)) == is_shut(*old(receiver)),
        outcome == if is_shut(*old(receiver)) {
            Offered::Closed(item)
        } else if buffered(*old(receiver)).len() >= capacity_of(*old(receiver)) {
            Offered::Full(item)
        } else {
            Offered::Taken
        },
        buffered(*final(receiver)) == if outcome is Taken {
            buffered(*old(receiver)).push(item)
        } else {
            buffered(*old(receiver))
        },
{
    let _ = receiver;
    match sender.try_send(item) {
        Ok(()) => Offered::Taken,
        Err(TrySendError::Full(item)) => Offered::Full(item),
        Err(TrySendError::Closed(item)) => Offered::Closed(item),
    }
}

/// Calls `Receiver::try_recv`.
///
/// Trusted: the oldest item leaves the channel, if there is one; an empty
/// channel stays as it is and tells whether it is closed.
#[verifier::external_body]
fn channel_try_recv(sender: &Sender<Delivery<u64>>, receiver: &mut Receiver<Delivery<u64>>) -> (outcome:
    Handed<Delivery<u64>>)
    requires
        same_channel(*sender, *old(receiver)),
    ensures
        same_channel(*sender, *final(receiver)),
        capacity_of(*final(receiver)) == capacity_of(*old(receiver)),
        is_shut(*final(receiver)) == is_shut(*old(receiver)),
        outcome == if buffered(*old(receiver)).len() > 0 {
            Handed::Item(buffered(*old(receiver))[0])
        } else if is_shut(*old(receiver)) {
            Handed::Closed
        } else {
            Handed::Empty
        },
        buffered(*final(receiver)) == if buffered(*old(receiver)).len() > 0 {
            buffered(*old(receiver)).skip(1)
        } else {
            buffered(*old(receiver))
        },
{
    match receiver.try_recv() {
        Ok(item) => Handed::Item(item),
        Err(TryRecvError::Empty) => Handed::Empty,
        Err(TryRecvError::Closed) => Handed::Closed,
    }
}

/// Calls `Receiver::close`.
///
/// Trusted: the channel is closed afterwards and holds what it held.
#[verifier::external_body]
fn channel_close(sender: &Sender<Delivery<u64>>, receiver: &mut Receiver<Delivery<u64>>)
    requires
        same_channel(*sender, *old(receiver)),
    ensures
        same_channel(*sender, *final(receiver)),
        capacity_of(*final(receiver)) == capacity_of(*old(receiver)),
        buffered(*final(receiver)) == buffered(*old(receiver)),
        is_shut(*final(receiver)),
{
    receiver.close();
}

/// Calls `Receiver::len`.
///
/// Trusted: the result is the number of items in the channel.
#[verifier::external_body]
fn channel_len(receiver: &Receiver<Delivery<u64>>) -> (count: usize)
    ensures
        count == buffered(*receiver).len(),
{
    receiver.len()
}

/// Calls `Receiver::is_closed`.
///
/// Trusted: the result tells whether the channel has been closed.
#[verifier::external_body]
fn channel_is_closed(receiver: &Receiver<Delivery<u64>>) -> (closed: bool)
    ensures
        closed == is_shut(*receiver),
{
    receiver.is_closed()
}

/// The two ends of one bounded channel of deliveries.
#[derive(Debug)]
pub struct Channel {
    sender: Sender<Delivery<u64>>,
    receiver: Receiver<Delivery<u64>>,
    capacity: usize,
}

impl Channel {
    /// The items in the channel, oldest first.
    pub closed spec fn items(&self) -> Seq<Delivery<u64>> {
        buffered(self.receiver)
    }

    /// The largest number of items that the channel holds at a time.
    pub closed spec fn limit(&self) -> nat {
        capacity_of(self.receiver)
    }

    /// Whether the channel has been closed.
    pub closed spec fn is_closed(&self) -> bool {
        is_shut(self.receiver)
    }

    /// The two ends belong together, and the channel never holds more than
    /// its capacity, which is positive.
    pub closed spec fn well_formed(&self) -> bool {
        &&& same_channel(self.sender, self.receiver)
        &&& self.capacity == capacity_of(self.receiver)
        &&& 0 < self.capacity
        &&& buffered(self.receiver).len() <= self.capacity
    }

    /// The bound on the number of items follows from well-formedness.
    pub proof fn lemma_bounded(&self)
        requires
            self.well_formed(),
        ensures
            0 < self.limit(),
            self.items().len() <= self.limit(),
    {
    }

    /// An open, empty channel for at most `capacity` items.
    pub fn new(capacity: usize) -> (channel: Channel)
        requires
            capacity > 0,
        ensures
            channel.well_formed(),
            channel.items() == Seq::<Delivery<u64>>::empty(),
            channel.limit() == capacity,
            !channel.is_closed(),
    {
        let (sender, receiver) = channel_bounded(capacity);
        Channel { sender, receiver, capacity }
    }

    /// The number of items in the channel.
    pub fn len(&self) -> (count: usize)
        ensures
            count == self.items().len(),
    {
        channel_len(&self.receiver)
    }

    /// The capacity of the channel.
    pub fn capacity(&self) -> (capacity: usize)
        requires
            self.well_formed(),
        ensures
            capacity == self.limit(),
    {
        self.capacity
    }

    /// Whether the channel has been closed.
    pub fn closed(&self) -> (closed: bool)
        ensures
            closed == self.is_closed(),
    {
        channel_is_closed(&self.receiver)
    }

    /// Offers `item` to the channel. A closed channel and a full one give
    /// the item back and stay as they were; otherwise the item becomes the
    /// newest in the channel.
    pub fn offer(&mut self, item: Delivery<u64>) -> (outcome: Offered<Delivery<u64>>)
        requires
            old(self).well_formed(),
        ensures
            final(self).well_formed(),
            final(self).limit() == old(self).limit(),
            final(self).is_closed() == old(self).is_closed(),
            old(self).is_closed() ==> outcome == Offered::Closed(item) && final(self).items()
                == old(self).items(),
            !old(self).is_closed() && old(self).items().len() == old(self).limit() ==> outcome
                == Offered::Full(item) && final(self).items() == old(self).items(),
            !old(self).is_closed() && old(self).items().len() < old(self).limit() ==> outcome
                == Offered::<Delivery<u64>>::Taken && final(self).items() == old(
                self).items().push(item),
    {
        channel_try_send(&self.sender, &mut self.receiver, item)
    }

    /// Takes the oldest item out of the channel, if there is one.
    pub fn take(&mut self) -> (outcome: Handed<Delivery<u64>>)
        requires
            old(self).well_formed(),
        ensures
            final(self).well_formed(),
            final(self).limit() == old(self).limit(),
            final(self).is_closed() == old(self).is_closed(),
            old(self).items().len() > 0 ==> outcome == Handed::Item(old(self).items()[0])
                && final(self).items() == old(self).items().skip(1),
            old(self).items().len() == 0 ==> final(self).items() == old(self).items() && outcome
                == (if old(self).is_closed() {
                Handed::<Delivery<u64>>::Closed
            } else {
                Handed::<Delivery<u64>>::Empty
            }),
    {
        channel_try_recv(&self.sender, &mut self.receiver)
    }

    /// Closes the channel. What it holds can still be taken out.
    pub fn close(&mut self)
        requires
            old(self).well_formed(),
        ensures
            final(self).well_formed(),
            final(self).limit() == old(self).limit(),
            final(self).items() == old(self).items(),
            final(self).is_closed(),
    {
        channel_close(&self.sender, &mut self.receiver);
    }
}

} // verus!
