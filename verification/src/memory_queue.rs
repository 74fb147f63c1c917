//! A queue with visibility timeouts that lives in memory.
//!
//! It keeps its own clock, which only `advance` moves, so that the timing of
//! deliveries can be stated and tried out exactly. It can be taken offline to
//! see what the rest of the system does when the store cannot be reached.

use vstd::prelude::*;

use crate::queue::{Delivery, Message, Queue, QueueUnavailable, Store, Stored};

verus! {

/// One message in the store.
#[derive(Debug)]
struct Entry {
    receipt: u64,
    message: Message,
    visible_at: u128,
}

/// A store in memory. Receipt handles are numbers, given out in order; the
/// store takes in 2^64 - 1 messages in its life.
#[derive(Debug)]
pub struct MemoryQueue {
    entries: Vec<Entry>,
    next_receipt: u64,
    clock: u64,
    online: bool,
}

impl MemoryQueue {
    /// The entries as mathematical values.
    pub closed spec fn stored(&self) -> Seq<Stored<u64>> {
        Seq::new(
            self.entries@.len(),
            |i: int|
                Stored {
                    receipt: self.entries@[i].receipt,
                    message: self.entries@[i].message@,
                    visible_at: self.entries@[i].visible_at as nat,
                },
        )
    }

    /// An empty store that can be reached, with its clock at zero.
    pub fn new() -> (queue: MemoryQueue)
        ensures
            queue.well_formed(),
            queue.room() == u64::MAX,
            queue.model() == (Store::<u64> { entries: Seq::empty(), now: 0, reachable: true }),
    {
        let queue = MemoryQueue { entries: Vec::new(), next_receipt: 0, clock: 0, online: true };
        proof {
            assert(queue.stored() =~= Seq::empty());
        }
        queue
    }

    /// Moves the clock forward by `seconds`; it stops at the largest value
    /// that it can hold.
    pub fn advance(&mut self, seconds: u64)
        requires
            old(self).well_formed(),
        ensures
            final(self).well_formed(),
            final(self).room() == old(self).room(),
            old(self).model().now + seconds <= u64::MAX ==> final(self).model() == old(
                self).model().later(seconds as nat),
            old(self).model().now + seconds > u64::MAX ==> final(self).model() == (Store {
                now: u64::MAX as nat,
                ..old(self).model()
            }),
    {
        self.clock = self.clock.saturating_add(seconds);
    }

    /// Takes the store offline or brings it back.
    pub fn set_online(&mut self, online: bool)
        requires
            old(self).well_formed(),
        ensures
            final(self).well_formed(),
            final(self).room() == old(self).room(),
            final(self).model() == (Store { reachable: online, ..old(self).model() }),
    {
        self.online = online;
    }

    /// The number of messages in the store, hidden ones included.
    pub fn len(&self) -> (count: usize)
        ensures
            count == self.model().entries.len(),
    {
        self.entries.len()
    }

    /// The time on the store's clock, in seconds.
    pub fn now(&self) -> (now: u64)
        ensures
            now == self.model().now,
    {
        self.clock
    }

    /// The index of the oldest ready entry, if there is one.
    fn find_ready(&self) -> (found: Option<usize>)
        ensures
            found matches Some(index) ==> self.model().next_ready(index as int),
            found is None ==> self.model().none_ready(),
    {
        let mut i: usize = 0;
        while i < self.entries.len()
            invariant
                i <= self.entries.len(),
                forall|j: int| 0 <= j < i ==> !self.model().ready(j),
            decreases self.entries.len() - i,
        {
            if self.entries[i].visible_at <= self.clock as u128 {
                return Some(i);
            }
            i += 1;
        }
        None
    }

    /// The index of the entry with the handle `receipt`, if there is one.
    fn find_receipt(&self, receipt: u64) -> (found: Option<usize>)
        ensures
            found matches Some(index) ==> self.model().held_at(index as int, receipt),
            found is None ==> !self.model().holds(receipt),
    {
        let mut i: usize = 0;
        while i < self.entries.len()
            invariant
                i <= self.entries.len(),
                forall|j: int| 0 <= j < i ==> (#[trigger] self.model().entries[j]).receipt != receipt,
            decreases self.entries.len() - i,
        {
            if self.entries[i].receipt == receipt {
                return Some(i);
            }
            i += 1;
        }
        None
    }

    /// Hides the entry at `index` for `seconds` seconds from now.
    fn conceal(&mut self, index: usize, seconds: u64)
        requires
            old(self).well_formed(),
            index < old(self).model().entries.len(),
        ensures
            final(self).well_formed(),
            final(self).room() == old(self).room(),
            final(self).model() == old(self).model().hidden(index as int, seconds as nat),
    {
        let visible_at: u128 = self.clock as u128 + seconds as u128;
        self.entries[index].visible_at = visible_at;
        proof {
            assert(self.model().entries =~= old(self).model().hidden(
                index as int,
                seconds as nat,
            ).entries);
        }
    }
}

impl Queue for MemoryQueue {
    type Receipt = u64;

    closed spec fn model(&self) -> Store<u64> {
        Store { entries: self.stored(), now: self.clock as nat, reachable: self.online }
    }

    closed spec fn well_formed(&self) -> bool {
        &&& forall|i: int|
            0 <= i < self.entries@.len() ==> (#[trigger] self.entries@[i]).receipt
                < self.next_receipt
        &&& forall|i: int, j: int|
            0 <= i < j < self.entries@.len() ==> (#[trigger] self.entries@[i]).receipt != (
            #[trigger] self.entries@[j]).receipt
    }

    closed spec fn room(&self) -> nat {
        (u64::MAX - self.next_receipt) as nat
    }

    proof fn lemma_receipts_are_distinct(&self) {
    }

    fn enqueue(&mut self, message: Message) -> (outcome: Result<(), QueueUnavailable>) {
        if !self.online || self.next_receipt == u64::MAX {
            return Err(QueueUnavailable);
        }
        let receipt = self.next_receipt;
        let ghost view = message@;
        self.entries.push(Entry { receipt, message, visible_at: self.clock as u128 });
        self.next_receipt = receipt + 1;
        proof {
            assert(self.model().entries =~= old(self).model().enqueued(receipt, view).entries);
            assert(!old(self).model().holds(receipt));
        }
        Ok(())
    }

    fn poll(&mut self, visibility_timeout: u64) -> (outcome: Result<
        Option<Delivery<u64>>,
        QueueUnavailable,
    >) {
        if !self.online {
            return Err(QueueUnavailable);
        }
        match self.find_ready() {
            None => Ok(None),
            Some(index) => {
                let delivery = Delivery {
                    receipt: self.entries[index].receipt,
                    message: self.entries[index].message.clone(),
                };
                self.conceal(index, visibility_timeout);
                Ok(Some(delivery))
            },
        }
    }

    fn delete(&mut self, receipt: &u64) -> (outcome: Result<bool, QueueUnavailable>) {
        if !self.online {
            return Err(QueueUnavailable);
        }
        match self.find_receipt(*receipt) {
            None => Ok(false),
            Some(index) => {
                self.entries.remove(index);
                proof {
                    assert(self.model().entries =~= old(self).model().removed(
                        index as int,
                    ).entries);
                }
                Ok(true)
            },
        }
    }

    fn extend_visibility(&mut self, receipt: &u64, seconds: u64) -> (outcome: Result<
        bool,
        QueueUnavailable,
    >) {
        if !self.online {
            return Err(QueueUnavailable);
        }
        match self.find_receipt(*receipt) {
            None => Ok(false),
            Some(index) => {
                self.conceal(index, seconds);
                Ok(true)
            },
        }
    }
}

} // verus!
