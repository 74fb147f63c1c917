//! The poller, the channel and the workers put together.
//!
//! A [`Pool`] holds the state of one poller, of the bounded channel and of a
//! fixed number of workers. Each turn lets the poller or one worker do the
//! one thing it is waiting to do, against a store that is passed in. The
//! caller decides the order of the turns and how each handler call ends, so
//! every interleaving of the real system can be played through.

use vstd::prelude::*;

use crate::channel::{Channel, Handed, Offered};
use crate::poller::{PollerAction, PollerEvent, PollerSettings, PollerState};
use crate::queue::{Delivery, Message, Queue, Store};
use crate::trace_context::{extract_spec, SpanContext};
use crate::worker::{WorkerAction, WorkerEvent, WorkerState};

verus! {

/// How the handler call of a busy worker stands.
#[derive(Debug, Clone, Copy, PartialEq, Eq, Structural)]
pub enum HandlerOutcome {
    /// The handler has not returned yet.
    Running,
    /// The handler returned without error.
    Succeeded,
    /// The handler returned an error.
    Failed,
}

/// What a worker did in its turn.
#[derive(Debug, PartialEq, Eq)]
pub enum Turn {
    /// Nothing: the worker waits for a delivery, for its handler, or has
    /// exited before.
    Waited,
    /// The worker took a delivery from the channel and entered the handler
    /// with this message, to be run in a span with this parent.
    Handling { message: Message, parent: Option<SpanContext> },
    /// The worker asked the store to delete the message of its delivery.
    /// `confirmed` tells whether the store could be reached.
    Deleted { confirmed: bool },
    /// The worker asked the store to extend the visibility timeout of its
    /// delivery. `confirmed` tells whether the store could be reached.
    Extended { confirmed: bool },
    /// The worker found the channel closed and empty, and exited.
    Exited,
}

/// The effect of a delete for `receipt` on a store: the entry that the
/// handle stands for is gone, unless the store cannot be reached or holds no
/// such entry, in which case nothing changes.
pub open spec fn deletes<R>(before: Store<R>, after: Store<R>, receipt: R) -> bool {
    if before.reachable && before.holds(receipt) {
        exists|index: int| before.held_at(index, receipt) && after == before.removed(index)
    } else {
        after == before
    }
}

/// The effect of an extension for `receipt` on a store: the entry that the
/// handle stands for is hidden for `seconds` seconds from now, unless the
/// store cannot be reached or holds no such entry, in which case nothing
/// changes.
pub open spec fn extends<R>(before: Store<R>, after: Store<R>, receipt: R, seconds: nat) -> bool {
    if before.reachable && before.holds(receipt) {
        exists|index: int| before.held_at(index, receipt) && after == before.hidden(index, seconds)
    } else {
        after == before
    }
}

/// The effect of a poll on a store, together with what it returns: the
/// oldest ready entry, hidden for `visibility_timeout` seconds from now; or
/// nothing, and no change, where the store cannot be reached or no entry is
/// ready.
pub open spec fn polls<R>(
    before: Store<R>,
    after: Store<R>,
    visibility_timeout: nat,
    delivery: Option<Delivery<R>>,
) -> bool {
    match delivery {
        None => after == before && (!before.reachable || before.none_ready()),
        Some(delivery) => before.reachable && exists|index: int|
            {
                &&& before.next_ready(index)
                &&& delivery.receipt == before.entries[index].receipt
                &&& delivery.message@ == before.entries[index].message
                &&& after == before.hidden(index, visibility_timeout)
            },
    }
}

/// No message vanishes without an acknowledgement: whatever the poller and
/// the workers do to a store, a message stays in it until a worker deletes
/// it after its handler succeeded. A poll and an extension keep every
/// message, and a delete takes away no message but the one that it names.
pub proof fn lemma_turns_keep_messages<R>(
    before: Store<R>,
    after: Store<R>,
    receipt: R,
    acknowledged: R,
    seconds: nat,
    delivery: Option<Delivery<R>>,
)
    requires
        before.distinct(),
        before.holds(receipt),
    ensures
        polls(before, after, seconds, delivery) ==> after.holds(receipt) && after.distinct(),
        extends(before, after, acknowledged, seconds) ==> after.holds(receipt)
            && after.distinct(),
        deletes(before, after, acknowledged) ==> after.distinct() && (after.holds(receipt) <==> (
        acknowledged != receipt || !before.reachable)),
{
    let message = arbitrary();
    if polls(before, after, seconds, delivery) && delivery is Some {
        let index = choose|index: int|
            before.next_ready(index) && after == before.hidden(index, seconds);
        crate::queue::lemma_only_delete_removes(
            before,
            receipt,
            receipt,
            message,
            index,
            seconds,
        );
    }
    if extends(before, after, acknowledged, seconds) && before.reachable && before.holds(
        acknowledged,
    ) {
        let index = choose|index: int|
            before.held_at(index, acknowledged) && after == before.hidden(index, seconds);
        crate::queue::lemma_only_delete_removes(
            before,
            receipt,
            receipt,
            message,
            index,
            seconds,
        );
    }
    if deletes(before, after, acknowledged) && before.reachable && before.holds(acknowledged) {
        let index = choose|index: int|
            before.held_at(index, acknowledged) && after == before.removed(index);
        crate::queue::lemma_only_delete_removes(
            before,
            receipt,
            receipt,
            message,
            index,
            seconds,
        );
    }
}

/// The number of workers in `workers` that are inside the handler.
pub open spec fn busy_count<R>(workers: Seq<WorkerState<R>>) -> nat
    decreases workers.len(),
{
    if workers.len() == 0 {
        0
    } else {
        busy_count(workers.drop_last()) + if workers.last() is Busy {
            1nat
        } else {
            0nat
        }
    }
}

/// At any instant the number of messages inside a handler call is at most
/// the number of workers.
pub proof fn lemma_busy_workers_bounded<R>(workers: Seq<WorkerState<R>>)
    ensures
        busy_count(workers) <= workers.len(),
    decreases workers.len(),
{
    if workers.len() > 0 {
        lemma_busy_workers_bounded(workers.drop_last());
    }
}

/// One poller, one channel and a fixed set of workers, for a store whose
/// receipt handles are numbers.
#[derive(Debug)]
pub struct Pool {
    pub settings: PollerSettings,
    pub retry_delay: u64,
    pub poller: PollerState,
    /// The delivery that the poller is waiting to put on the channel.
    pub held: Option<Delivery<u64>>,
    pub channel: Channel,
    pub workers: Vec<WorkerState<u64>>,
}

impl Pool {
    /// The number of workers that the pool runs, fixed when the pool is
    /// made. It is also the capacity of the channel.
    pub open spec fn size(&self) -> nat {
        self.channel.limit()
    }

    /// Whether the workers have been started.
    pub open spec fn started(&self) -> bool {
        self.workers@.len() == self.size()
    }

    /// The invariant of a pool: there is no worker before the poller has
    /// found the queue in place, and there are as many as the channel has
    /// room for from then on; the poller holds a delivery exactly while it
    /// waits for room in the channel; and no worker rests between a handler
    /// call and its acknowledgement.
    pub open spec fn well_formed(&self) -> bool {
        &&& self.channel.well_formed()
        &&& (self.started() || self.workers@.len() == 0)
        &&& (self.poller is Preparing ==> self.workers@.len() == 0)
        &&& (!(self.poller is Preparing) && !(self.poller is Closed) ==> self.started())
        &&& (self.poller is Forwarding <==> self.held is Some)
        &&& forall|i: int|
            0 <= i < self.workers@.len() ==> !(#[trigger] self.workers@[i] is Acknowledging)
    }

    /// The number of workers that are inside the handler.
    pub open spec fn busy(&self) -> nat {
        busy_count(self.workers@)
    }

    /// The number of deliveries between the store and the end of a handler
    /// call: held by the poller, waiting in the channel, or in a handler.
    pub open spec fn in_flight(&self) -> nat {
        self.busy() + self.channel.items().len() + if self.held is Some {
            1nat
        } else {
            0nat
        }
    }

    /// A well-formed pool of `n` workers has at most `n` messages inside a
    /// handler call and at most `2 * n + 1` deliveries in flight.
    pub proof fn lemma_bounded(&self)
        requires
            self.well_formed(),
        ensures
            self.busy() <= self.size(),
            self.in_flight() <= 2 * self.size() + 1,
    {
        lemma_busy_workers_bounded(self.workers@);
        self.channel.lemma_bounded();
    }

    /// A pool for `size` workers behind an empty channel of that capacity,
    /// with a poller that has not started yet and no worker running.
    pub fn new(size: usize, settings: PollerSettings, retry_delay: u64) -> (pool: Pool)
        requires
            size > 0,
        ensures
            pool.well_formed(),
            pool.size() == size,
            pool.settings == settings,
            pool.retry_delay == retry_delay,
            pool.poller == PollerState::Preparing,
            pool.held is None,
            pool.channel.items() == Seq::<Delivery<u64>>::empty(),
            !pool.channel.is_closed(),
            pool.workers@.len() == 0,
    {
        Pool {
            settings,
            retry_delay,
            poller: PollerState::Preparing,
            held: None,
            channel: Channel::new(size),
            workers: Vec::new(),
        }
    }

    /// `size` workers that wait for their first delivery.
    fn idle_workers(size: usize) -> (workers: Vec<WorkerState<u64>>)
        ensures
            workers@.len() == size,
            forall|i: int| 0 <= i < size ==> #[trigger] workers@[i] == WorkerState::<u64>::Idle,
    {
        let mut workers: Vec<WorkerState<u64>> = Vec::new();
        let mut i: usize = 0;
        while i < size
            invariant
                i <= size,
                workers@.len() == i,
                forall|j: int| 0 <= j < i ==> #[trigger] workers@[j] == WorkerState::<u64>::Idle,
            decreases size - i,
        {
            workers.push(WorkerState::Idle);
            i += 1;
        }
        workers
    }

    /// The number of workers that have been started.
    pub fn worker_count(&self) -> (count: usize)
        ensures
            count == self.workers@.len(),
    {
        self.workers.len()
    }

    /// The number of workers that are inside the handler.
    pub fn busy_workers(&self) -> (count: usize)
        ensures
            count == self.busy(),
            count <= self.workers@.len(),
    {
        let mut count: usize = 0;
        let mut i: usize = 0;
        while i < self.workers.len()
            invariant
                i <= self.workers.len(),
                count == busy_count(self.workers@.take(i as int)),
                count <= i,
            decreases self.workers.len() - i,
        {
            proof {
                assert(self.workers@.take(i as int + 1).drop_last() =~= self.workers@.take(
                    i as int,
                ));
            }
            match &self.workers[i] {
                WorkerState::Busy { receipt: _ } => {
                    count += 1;
                },
                _ => {},
            }
            i += 1;
        }
        proof {
            assert(self.workers@.take(i as int) =~= self.workers@);
        }
        count
    }

    /// Lets the poller do what it is waiting to do.
    ///
    /// - Before anything else the poller finds the queue in place and
    ///   starts the workers, all idle. Its next turn takes it to polling.
    /// - A polling poller polls `queue` with the configured visibility
    ///   timeout. It keeps the delivery that comes back, to forward it; it
    ///   goes to wait where the store cannot be reached or nothing is ready.
    /// - A forwarding poller offers its delivery to the channel, and stays
    ///   as it is while the channel is full.
    /// - A waiting poller polls again, unless `cancelled` tells it that the
    ///   process shuts down: then it closes the channel and is done.
    ///
    /// No turn of the poller touches a worker.
    pub fn poller_turn<Q: Queue<Receipt = u64>>(&mut self, queue: &mut Q, cancelled: bool)
        requires
            old(self).well_formed(),
            old(queue).well_formed(),
        ensures
            final(self).well_formed(),
            final(queue).well_formed(),
            final(queue).room() == old(queue).room(),
            final(self).settings == old(self).settings,
            final(self).retry_delay == old(self).retry_delay,
            final(self).channel.limit() == old(self).channel.limit(),
            !(old(self).poller is Preparing) ==> final(self).workers == old(self).workers,
            old(self).poller is Preparing ==> {
                &&& final(self).poller == PollerState::Starting
                &&& final(self).started()
                &&& forall|i: int|
                    0 <= i < final(self).workers@.len() ==> #[trigger] final(self).workers@[i]
                        == WorkerState::<u64>::Idle
                &&& final(self).held is None
                &&& final(self).channel == old(self).channel
                &&& final(queue).model() == old(queue).model()
            },
            old(self).poller is Starting ==> {
                &&& final(self).poller == PollerState::Polling
                &&& final(self).held is None
                &&& final(self).channel == old(self).channel
                &&& final(queue).model() == old(queue).model()
            },
            old(self).poller is Polling ==> {
                &&& polls(
                    old(queue).model(),
                    final(queue).model(),
                    old(self).settings.visibility_timeout as nat,
                    final(self).held,
                )
                &&& final(self).poller == if final(self).held is Some {
                    PollerState::Forwarding
                } else {
                    PollerState::Waiting
                }
                &&& final(self).channel == old(self).channel
            },
            old(self).poller is Forwarding ==> {
                &&& final(queue).model() == old(queue).model()
                &&& final(self).channel.is_closed() == old(self).channel.is_closed()
                &&& if old(self).channel.is_closed() {
                    &&& final(self).poller == (PollerState::Closed { failed: true })
                    &&& final(self).held is None
                    &&& final(self).channel.items() == old(self).channel.items()
                } else if old(self).channel.items().len() == old(self).channel.limit() {
                    &&& final(self).poller == PollerState::Forwarding
                    &&& final(self).held == old(self).held
                    &&& final(self).channel.items() == old(self).channel.items()
                } else {
                    &&& final(self).poller == PollerState::Waiting
                    &&& final(self).held is None
                    &&& final(self).channel.items() == old(self).channel.items().push(
                        old(self).held->0,
                    )
                }
            },
            old(self).poller is Waiting ==> {
                &&& final(queue).model() == old(queue).model()
                &&& final(self).held is None
                &&& final(self).channel.items() == old(self).channel.items()
                &&& if cancelled {
                    &&& final(self).poller == (PollerState::Closed { failed: false })
                    &&& final(self).channel.is_closed()
                } else {
                    &&& final(self).poller == PollerState::Polling
                    &&& final(self).channel.is_closed() == old(self).channel.is_closed()
                }
            },
            old(self).poller is Closed ==> {
                &&& final(self).poller == old(self).poller
                &&& final(self).held is None
                &&& final(self).channel == old(self).channel
                &&& final(queue).model() == old(queue).model()
            },
    {
        let state = self.poller;
        proof {
            self.channel.lemma_bounded();
        }
        match state {
            PollerState::Preparing => {
                let (next, action) = crate::poller::step::<Delivery<u64>>(
                    state,
                    PollerEvent::QueueExists,
                    &self.settings,
                );
                self.poller = next;
                self.perform(action);
            },
            PollerState::Starting => {
                let (next, action) = crate::poller::step::<Delivery<u64>>(
                    state,
                    PollerEvent::WorkersStarted,
                    &self.settings,
                );
                self.poller = next;
                self.perform(action);
            },
            PollerState::Polling => {
                let event = match queue.poll(self.settings.visibility_timeout) {
                    Ok(found) => PollerEvent::Polled(found),
                    Err(_) => PollerEvent::PollFailed,
                };
                let (next, action) = crate::poller::step(state, event, &self.settings);
                self.poller = next;
                self.perform(action);
            },
            PollerState::Forwarding => {
                let held = self.held.take();
                match held {
                    Some(delivery) => {
                        match self.channel.offer(delivery) {
                            Offered::Taken => {
                                let (next, action) = crate::poller::step::<Delivery<u64>>(
                                    state,
                                    PollerEvent::Forwarded,
                                    &self.settings,
                                );
                                self.poller = next;
                                self.perform(action);
                            },
                            Offered::Full(delivery) => {
                                self.held = Some(delivery);
                            },
                            Offered::Closed(_) => {
                                let (next, action) = crate::poller::step::<Delivery<u64>>(
                                    state,
                                    PollerEvent::ChannelClosed,
                                    &self.settings,
                                );
                                self.poller = next;
                                self.perform(action);
                            },
                        }
                    },
                    None => {},
                }
            },
            PollerState::Waiting => {
                let event = if cancelled {
                    PollerEvent::Cancelled
                } else {
                    PollerEvent::Tick
                };
                let (next, action) = crate::poller::step::<Delivery<u64>>(state, event, &self.settings);
                self.poller = next;
                self.perform(action);
            },
            PollerState::Closed { failed: _ } => {},
        }
    }

    /// Carries out an action of the poller on the pool: starting the
    /// workers makes them, all idle; a delivery to forward is kept until the
    /// channel takes it; and closing closes the channel. Polling and waiting
    /// are left to the next turn.
    fn perform(&mut self, action: PollerAction<Delivery<u64>>)
        requires
            old(self).channel.well_formed(),
        ensures
            final(self).channel.well_formed(),
            final(self).channel.limit() == old(self).channel.limit(),
            final(self).channel.items() == old(self).channel.items(),
            !(action is StartWorkers) ==> final(self).workers == old(self).workers,
            action is StartWorkers ==> final(self).started() && forall|i: int|
                0 <= i < final(self).workers@.len() ==> #[trigger] final(self).workers@[i]
                    == WorkerState::<u64>::Idle,
            final(self).settings == old(self).settings,
            final(self).retry_delay == old(self).retry_delay,
            final(self).poller == old(self).poller,
            action matches PollerAction::Forward(delivery) ==> final(self).held == Some(delivery)
                && final(self).channel == old(self).channel,
            action is Close ==> final(self).held == old(self).held && final(
                self).channel.is_closed(),
            !(action is Forward) && !(action is Close) ==> final(self).held == old(self).held
                && final(self).channel == old(self).channel,
    {
        match action {
            PollerAction::Forward(delivery) => {
                self.held = Some(delivery);
            },
            PollerAction::Close { failure: _ } => {
                self.channel.close();
            },
            PollerAction::StartWorkers => {
                self.workers = Self::idle_workers(self.channel.capacity());
            },
            _ => {},
        }
    }

    /// Lets the worker `index` do what it is waiting to do.
    ///
    /// - An idle worker takes the oldest delivery from the channel and
    ///   enters the handler with its message. It exits when the channel is
    ///   closed and empty, and waits when it is open and empty.
    /// - A busy worker whose handler `outcome` is a success asks `queue` to
    ///   delete its delivery; on a failure it asks `queue` to hide it for the
    ///   retry delay. Either way it is idle afterwards, whether the store
    ///   could be reached or not. While the handler runs nothing happens.
    /// - A worker that has exited does nothing.
    ///
    /// No turn of a worker touches the poller or another worker.
    pub fn worker_turn<Q: Queue<Receipt = u64>>(
        &mut self,
        queue: &mut Q,
        index: usize,
        outcome: HandlerOutcome,
    ) -> (turn: Turn)
        requires
            old(self).well_formed(),
            old(queue).well_formed(),
            index < old(self).workers@.len(),
        ensures
            final(self).well_formed(),
            final(queue).well_formed(),
            final(queue).room() == old(queue).room(),
            final(self).size() == old(self).size(),
            final(self).settings == old(self).settings,
            final(self).retry_delay == old(self).retry_delay,
            final(self).poller == old(self).poller,
            final(self).held == old(self).held,
            final(self).channel.limit() == old(self).channel.limit(),
            final(self).channel.is_closed() == old(self).channel.is_closed(),
            final(self).workers@ == old(self).workers@.update(
                index as int,
                final(self).workers@[index as int],
            ),
            old(self).workers@[index as int] is Idle ==> {
                &&& final(queue).model() == old(queue).model()
                &&& if old(self).channel.items().len() > 0 {
                    let delivery = old(self).channel.items()[0];
                    &&& final(self).workers@[index as int] == (WorkerState::Busy {
                        receipt: delivery.receipt,
                    })
                    &&& final(self).channel.items() == old(self).channel.items().skip(1)
                    &&& turn matches Turn::Handling { message, parent }
                    &&& message == delivery.message
                    &&& parent.deep_view() == extract_spec(
                        delivery.message.properties.deep_view(),
                    )
                } else {
                    &&& final(self).channel.items() == old(self).channel.items()
                    &&& if old(self).channel.is_closed() {
                        &&& final(self).workers@[index as int] == WorkerState::<u64>::Exited
                        &&& turn == Turn::Exited
                    } else {
                        &&& final(self).workers@[index as int] == WorkerState::<u64>::Idle
                        &&& turn == Turn::Waited
                    }
                }
            },
            old(self).workers@[index as int] matches WorkerState::Busy { receipt } ==> {
                &&& final(self).channel.items() == old(self).channel.items()
                &&& match outcome {
                    HandlerOutcome::Running => {
                        &&& final(self).workers@[index as int] == old(self).workers@[index as int]
                        &&& final(queue).model() == old(queue).model()
                        &&& turn == Turn::Waited
                    },
                    HandlerOutcome::Succeeded => {
                        &&& final(self).workers@[index as int] == WorkerState::<u64>::Idle
                        &&& deletes(old(queue).model(), final(queue).model(), receipt)
                        &&& turn == (Turn::Deleted { confirmed: old(queue).model().reachable })
                    },
                    HandlerOutcome::Failed => {
                        &&& final(self).workers@[index as int] == WorkerState::<u64>::Idle
                        &&& extends(
                            old(queue).model(),
                            final(queue).model(),
                            receipt,
                            old(self).retry_delay as nat,
                        )
                        &&& turn == (Turn::Extended { confirmed: old(queue).model().reachable })
                    },
                }
            },
            old(self).workers@[index as int] is Exited ==> {
                &&& final(self).workers@[index as int] == old(self).workers@[index as int]
                &&& final(self).channel.items() == old(self).channel.items()
                &&& final(queue).model() == old(queue).model()
                &&& turn == Turn::Waited
            },
    {
        let state = self.workers.remove(index);
        let retry_delay = self.retry_delay;
        let (next, turn) = match state {
            WorkerState::Idle => {
                match self.channel.take() {
                    Handed::Item(delivery) => {
                        let (next, action) = crate::worker::step(
                            WorkerState::Idle,
                            WorkerEvent::Received(delivery),
                            retry_delay,
                        );
                        match action {
                            WorkerAction::Handle { message, parent } => (
                                next,
                                Turn::Handling { message, parent },
                            ),
                            _ => (next, Turn::Waited),
                        }
                    },
                    Handed::Empty => (WorkerState::Idle, Turn::Waited),
                    Handed::Closed => {
                        let (next, action) = crate::worker::step::<u64>(
                            WorkerState::Idle,
                            WorkerEvent::ChannelClosed,
                            retry_delay,
                        );
                        match action {
                            WorkerAction::Exit => (next, Turn::Exited),
                            _ => (next, Turn::Waited),
                        }
                    },
                }
            },
            WorkerState::Busy { receipt } => {
                match outcome {
                    HandlerOutcome::Running => (WorkerState::Busy { receipt }, Turn::Waited),
                    HandlerOutcome::Succeeded => {
                        let (next, action) = crate::worker::step(
                            WorkerState::Busy { receipt },
                            WorkerEvent::HandlerSucceeded,
                            retry_delay,
                        );
                        match action {
                            WorkerAction::Delete { receipt } => {
                                let confirmed = queue.delete(&receipt).is_ok();
                                let (next, _) = crate::worker::step(
                                    next,
                                    Self::acknowledgement(confirmed),
                                    retry_delay,
                                );
                                (next, Turn::Deleted { confirmed })
                            },
                            _ => (next, Turn::Waited),
                        }
                    },
                    HandlerOutcome::Failed => {
                        let (next, action) = crate::worker::step(
                            WorkerState::Busy { receipt },
                            WorkerEvent::HandlerFailed,
                            retry_delay,
                        );
                        match action {
                            WorkerAction::Extend { receipt, seconds } => {
                                let confirmed = queue.extend_visibility(&receipt, seconds).is_ok();
                                let (next, _) = crate::worker::step(
                                    next,
                                    Self::acknowledgement(confirmed),
                                    retry_delay,
                                );
                                (next, Turn::Extended { confirmed })
                            },
                            _ => (next, Turn::Waited),
                        }
                    },
                }
            },
            other => (other, Turn::Waited),
        };
        self.workers.insert(index, next);
        proof {
            assert(self.workers@ =~= old(self).workers@.update(index as int, next));
        }
        turn
    }

    /// The event that tells a worker how the store answered.
    fn acknowledgement(confirmed: bool) -> (event: WorkerEvent<u64>)
        ensures
            event == if confirmed {
                WorkerEvent::<u64>::Acknowledged
            } else {
                WorkerEvent::<u64>::AcknowledgeFailed
            },
    {
        if confirmed {
            WorkerEvent::Acknowledged
        } else {
            WorkerEvent::AcknowledgeFailed
        }
    }

    /// Whether every worker has exited.
    pub fn drained(&self) -> (drained: bool)
        ensures
            drained == forall|i: int|
                0 <= i < self.workers@.len() ==> #[trigger] self.workers@[i] is Exited,
    {
        let mut i: usize = 0;
        while i < self.workers.len()
            invariant
                i <= self.workers.len(),
                forall|j: int| 0 <= j < i ==> #[trigger] self.workers@[j] is Exited,
            decreases self.workers.len() - i,
        {
            match &self.workers[i] {
                WorkerState::Exited => {},
                _ => {
                    return false;
                },
            }
            i += 1;
        }
        true
    }
}

} // verus!
