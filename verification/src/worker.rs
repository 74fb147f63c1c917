//! The decisions of one worker of the pool.
//!
//! A worker receives one delivery at a time from the channel, runs the job
//! handler on it and acknowledges it: it deletes the message when the handler
//! succeeded and extends its visibility timeout when the handler failed, so
//! that the store delivers it again later. A delivery that cannot be read is
//! answered like one whose handler failed. Nothing but the closing of the
//! channel ends a worker.

use vstd::prelude::*;

use crate::queue::{Delivery, Message};
use crate::trace_context::{extract, extract_spec, SpanContext, SpanContextView};

verus! {

/// Where a worker stands.
#[derive(Debug, PartialEq, Eq)]
pub enum WorkerState<R> {
    /// Waiting for the channel to hand out a delivery.
    Idle,
    /// Inside the job handler, for the delivery with this receipt.
    Busy { receipt: R },
    /// Waiting for the store to answer a delete or an extension.
    Acknowledging,
    /// Done: the channel was closed and drained.
    Exited,
}

/// What a worker is told.
#[derive(Debug, PartialEq, Eq)]
pub enum WorkerEvent<R> {
    /// The channel handed out a delivery.
    Received(Delivery<R>),
    /// The channel handed out a delivery whose body is no message.
    Undecodable { receipt: R },
    /// The channel is closed and empty.
    ChannelClosed,
    /// The job handler returned without error.
    HandlerSucceeded,
    /// The job handler returned an error.
    HandlerFailed,
    /// The store carried out the delete or the extension.
    Acknowledged,
    /// The store could not carry out the delete or the extension.
    AcknowledgeFailed,
}

/// What a worker does next.
#[derive(Debug, PartialEq, Eq)]
pub enum WorkerAction<R> {
    /// Wait for the next delivery.
    Receive,
    /// Run the job handler on `message`, in a consumer span whose parent is
    /// `parent`.
    Handle { message: Message, parent: Option<SpanContext> },
    /// Delete the message of this delivery from the store.
    Delete { receipt: R },
    /// Hide the message of this delivery for `seconds` more seconds.
    Extend { receipt: R, seconds: u64 },
    /// Stop.
    Exit,
    /// The event was not one that the state waits for: nothing changes.
    Nothing,
}

/// The mathematical value of a [`WorkerAction`]: the action itself, with
/// the parent context as a value.
pub enum WorkerActionView<R> {
    Receive,
    Handle { message: Message, parent: Option<SpanContextView> },
    Delete { receipt: R },
    Extend { receipt: R, seconds: u64 },
    Exit,
    Nothing,
}

impl<R> View for WorkerAction<R> {
    type V = WorkerActionView<R>;

    open spec fn view(&self) -> WorkerActionView<R> {
        match *self {
            WorkerAction::Receive => WorkerActionView::Receive,
            WorkerAction::Handle { message, parent } => WorkerActionView::Handle {
                message,
                parent: parent.deep_view(),
            },
            WorkerAction::Delete { receipt } => WorkerActionView::Delete { receipt },
            WorkerAction::Extend { receipt, seconds } => WorkerActionView::Extend {
                receipt,
                seconds,
            },
            WorkerAction::Exit => WorkerActionView::Exit,
            WorkerAction::Nothing => WorkerActionView::Nothing,
        }
    }
}

/// The transition function of a worker. `retry_delay` is the number of
/// seconds for which a message stays hidden after its handler failed, or
/// after it was found unreadable.
pub open spec fn step_spec<R>(state: WorkerState<R>, event: WorkerEvent<R>, retry_delay: u64) -> (
    WorkerState<R>,
    WorkerActionView<R>,
) {
    match (state, event) {
        (WorkerState::Idle, WorkerEvent::Received(delivery)) => (
            WorkerState::Busy { receipt: delivery.receipt },
            WorkerActionView::Handle {
                message: delivery.message,
                parent: extract_spec(delivery.message.properties.deep_view()),
            },
        ),
        (WorkerState::Idle, WorkerEvent::Undecodable { receipt }) => (
            WorkerState::Acknowledging,
            WorkerActionView::Extend { receipt, seconds: retry_delay },
        ),
        (WorkerState::Idle, WorkerEvent::ChannelClosed) => (
            WorkerState::Exited,
            WorkerActionView::Exit,
        ),
        (WorkerState::Busy { receipt }, WorkerEvent::HandlerSucceeded) => (
            WorkerState::Acknowledging,
            WorkerActionView::Delete { receipt },
        ),
        (WorkerState::Busy { receipt }, WorkerEvent::HandlerFailed) => (
            WorkerState::Acknowledging,
            WorkerActionView::Extend { receipt, seconds: retry_delay },
        ),
        (WorkerState::Acknowledging, WorkerEvent::Acknowledged) => (
            WorkerState::Idle,
            WorkerActionView::Receive,
        ),
        (WorkerState::Acknowledging, WorkerEvent::AcknowledgeFailed) => (
            WorkerState::Idle,
            WorkerActionView::Receive,
        ),
        (state, _) => (state, WorkerActionView::Nothing),
    }
}

/// A fresh worker and its first action: to wait for a delivery.
pub fn start<R>() -> (begin: (WorkerState<R>, WorkerAction<R>))
    ensures
        begin == (WorkerState::<R>::Idle, WorkerAction::<R>::Receive),
{
    (WorkerState::Idle, WorkerAction::Receive)
}

/// Decides what a worker in `state` does when `event` happens.
///
/// - A delivery received while idle goes to the handler, with the trace
///   context that its properties carry as parent.
/// - A handler that succeeded is answered by a delete, one that failed by an
///   extension of `retry_delay` seconds, each for the receipt of the
///   delivery that the handler ran on. There is no limit on retries.
/// - A delivery that cannot be read never reaches the handler: it is
///   answered by an extension of `retry_delay` seconds at once, and stays
///   in the store.
/// - Whether the store then confirms or not, the worker waits for the next
///   delivery.
/// - The worker exits when the channel is closed and empty, and on nothing
///   else.
pub fn step<R>(state: WorkerState<R>, event: WorkerEvent<R>, retry_delay: u64) -> (next: (
    WorkerState<R>,
    WorkerAction<R>,
))
    ensures
        next.0 == step_spec(state, event, retry_delay).0,
        next.1@ == step_spec(state, event, retry_delay).1,
{
    match (state, event) {
        (WorkerState::Idle, WorkerEvent::Received(delivery)) => {
            let parent = extract(&delivery.message.properties);
            (
                WorkerState::Busy { receipt: delivery.receipt },
                WorkerAction::Handle { message: delivery.message, parent },
            )
        },
        (WorkerState::Idle, WorkerEvent::Undecodable { receipt }) => (
            WorkerState::Acknowledging,
            WorkerAction::Extend { receipt, seconds: retry_delay },
        ),
        (WorkerState::Idle, WorkerEvent::ChannelClosed) => (
            WorkerState::Exited,
            WorkerAction::Exit,
        ),
        (WorkerState::Busy { receipt }, WorkerEvent::HandlerSucceeded) => (
            WorkerState::Acknowledging,
            WorkerAction::Delete { receipt },
        ),
        (WorkerState::Busy { receipt }, WorkerEvent::HandlerFailed) => (
            WorkerState::Acknowledging,
            WorkerAction::Extend { receipt, seconds: retry_delay },
        ),
        (WorkerState::Acknowledging, WorkerEvent::Acknowledged) => (
            WorkerState::Idle,
            WorkerAction::Receive,
        ),
        (WorkerState::Acknowledging, WorkerEvent::AcknowledgeFailed) => (
            WorkerState::Idle,
            WorkerAction::Receive,
        ),
        (state, _) => (state, WorkerAction::Nothing),
    }
}

/// The state of a worker that started in `state` and saw `events` in order.
pub open spec fn state_after<R>(
    state: WorkerState<R>,
    events: Seq<WorkerEvent<R>>,
    retry_delay: u64,
) -> WorkerState<R>
    decreases events.len(),
{
    if events.len() == 0 {
        state
    } else {
        state_after(step_spec(state, events[0], retry_delay).0, events.skip(1), retry_delay)
    }
}

/// The actions, in order, of a worker that started in `state` and saw
/// `events`: one action for each event.
pub open spec fn actions_of<R>(
    state: WorkerState<R>,
    events: Seq<WorkerEvent<R>>,
    retry_delay: u64,
) -> Seq<WorkerActionView<R>>
    decreases events.len(),
{
    if events.len() == 0 {
        Seq::empty()
    } else {
        let (next, action) = step_spec(state, events[0], retry_delay);
        seq![action] + actions_of(next, events.skip(1), retry_delay)
    }
}

/// Whether a worker in `state` takes up the delivery `receipt` on `event`,
/// readable or not.
pub open spec fn takes_up<R>(state: WorkerState<R>, event: WorkerEvent<R>, receipt: R) -> bool {
    &&& state is Idle
    &&& match event {
        WorkerEvent::Received(delivery) => delivery.receipt == receipt,
        WorkerEvent::Undecodable { receipt: unreadable } => unreadable == receipt,
        _ => false,
    }
}

/// Whether a worker in `state` finds on `event` that the delivery `receipt`
/// cannot be read.
pub open spec fn rejects<R>(state: WorkerState<R>, event: WorkerEvent<R>, receipt: R) -> bool {
    state is Idle && event == (WorkerEvent::Undecodable { receipt })
}

/// Whether `event` tells a worker in `state` that the handler failed on the
/// delivery `receipt`.
pub open spec fn fails_on<R>(state: WorkerState<R>, event: WorkerEvent<R>, receipt: R) -> bool {
    state == (WorkerState::Busy { receipt }) && event is HandlerFailed
}

/// Whether `event` tells a worker in `state` that the handler succeeded on
/// the delivery `receipt`.
pub open spec fn succeeds_on<R>(state: WorkerState<R>, event: WorkerEvent<R>, receipt: R) -> bool {
    state == (WorkerState::Busy { receipt }) && event is HandlerSucceeded
}

/// How often a worker that starts in `state` and sees `events` takes up a
/// delivery with the handle `receipt`.
pub open spec fn deliveries<R>(
    state: WorkerState<R>,
    events: Seq<WorkerEvent<R>>,
    retry_delay: u64,
    receipt: R,
) -> nat
    decreases events.len(),
{
    if events.len() == 0 {
        0
    } else {
        (if takes_up(state, events[0], receipt) {
            1nat
        } else {
            0nat
        }) + deliveries(
            step_spec(state, events[0], retry_delay).0,
            events.skip(1),
            retry_delay,
            receipt,
        )
    }
}

/// How often the handler fails on a delivery with the handle `receipt`
/// while a worker that starts in `state` sees `events`.
pub open spec fn failures<R>(
    state: WorkerState<R>,
    events: Seq<WorkerEvent<R>>,
    retry_delay: u64,
    receipt: R,
) -> nat
    decreases events.len(),
{
    if events.len() == 0 {
        0
    } else {
        (if fails_on(state, events[0], receipt) {
            1nat
        } else {
            0nat
        }) + failures(
            step_spec(state, events[0], retry_delay).0,
            events.skip(1),
            retry_delay,
            receipt,
        )
    }
}

/// How often a worker that starts in `state` and sees `events` finds a
/// delivery with the handle `receipt` unreadable.
pub open spec fn rejections<R>(
    state: WorkerState<R>,
    events: Seq<WorkerEvent<R>>,
    retry_delay: u64,
    receipt: R,
) -> nat
    decreases events.len(),
{
    if events.len() == 0 {
        0
    } else {
        (if rejects(state, events[0], receipt) {
            1nat
        } else {
            0nat
        }) + rejections(
            step_spec(state, events[0], retry_delay).0,
            events.skip(1),
            retry_delay,
            receipt,
        )
    }
}

/// How often the handler succeeds on a delivery with the handle `receipt`
/// while a worker that starts in `state` sees `events`.
pub open spec fn successes<R>(
    state: WorkerState<R>,
    events: Seq<WorkerEvent<R>>,
    retry_delay: u64,
    receipt: R,
) -> nat
    decreases events.len(),
{
    if events.len() == 0 {
        0
    } else {
        (if succeeds_on(state, events[0], receipt) {
            1nat
        } else {
            0nat
        }) + successes(
            step_spec(state, events[0], retry_delay).0,
            events.skip(1),
            retry_delay,
            receipt,
        )
    }
}

/// The number of actions in `actions` that delete the delivery `receipt`.
pub open spec fn deletions<R>(actions: Seq<WorkerActionView<R>>, receipt: R) -> nat
    decreases actions.len(),
{
    if actions.len() == 0 {
        0
    } else {
        (if actions[0] == (WorkerActionView::Delete { receipt }) {
            1nat
        } else {
            0nat
        }) + deletions(actions.skip(1), receipt)
    }
}

/// The number of actions in `actions` that extend the visibility timeout of
/// the delivery `receipt` by `seconds`.
pub open spec fn extensions<R>(actions: Seq<WorkerActionView<R>>, receipt: R, seconds: u64) -> nat
    decreases actions.len(),
{
    if actions.len() == 0 {
        0
    } else {
        (if actions[0] == (WorkerActionView::Extend { receipt, seconds }) {
            1nat
        } else {
            0nat
        }) + extensions(actions.skip(1), receipt, seconds)
    }
}

/// The number of actions in `actions` that extend the delivery `receipt` by
/// any number of seconds.
pub open spec fn extensions_of_any_length<R>(actions: Seq<WorkerActionView<R>>, receipt: R) -> nat
    decreases actions.len(),
{
    if actions.len() == 0 {
        0
    } else {
        (if actions[0] matches WorkerActionView::Extend { receipt: r, .. } && r == receipt {
            1nat
        } else {
            0nat
        }) + extensions_of_any_length(actions.skip(1), receipt)
    }
}

/// 1 while the worker is inside the handler for the delivery `receipt`,
/// else 0.
pub open spec fn in_handler<R>(state: WorkerState<R>, receipt: R) -> nat {
    if state == (WorkerState::Busy { receipt }) {
        1
    } else {
        0
    }
}

/// No delivery vanishes without an attempt to acknowledge it: whatever a
/// worker is told, each delivery that it took up, readable or not, has been
/// answered by exactly one delete or one extension, or is still inside the
/// handler.
pub proof fn lemma_every_delivery_is_acknowledged<R>(
    state: WorkerState<R>,
    events: Seq<WorkerEvent<R>>,
    retry_delay: u64,
    receipt: R,
)
    ensures
        deliveries(state, events, retry_delay, receipt) + in_handler(state, receipt) == deletions(
            actions_of(state, events, retry_delay),
            receipt,
        ) + extensions_of_any_length(actions_of(state, events, retry_delay), receipt) + in_handler(
            state_after(state, events, retry_delay),
            receipt,
        ),
    decreases events.len(),
{
    if events.len() > 0 {
        let (next, action) = step_spec(state, events[0], retry_delay);
        let rest = actions_of(next, events.skip(1), retry_delay);
        lemma_every_delivery_is_acknowledged(next, events.skip(1), retry_delay, receipt);
        assert((seq![action] + rest).skip(1) =~= rest);
        assert((seq![action] + rest)[0] == action);
    }
}

/// A handler that fails any number of times on a delivery is answered by
/// that many extensions of `retry_delay` seconds for it: there is no limit
/// on retries. The only other extensions are those that answer an
/// unreadable delivery, one for each. In the same way each success is
/// answered by one delete, and nothing else is.
pub proof fn lemma_one_extension_for_each_failure<R>(
    state: WorkerState<R>,
    events: Seq<WorkerEvent<R>>,
    retry_delay: u64,
    receipt: R,
)
    ensures
        extensions(actions_of(state, events, retry_delay), receipt, retry_delay) == failures(
            state,
            events,
            retry_delay,
            receipt,
        ) + rejections(state, events, retry_delay, receipt),
        extensions_of_any_length(actions_of(state, events, retry_delay), receipt) == failures(
            state,
            events,
            retry_delay,
            receipt,
        ) + rejections(state, events, retry_delay, receipt),
        deletions(actions_of(state, events, retry_delay), receipt) == successes(
            state,
            events,
            retry_delay,
            receipt,
        ),
    decreases events.len(),
{
    if events.len() > 0 {
        let (next, action) = step_spec(state, events[0], retry_delay);
        let rest = actions_of(next, events.skip(1), retry_delay);
        lemma_one_extension_for_each_failure(next, events.skip(1), retry_delay, receipt);
        assert((seq![action] + rest).skip(1) =~= rest);
        assert((seq![action] + rest)[0] == action);
    }
}

/// No delivery ends a worker: a worker that has not exited and is told of
/// deliveries, handler results and answers of the store only, has not
/// exited afterwards.
pub proof fn lemma_only_the_closed_channel_ends_a_worker<R>(
    state: WorkerState<R>,
    events: Seq<WorkerEvent<R>>,
    retry_delay: u64,
)
    requires
        !(state is Exited),
        forall|i: int| 0 <= i < events.len() ==> !(#[trigger] events[i] is ChannelClosed),
    ensures
        !(state_after(state, events, retry_delay) is Exited),
    decreases events.len(),
{
    if events.len() > 0 {
        assert(!(events[0] is ChannelClosed));
        assert forall|i: int| 0 <= i < events.skip(1).len() implies !(
        #[trigger] events.skip(1)[i] is ChannelClosed) by {
            assert(!(events[i + 1] is ChannelClosed));
        }
        lemma_only_the_closed_channel_ends_a_worker(
            step_spec(state, events[0], retry_delay).0,
            events.skip(1),
            retry_delay,
        );
    }
}

/// A worker that has exited stays so and does nothing more.
pub proof fn lemma_exit_is_final<R>(events: Seq<WorkerEvent<R>>, retry_delay: u64)
    ensures
        state_after(WorkerState::Exited, events, retry_delay) == WorkerState::<R>::Exited,
        forall|i: int|
            0 <= i < events.len() ==> #[trigger] actions_of(
                WorkerState::Exited,
                events,
                retry_delay,
            )[i] == WorkerActionView::<R>::Nothing,
        actions_of(WorkerState::Exited, events, retry_delay).len() == events.len(),
    decreases events.len(),
{
    if events.len() > 0 {
        let state = WorkerState::<R>::Exited;
        let (next, action) = step_spec(state, events[0], retry_delay);
        let rest = actions_of(next, events.skip(1), retry_delay);
        lemma_exit_is_final(events.skip(1), retry_delay);
        assert forall|i: int| 0 <= i < events.len() implies #[trigger] actions_of(
            state,
            events,
            retry_delay,
        )[i] == WorkerActionView::<R>::Nothing by {
            if i > 0 {
                assert((seq![action] + rest)[i] == rest[i - 1]);
            }
        }
    }
}

} // verus!
