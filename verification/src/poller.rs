//! The decisions of the poller.
//!
//! One poller runs per process. It makes sure that the queue exists, has the
//! workers started, and then asks the store for one ready message at a time, hands each delivery to the
//! channel that feeds the workers, and waits a tick before it asks again. A
//! failed poll is retried on the next tick. Cancellation closes the channel
//! and ends the poller; it does not wait for the workers.
//!
//! The poller never looks into a delivery: `D` is whatever the store hands
//! out.

use vstd::prelude::*;

verus! {

/// Where the poller stands.
#[derive(Debug, Clone, Copy, PartialEq, Eq, Structural)]
pub enum PollerState {
    /// Waiting for the store to confirm that the queue exists.
    Preparing,
    /// Waiting for the workers to be started.
    Starting,
    /// Waiting for the store to answer a poll.
    Polling,
    /// Waiting for room in the channel.
    Forwarding,
    /// Waiting for the next tick, or for cancellation.
    Waiting,
    /// Done: the channel is closed and no poll will follow.
    Closed { failed: bool },
}

/// What the poller is told.
#[derive(Debug, PartialEq, Eq)]
pub enum PollerEvent<D> {
    /// The store created the queue.
    QueueCreated,
    /// The store holds the queue already.
    QueueExists,
    /// The store could not create the queue, for this reason.
    QueueRefused { cause: String },
    /// The workers are running.
    WorkersStarted,
    /// The store answered a poll, with a delivery or without.
    Polled(Option<D>),
    /// The store could not be polled.
    PollFailed,
    /// The channel took the delivery.
    Forwarded,
    /// The channel has no receiver left.
    ChannelClosed,
    /// The tick interval has passed.
    Tick,
    /// The process was asked to shut down.
    Cancelled,
}

/// Why a poller gave up.
#[derive(Debug, PartialEq, Eq)]
pub enum PollerFailure {
    /// The store could not create the queue; the cause is the store's.
    QueueRefused { cause: String },
    /// No worker is left to receive from the channel.
    ChannelClosed,
}

/// What the poller does next.
#[derive(Debug, PartialEq, Eq)]
pub enum PollerAction<D> {
    /// Create the queue in the store unless it exists.
    EnsureQueue,
    /// Start the workers: the queue is there.
    StartWorkers,
    /// Ask the store for at most one ready message and hide it for
    /// `visibility_timeout` seconds.
    Poll { visibility_timeout: u64 },
    /// Put the delivery on the channel, waiting for room if it is full.
    Forward(D),
    /// Wait for `seconds` seconds or for cancellation, whichever comes first.
    Wait { seconds: u64 },
    /// Close the channel and return, with the failure that ends the poller
    /// or, after a cancellation, without one.
    Close { failure: Option<PollerFailure> },
    /// The event was not one that the state waits for: nothing changes.
    Nothing,
}

/// The two durations that the poller works with, in seconds.
#[derive(Debug, Clone, Copy, PartialEq, Eq, Structural)]
pub struct PollerSettings {
    /// For how long a polled message stays hidden from further polls.
    pub visibility_timeout: u64,
    /// For how long the poller rests between two polls.
    pub tick: u64,
}

/// The transition function of the poller.
pub open spec fn step_spec<D>(state: PollerState, event: PollerEvent<D>, settings: PollerSettings) -> (
    PollerState,
    PollerAction<D>,
) {
    match (state, event) {
        (PollerState::Closed { failed }, _) => (state, PollerAction::Nothing),
        (_, PollerEvent::Cancelled) => (
            PollerState::Closed { failed: false },
            PollerAction::Close { failure: None },
        ),
        (PollerState::Preparing, PollerEvent::QueueCreated) => (
            PollerState::Starting,
            PollerAction::StartWorkers,
        ),
        (PollerState::Preparing, PollerEvent::QueueExists) => (
            PollerState::Starting,
            PollerAction::StartWorkers,
        ),
        (PollerState::Preparing, PollerEvent::QueueRefused { cause }) => (
            PollerState::Closed { failed: true },
            PollerAction::Close { failure: Some(PollerFailure::QueueRefused { cause }) },
        ),
        (PollerState::Starting, PollerEvent::WorkersStarted) => (
            PollerState::Polling,
            PollerAction::Poll { visibility_timeout: settings.visibility_timeout },
        ),
        (PollerState::Polling, PollerEvent::Polled(Some(delivery))) => (
            PollerState::Forwarding,
            PollerAction::Forward(delivery),
        ),
        (PollerState::Polling, PollerEvent::Polled(None)) => (
            PollerState::Waiting,
            PollerAction::Wait { seconds: settings.tick },
        ),
        (PollerState::Polling, PollerEvent::PollFailed) => (
            PollerState::Waiting,
            PollerAction::Wait { seconds: settings.tick },
        ),
        (PollerState::Forwarding, PollerEvent::Forwarded) => (
            PollerState::Waiting,
            PollerAction::Wait { seconds: settings.tick },
        ),
        (PollerState::Forwarding, PollerEvent::ChannelClosed) => (
            PollerState::Closed { failed: true },
            PollerAction::Close { failure: Some(PollerFailure::ChannelClosed) },
        ),
        (PollerState::Waiting, PollerEvent::Tick) => (
            PollerState::Polling,
            PollerAction::Poll { visibility_timeout: settings.visibility_timeout },
        ),
        (state, _) => (state, PollerAction::Nothing),
    }
}

/// A fresh poller and its first action: to make sure that the queue exists.
pub fn start<D>() -> (begin: (PollerState, PollerAction<D>))
    ensures
        begin == (PollerState::Preparing, PollerAction::<D>::EnsureQueue),
{
    (PollerState::Preparing, PollerAction::EnsureQueue)
}

/// Decides what the poller in `state` does when `event` happens.
///
/// - Once the queue exists the poller has the workers started, and once
///   they run it polls, with the configured visibility timeout. A store that
///   refuses to create the queue ends the poller with the store's cause:
///   no worker is started and nothing is polled.
/// - A delivery that a poll returned is forwarded to the channel, unchanged.
/// - After a forwarded delivery, an empty poll or a failed poll the poller
///   waits for one tick and polls again.
/// - Cancellation, in whatever state it is observed, closes the channel and
///   ends the poller without failure. A channel without receivers ends it
///   with failure.
/// - A closed poller ignores every event.
pub fn step<D>(state: PollerState, event: PollerEvent<D>, settings: &PollerSettings) -> (next: (
    PollerState,
    PollerAction<D>,
))
    ensures
        next == step_spec(state, event, *settings),
{
    match (state, event) {
        (PollerState::Closed { failed }, _) => (
            PollerState::Closed { failed },
            PollerAction::Nothing,
        ),
        (_, PollerEvent::Cancelled) => (
            PollerState::Closed { failed: false },
            PollerAction::Close { failure: None },
        ),
        (PollerState::Preparing, PollerEvent::QueueCreated) => (
            PollerState::Starting,
            PollerAction::StartWorkers,
        ),
        (PollerState::Preparing, PollerEvent::QueueExists) => (
            PollerState::Starting,
            PollerAction::StartWorkers,
        ),
        (PollerState::Preparing, PollerEvent::QueueRefused { cause }) => (
            PollerState::Closed { failed: true },
            PollerAction::Close { failure: Some(PollerFailure::QueueRefused { cause }) },
        ),
        (PollerState::Starting, PollerEvent::WorkersStarted) => (
            PollerState::Polling,
            PollerAction::Poll { visibility_timeout: settings.visibility_timeout },
        ),
        (PollerState::Polling, PollerEvent::Polled(Some(delivery))) => (
            PollerState::Forwarding,
            PollerAction::Forward(delivery),
        ),
        (PollerState::Polling, PollerEvent::Polled(None)) => (
            PollerState::Waiting,
            PollerAction::Wait { seconds: settings.tick },
        ),
        (PollerState::Polling, PollerEvent::PollFailed) => (
            PollerState::Waiting,
            PollerAction::Wait { seconds: settings.tick },
        ),
        (PollerState::Forwarding, PollerEvent::Forwarded) => (
            PollerState::Waiting,
            PollerAction::Wait { seconds: settings.tick },
        ),
        (PollerState::Forwarding, PollerEvent::ChannelClosed) => (
            PollerState::Closed { failed: true },
            PollerAction::Close { failure: Some(PollerFailure::ChannelClosed) },
        ),
        (PollerState::Waiting, PollerEvent::Tick) => (
            PollerState::Polling,
            PollerAction::Poll { visibility_timeout: settings.visibility_timeout },
        ),
        (state, _) => (state, PollerAction::Nothing),
    }
}

/// The state of a poller that started in `state` and saw `events` in order.
pub open spec fn state_after<D>(
    state: PollerState,
    events: Seq<PollerEvent<D>>,
    settings: PollerSettings,
) -> PollerState
    decreases events.len(),
{
    if events.len() == 0 {
        state
    } else {
        state_after(step_spec(state, events[0], settings).0, events.skip(1), settings)
    }
}

/// The actions, in order, of a poller that started in `state` and saw
/// `events`: one action for each event.
pub open spec fn actions_of<D>(
    state: PollerState,
    events: Seq<PollerEvent<D>>,
    settings: PollerSettings,
) -> Seq<PollerAction<D>>
    decreases events.len(),
{
    if events.len() == 0 {
        Seq::empty()
    } else {
        let (next, action) = step_spec(state, events[0], settings);
        seq![action] + actions_of(next, events.skip(1), settings)
    }
}

/// Whether an action reaches out to the store or to the channel for more
/// work.
pub open spec fn pulls_work<D>(action: PollerAction<D>) -> bool {
    action is EnsureQueue || action is StartWorkers || action is Poll || action is Forward
        || action is Wait
}

/// There is one action for each event.
pub proof fn lemma_one_action_for_each_event<D>(
    state: PollerState,
    events: Seq<PollerEvent<D>>,
    settings: PollerSettings,
)
    ensures
        actions_of(state, events, settings).len() == events.len(),
    decreases events.len(),
{
    if events.len() > 0 {
        lemma_one_action_for_each_event(
            step_spec(state, events[0], settings).0,
            events.skip(1),
            settings,
        );
    }
}

/// A closed poller stays closed and does nothing, whatever it is told.
pub proof fn lemma_closed_is_final<D>(
    failed: bool,
    events: Seq<PollerEvent<D>>,
    settings: PollerSettings,
)
    ensures
        state_after(PollerState::Closed { failed }, events, settings) == (PollerState::Closed {
            failed,
        }),
        actions_of(PollerState::Closed { failed }, events, settings).len() == events.len(),
        forall|j: int|
            0 <= j < events.len() ==> #[trigger] actions_of(
                PollerState::Closed { failed },
                events,
                settings,
            )[j] == PollerAction::<D>::Nothing,
    decreases events.len(),
{
    if events.len() > 0 {
        let state = PollerState::Closed { failed };
        let (next, action) = step_spec(state, events[0], settings);
        let rest = actions_of(next, events.skip(1), settings);
        lemma_closed_is_final(failed, events.skip(1), settings);
        assert forall|j: int| 0 <= j < events.len() implies #[trigger] actions_of(
            state,
            events,
            settings,
        )[j] == PollerAction::<D>::Nothing by {
            if j > 0 {
                assert((seq![action] + rest)[j] == rest[j - 1]);
            }
        }
    }
}

/// No new poll occurs after cancellation was observed: from the event that
/// cancels on, the poller neither polls nor forwards nor waits, whatever
/// state it was in and whatever it is told afterwards.
pub proof fn lemma_no_poll_after_cancellation<D>(
    state: PollerState,
    events: Seq<PollerEvent<D>>,
    settings: PollerSettings,
    cancelled_at: int,
    later: int,
)
    requires
        0 <= cancelled_at <= later < events.len(),
        events[cancelled_at] is Cancelled,
    ensures
        actions_of(state, events, settings).len() == events.len(),
        !pulls_work(actions_of(state, events, settings)[later]),
        state_after(state, events, settings) is Closed,
    decreases events.len(),
{
    let (next, action) = step_spec(state, events[0], settings);
    let rest = actions_of(next, events.skip(1), settings);
    lemma_one_action_for_each_event(state, events, settings);
    if cancelled_at == 0 {
        let failed = next->failed;
        assert(next == PollerState::Closed { failed });
        lemma_closed_is_final(failed, events.skip(1), settings);
        if later > 0 {
            assert((seq![action] + rest)[later] == rest[later - 1]);
        }
    } else {
        lemma_no_poll_after_cancellation(
            next,
            events.skip(1),
            settings,
            cancelled_at - 1,
            later - 1,
        );
        assert((seq![action] + rest)[later] == rest[later - 1]);
    }
}

/// Every poll asks for the configured visibility timeout and every wait
/// lasts one tick.
pub proof fn lemma_poller_keeps_its_settings<D>(
    state: PollerState,
    events: Seq<PollerEvent<D>>,
    settings: PollerSettings,
    at: int,
)
    requires
        0 <= at < events.len(),
    ensures
        actions_of(state, events, settings).len() == events.len(),
        actions_of(state, events, settings)[at] matches PollerAction::Poll { visibility_timeout }
            ==> visibility_timeout == settings.visibility_timeout,
        actions_of(state, events, settings)[at] matches PollerAction::Wait { seconds } ==> seconds
            == settings.tick,
    decreases events.len(),
{
    let (next, action) = step_spec(state, events[0], settings);
    let rest = actions_of(next, events.skip(1), settings);
    lemma_one_action_for_each_event(state, events, settings);
    if at > 0 {
        lemma_poller_keeps_its_settings(next, events.skip(1), settings, at - 1);
        assert((seq![action] + rest)[at] == rest[at - 1]);
    }
}

/// Workers are started only for a queue that is there: the action that
/// starts them answers the store's word that it created the queue or holds
/// it already, and nothing else.
pub proof fn lemma_workers_start_behind_the_queue<D>(
    state: PollerState,
    events: Seq<PollerEvent<D>>,
    settings: PollerSettings,
    at: int,
)
    requires
        0 <= at < events.len(),
    ensures
        actions_of(state, events, settings).len() == events.len(),
        actions_of(state, events, settings)[at] is StartWorkers ==> events[at] is QueueCreated
            || events[at] is QueueExists,
    decreases events.len(),
{
    let (next, action) = step_spec(state, events[0], settings);
    let rest = actions_of(next, events.skip(1), settings);
    lemma_one_action_for_each_event(state, events, settings);
    if at > 0 {
        lemma_workers_start_behind_the_queue(next, events.skip(1), settings, at - 1);
        assert((seq![action] + rest)[at] == rest[at - 1]);
    }
}

/// A refused queue ends everything before it began: the poller closes with
/// the cause that the store gave, and whatever it is told afterwards it
/// starts no worker and polls nothing.
pub proof fn lemma_refused_queue_starts_nothing<D>(
    cause: String,
    events: Seq<PollerEvent<D>>,
    settings: PollerSettings,
    later: int,
)
    requires
        0 < later < events.len(),
        events[0] == (PollerEvent::<D>::QueueRefused { cause }),
    ensures
        actions_of(PollerState::Preparing, events, settings).len() == events.len(),
        actions_of(PollerState::Preparing, events, settings)[0] == (PollerAction::<D>::Close {
            failure: Some(PollerFailure::QueueRefused { cause }),
        }),
        actions_of(PollerState::Preparing, events, settings)[later] == PollerAction::<
            D,
        >::Nothing,
        state_after(PollerState::Preparing, events, settings) == (PollerState::Closed {
            failed: true,
        }),
{
    let (next, action) = step_spec(PollerState::Preparing, events[0], settings);
    let rest = actions_of(next, events.skip(1), settings);
    lemma_one_action_for_each_event(PollerState::Preparing, events, settings);
    lemma_closed_is_final(true, events.skip(1), settings);
    assert((seq![action] + rest)[later] == rest[later - 1]);
}

} // verus!
