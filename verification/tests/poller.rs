use drive_ocr::message::{Claim, Payload};
use drive_ocr::poller::{
    start, step, PollerAction, PollerEvent, PollerFailure, PollerSettings, PollerState,
};
use drive_ocr::queue::{Delivery, Message};

const SETTINGS: PollerSettings = PollerSettings { visibility_timeout: 300, tick: 1 };

fn delivery(receipt: u64) -> Delivery<u64> {
    Delivery {
        receipt,
        message: Message {
            id: 77,
            properties: Vec::new(),
            payload: Payload::new("a.pdf".to_string(), "/a.pdf".to_string(), "http://x/a".to_string()),
            claim: Claim { token_id: 1 },
        },
    }
}

#[test]
fn a_fresh_poller_ensures_the_queue() {
    assert_eq!(start::<u64>(), (PollerState::Preparing, PollerAction::EnsureQueue));
}

#[test]
fn an_existing_queue_is_as_good_as_a_new_one() {
    assert_eq!(
        step::<u64>(PollerState::Preparing, PollerEvent::QueueCreated, &SETTINGS),
        (PollerState::Starting, PollerAction::StartWorkers)
    );
    assert_eq!(
        step::<u64>(PollerState::Preparing, PollerEvent::QueueExists, &SETTINGS),
        (PollerState::Starting, PollerAction::StartWorkers)
    );
}

#[test]
fn polling_begins_once_the_workers_run() {
    assert_eq!(
        step::<u64>(PollerState::Starting, PollerEvent::WorkersStarted, &SETTINGS),
        (PollerState::Polling, PollerAction::Poll { visibility_timeout: 300 })
    );
    assert_eq!(
        step::<u64>(PollerState::Preparing, PollerEvent::WorkersStarted, &SETTINGS),
        (PollerState::Preparing, PollerAction::Nothing)
    );
}

#[test]
fn a_refused_queue_starts_no_worker_and_polls_nothing() {
    let (mut state, action) = step::<u64>(
        PollerState::Preparing,
        PollerEvent::QueueRefused { cause: "NOAUTH".to_string() },
        &SETTINGS,
    );
    assert_eq!(state, PollerState::Closed { failed: true });
    assert_eq!(
        action,
        PollerAction::Close {
            failure: Some(PollerFailure::QueueRefused { cause: "NOAUTH".to_string() })
        }
    );
    for event in [
        PollerEvent::WorkersStarted,
        PollerEvent::QueueExists,
        PollerEvent::Tick,
        PollerEvent::Polled(None),
    ] {
        let (next, action) = step::<u64>(state, event, &SETTINGS);
        assert_eq!(action, PollerAction::Nothing);
        state = next;
    }
    assert_eq!(state, PollerState::Closed { failed: true });
}

#[test]
fn a_polled_message_is_forwarded_unchanged() {
    assert_eq!(
        step(PollerState::Polling, PollerEvent::Polled(Some(delivery(4))), &SETTINGS),
        (PollerState::Forwarding, PollerAction::Forward(delivery(4)))
    );
    assert_eq!(
        step::<u64>(PollerState::Forwarding, PollerEvent::Forwarded, &SETTINGS),
        (PollerState::Waiting, PollerAction::Wait { seconds: 1 })
    );
}

#[test]
fn an_empty_or_failed_poll_waits_for_the_next_tick() {
    assert_eq!(
        step::<u64>(PollerState::Polling, PollerEvent::Polled(None), &SETTINGS),
        (PollerState::Waiting, PollerAction::Wait { seconds: 1 })
    );
    assert_eq!(
        step::<u64>(PollerState::Polling, PollerEvent::PollFailed, &SETTINGS),
        (PollerState::Waiting, PollerAction::Wait { seconds: 1 })
    );
    assert_eq!(
        step::<u64>(PollerState::Waiting, PollerEvent::Tick, &SETTINGS),
        (PollerState::Polling, PollerAction::Poll { visibility_timeout: 300 })
    );
}

#[test]
fn the_settings_decide_timeout_and_tick() {
    let settings = PollerSettings { visibility_timeout: 42, tick: 7 };
    assert_eq!(
        step::<u64>(PollerState::Waiting, PollerEvent::Tick, &settings),
        (PollerState::Polling, PollerAction::Poll { visibility_timeout: 42 })
    );
    assert_eq!(
        step::<u64>(PollerState::Polling, PollerEvent::Polled(None), &settings),
        (PollerState::Waiting, PollerAction::Wait { seconds: 7 })
    );
}

#[test]
fn cancellation_closes_the_channel_from_every_state() {
    for state in [
        PollerState::Preparing,
        PollerState::Starting,
        PollerState::Polling,
        PollerState::Forwarding,
        PollerState::Waiting,
    ] {
        assert_eq!(
            step::<u64>(state, PollerEvent::Cancelled, &SETTINGS),
            (PollerState::Closed { failed: false }, PollerAction::Close { failure: None })
        );
    }
}

#[test]
fn a_channel_without_receivers_ends_the_poller() {
    assert_eq!(
        step::<u64>(PollerState::Forwarding, PollerEvent::ChannelClosed, &SETTINGS),
        (
            PollerState::Closed { failed: true },
            PollerAction::Close { failure: Some(PollerFailure::ChannelClosed) }
        )
    );
}

#[test]
fn no_poll_after_cancellation() {
    let (mut state, _) = step::<u64>(PollerState::Waiting, PollerEvent::Cancelled, &SETTINGS);
    let events = vec![
        PollerEvent::Tick,
        PollerEvent::QueueCreated,
        PollerEvent::Polled(Some(delivery(1))),
        PollerEvent::Polled(None),
        PollerEvent::PollFailed,
        PollerEvent::Forwarded,
        PollerEvent::Cancelled,
        PollerEvent::Tick,
    ];
    for event in events {
        let (next, action) = step(state, event, &SETTINGS);
        assert_eq!(action, PollerAction::Nothing);
        assert_eq!(next, PollerState::Closed { failed: false });
        state = next;
    }
}

#[test]
fn events_out_of_turn_leave_the_poller_alone() {
    assert_eq!(
        step::<u64>(PollerState::Polling, PollerEvent::Tick, &SETTINGS),
        (PollerState::Polling, PollerAction::Nothing)
    );
    assert_eq!(
        step(PollerState::Waiting, PollerEvent::Polled(Some(delivery(1))), &SETTINGS),
        (PollerState::Waiting, PollerAction::Nothing)
    );
    assert_eq!(
        step::<u64>(PollerState::Preparing, PollerEvent::Forwarded, &SETTINGS),
        (PollerState::Preparing, PollerAction::Nothing)
    );
}
