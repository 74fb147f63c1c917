use drive_ocr::message::{Claim, Payload};
use drive_ocr::queue::{Delivery, Message};
use drive_ocr::trace_context::{inject, SpanContext};
use drive_ocr::worker::{start, step, WorkerAction, WorkerEvent, WorkerState};

fn message(id: u128, properties: Vec<(String, String)>) -> Message {
    Message {
        id,
        properties,
        payload: Payload::new(
            "scan.pdf".to_string(),
            "/inbox/scan.pdf".to_string(),
            "https://example.com/scan.pdf".to_string(),
        ),
        claim: Claim { token_id: 9 },
    }
}

#[test]
fn a_fresh_worker_waits_for_a_delivery() {
    assert_eq!(start::<String>(), (WorkerState::Idle, WorkerAction::Receive));
}

#[test]
fn a_delivery_goes_to_the_handler_with_its_trace_parent() {
    let context = SpanContext {
        trace_id: 0xabc,
        span_id: 0x123,
        sampled: true,
        trace_state: "vendor=value".to_string(),
    };
    let sent = message(1, inject(&context));
    let (state, action) = step(
        WorkerState::Idle,
        WorkerEvent::Received(Delivery { receipt: "r1".to_string(), message: sent.clone() }),
        10,
    );
    assert_eq!(state, WorkerState::Busy { receipt: "r1".to_string() });
    assert_eq!(action, WorkerAction::Handle { message: sent, parent: Some(context) });
}

#[test]
fn a_delivery_without_trace_context_has_no_parent() {
    let sent = message(2, Vec::new());
    let (_, action) = step(
        WorkerState::Idle,
        WorkerEvent::Received(Delivery { receipt: 5u64, message: sent.clone() }),
        10,
    );
    assert_eq!(action, WorkerAction::Handle { message: sent, parent: None });
}

#[test]
fn success_deletes_and_failure_extends() {
    let busy = WorkerState::Busy { receipt: 7u64 };
    assert_eq!(
        step(busy, WorkerEvent::HandlerSucceeded, 10),
        (WorkerState::Acknowledging, WorkerAction::Delete { receipt: 7 })
    );
    let busy = WorkerState::Busy { receipt: 7u64 };
    assert_eq!(
        step(busy, WorkerEvent::HandlerFailed, 10),
        (WorkerState::Acknowledging, WorkerAction::Extend { receipt: 7, seconds: 10 })
    );
    let busy = WorkerState::Busy { receipt: 7u64 };
    assert_eq!(
        step(busy, WorkerEvent::HandlerFailed, 45),
        (WorkerState::Acknowledging, WorkerAction::Extend { receipt: 7, seconds: 45 })
    );
}

#[test]
fn a_failed_acknowledgement_is_not_fatal() {
    assert_eq!(
        step(WorkerState::<u64>::Acknowledging, WorkerEvent::AcknowledgeFailed, 10),
        (WorkerState::Idle, WorkerAction::Receive)
    );
    assert_eq!(
        step(WorkerState::<u64>::Acknowledging, WorkerEvent::Acknowledged, 10),
        (WorkerState::Idle, WorkerAction::Receive)
    );
}

#[test]
fn the_worker_exits_when_the_channel_is_closed() {
    assert_eq!(
        step(WorkerState::<u64>::Idle, WorkerEvent::ChannelClosed, 10),
        (WorkerState::Exited, WorkerAction::Exit)
    );
}

#[test]
fn an_unreadable_delivery_is_extended_and_the_worker_goes_on() {
    let (state, action) = step(WorkerState::Idle, WorkerEvent::Undecodable { receipt: 3u64 }, 10);
    assert_eq!(state, WorkerState::Acknowledging);
    assert_eq!(action, WorkerAction::Extend { receipt: 3, seconds: 10 });
    let (state, action) = step(state, WorkerEvent::Acknowledged, 10);
    assert_eq!((state, action), (WorkerState::Idle, WorkerAction::Receive));

    // The same when the store does not confirm, and with another delay.
    let (state, action) = step(WorkerState::Idle, WorkerEvent::Undecodable { receipt: 4u64 }, 25);
    assert_eq!(action, WorkerAction::Extend { receipt: 4, seconds: 25 });
    let (state, action) = step(state, WorkerEvent::AcknowledgeFailed, 25);
    assert_eq!((state, action), (WorkerState::Idle, WorkerAction::Receive));
}

#[test]
fn a_poison_message_never_ends_a_worker() {
    let mut state = WorkerState::Idle;
    for _ in 0..50 {
        let (next, action) = step(state, WorkerEvent::Undecodable { receipt: 9u64 }, 10);
        assert_eq!(action, WorkerAction::Extend { receipt: 9, seconds: 10 });
        let (next, action) = step(next, WorkerEvent::Acknowledged, 10);
        assert_eq!(action, WorkerAction::Receive);
        state = next;
    }
    let sent = message(5, Vec::new());
    let (state, action) =
        step(state, WorkerEvent::Received(Delivery { receipt: 10, message: sent.clone() }), 10);
    assert_eq!(state, WorkerState::Busy { receipt: 10 });
    assert_eq!(action, WorkerAction::Handle { message: sent, parent: None });
}

#[test]
fn an_unreadable_delivery_out_of_turn_changes_nothing() {
    assert_eq!(
        step(WorkerState::Busy { receipt: 1u64 }, WorkerEvent::Undecodable { receipt: 2 }, 10),
        (WorkerState::Busy { receipt: 1 }, WorkerAction::Nothing)
    );
    assert_eq!(
        step(WorkerState::Exited, WorkerEvent::Undecodable { receipt: 2u64 }, 10),
        (WorkerState::Exited, WorkerAction::Nothing)
    );
}

#[test]
fn events_out_of_turn_leave_the_worker_alone() {
    assert_eq!(
        step(WorkerState::<u64>::Idle, WorkerEvent::HandlerFailed, 10),
        (WorkerState::Idle, WorkerAction::Nothing)
    );
    assert_eq!(
        step(WorkerState::Busy { receipt: 1u64 }, WorkerEvent::ChannelClosed, 10),
        (WorkerState::Busy { receipt: 1 }, WorkerAction::Nothing)
    );
    assert_eq!(
        step(
            WorkerState::Busy { receipt: 1u64 },
            WorkerEvent::Received(Delivery { receipt: 2, message: message(1, Vec::new()) }),
            10
        ),
        (WorkerState::Busy { receipt: 1 }, WorkerAction::Nothing)
    );
    assert_eq!(
        step(WorkerState::<u64>::Exited, WorkerEvent::Acknowledged, 10),
        (WorkerState::Exited, WorkerAction::Nothing)
    );
}

#[test]
fn k_failures_give_k_extensions_and_no_cap() {
    let k = 25;
    let mut state = WorkerState::Idle;
    let mut extensions = 0;
    let mut deletions = 0;
    for round in 0..=k {
        let (next, action) = step(
            state,
            WorkerEvent::Received(Delivery { receipt: 11u64, message: message(4, Vec::new()) }),
            10,
        );
        assert!(matches!(action, WorkerAction::Handle { .. }));
        let outcome =
            if round < k { WorkerEvent::HandlerFailed } else { WorkerEvent::HandlerSucceeded };
        let (next, action) = step(next, outcome, 10);
        match action {
            WorkerAction::Extend { receipt: 11, seconds: 10 } => extensions += 1,
            WorkerAction::Delete { receipt: 11 } => deletions += 1,
            other => panic!("unexpected action {:?}", other),
        }
        let (next, action) = step(next, WorkerEvent::Acknowledged, 10);
        assert_eq!(action, WorkerAction::Receive);
        state = next;
    }
    assert_eq!(extensions, k);
    assert_eq!(deletions, 1);
    assert_eq!(state, WorkerState::Idle);
}
