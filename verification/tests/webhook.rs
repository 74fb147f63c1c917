use drive_ocr::errors::Error;
use drive_ocr::identifier::identifier_text;
use drive_ocr::memory_queue::MemoryQueue;
use drive_ocr::message::{Claim, Payload};
use drive_ocr::producer::{new_message, send};
use drive_ocr::queue::Queue;
use drive_ocr::trace_context::{extract, SpanContext};
use drive_ocr::webhook::{answer, handle_error, queued, run_ocr, Failure, Queued, BODY_LIMIT};

fn payload() -> Payload {
    Payload::new(
        "scan.pdf".to_string(),
        "/Scans/Inbox/scan.pdf".to_string(),
        "https://example.com/scan.pdf".to_string(),
    )
}

const CONTEXT: SpanContext = SpanContext {
    trace_id: 0x0af7651916cd43dd8448eb211c80319c,
    span_id: 0xb7ad6b7169203331,
    sampled: true,
    trace_state: String::new(),
};

#[test]
fn a_sent_job_is_in_the_store_with_its_trace_context() {
    let mut queue = MemoryQueue::new();
    let id = send(&mut queue, payload(), Claim { token_id: 3 }, &CONTEXT).unwrap();
    assert_eq!(queue.len(), 1);
    let delivery = queue.poll(300).unwrap().unwrap();
    assert_eq!(delivery.message.id, id);
    assert_eq!(delivery.message.payload, payload());
    assert_eq!(delivery.message.claim, Claim { token_id: 3 });
    assert_eq!(
        delivery.message.properties,
        vec![
            (
                "traceparent".to_string(),
                "00-0af7651916cd43dd8448eb211c80319c-b7ad6b7169203331-01".to_string()
            ),
            ("tracestate".to_string(), String::new()),
        ]
    );
    assert_eq!(extract(&delivery.message.properties), Some(CONTEXT));
}

#[test]
fn message_ids_are_fresh_and_ordered_by_creation() {
    let first = new_message(payload(), Claim { token_id: 3 }, &CONTEXT);
    let second = new_message(payload(), Claim { token_id: 3 }, &CONTEXT);
    assert!(first.id < second.id);
    // A version 7 identifier of the RFC 4122 variant.
    assert_eq!((first.id >> 76) & 0xf, 7);
    assert_eq!((first.id >> 62) & 0x3, 2);
}

#[test]
fn a_store_that_cannot_be_reached_fails_the_request_and_keeps_nothing() {
    let mut queue = MemoryQueue::new();
    queue.set_online(false);
    assert_eq!(
        send(&mut queue, payload(), Claim { token_id: 3 }, &CONTEXT),
        Err(Error::Queue("queue unavailable".to_string()))
    );
    assert_eq!(
        run_ocr(Claim { token_id: 3 }, payload(), &mut queue, &CONTEXT),
        Err(Error::Queue("queue unavailable".to_string()))
    );
    queue.set_online(true);
    assert_eq!(queue.len(), 0);
}

#[test]
fn the_webhook_answers_with_the_id_of_the_message() {
    let mut queue = MemoryQueue::new();
    let reply = run_ocr(Claim { token_id: 3 }, payload(), &mut queue, &CONTEXT).unwrap();
    assert_eq!(reply.status, "queued");
    let delivery = queue.poll(300).unwrap().unwrap();
    assert_eq!(reply.id, identifier_text(delivery.message.id));
    assert_eq!(queue.len(), 1);
}

#[test]
fn the_reply_spells_the_id_with_hyphens() {
    assert_eq!(
        queued(0x0189f7e05f3a7c1e8a2b0123456789ab),
        Queued { status: "queued".to_string(), id: "0189f7e0-5f3a-7c1e-8a2b-0123456789ab".to_string() }
    );
    assert_eq!(identifier_text(0), "00000000-0000-0000-0000-000000000000");
    assert_eq!(identifier_text(u128::MAX), "ffffffff-ffff-ffff-ffff-ffffffffffff");
    assert_eq!(identifier_text(0xABCDEF), "00000000-0000-0000-0000-000000abcdef");
}

#[test]
fn every_failure_is_an_internal_server_error() {
    assert_eq!(handle_error(), Failure { code: 500, message: "Internal Server Error".to_string() });
}

#[test]
fn bodies_are_limited_to_four_kilobytes() {
    assert_eq!(BODY_LIMIT, 1024 * 4);
}

#[test]
fn errors_describe_their_kind_and_keep_their_cause() {
    assert_eq!(Error::AccessDenied.message(), "access denied");
    assert_eq!(Error::Orc("x".to_string()).message(), "failed to process the input file");
    assert_eq!(Error::Cleanup("x".to_string()).message(), "failed to cleanup");
    assert_eq!(Error::Upload("x".to_string()).message(), "failed to upload");
    assert_eq!(Error::Queue("x".to_string()).message(), "failed to save into the queue");
    assert_eq!(Error::AccessDenied.cause(), None);
    assert_eq!(Error::Orc("a".to_string()).cause(), Some("a".to_string()));
    assert_eq!(Error::Cleanup("b".to_string()).cause(), Some("b".to_string()));
    assert_eq!(Error::Upload("c".to_string()).cause(), Some("c".to_string()));
    assert_eq!(Error::Queue("d".to_string()).cause(), Some("d".to_string()));
}

#[test]
fn the_answer_follows_the_store() {
    assert_eq!(
        answer(0x0189f7e05f3a7c1e8a2b0123456789ab, Ok(())),
        Ok(Queued {
            status: "queued".to_string(),
            id: "0189f7e0-5f3a-7c1e-8a2b-0123456789ab".to_string()
        })
    );
    assert_eq!(
        answer(7, Err("connection refused".to_string())),
        Err(Error::Queue("connection refused".to_string()))
    );
}

#[test]
fn five_jobs_in_a_row_are_five_messages() {
    let mut queue = MemoryQueue::new();
    let mut ids = Vec::new();
    for _ in 0..5 {
        ids.push(send(&mut queue, payload(), Claim { token_id: 3 }, &CONTEXT).unwrap());
    }
    assert_eq!(queue.len(), 5);
    for id in ids {
        assert_eq!(queue.poll(300).unwrap().unwrap().message.id, id);
    }
}
