use drive_ocr::memory_queue::MemoryQueue;
use drive_ocr::message::{Claim, Payload};
use drive_ocr::queue::{Message, Queue, QueueUnavailable};

fn message(id: u128) -> Message {
    Message {
        id,
        properties: vec![("traceparent".to_string(), "x".to_string())],
        payload: Payload::new("a.pdf".to_string(), "/in/a.pdf".to_string(), "http://x/a".to_string()),
        claim: Claim { token_id: 500 + id },
    }
}

#[test]
fn a_new_store_is_empty() {
    let mut queue = MemoryQueue::new();
    assert_eq!(queue.len(), 0);
    assert_eq!(queue.now(), 0);
    assert_eq!(queue.poll(300), Ok(None));
}

#[test]
fn messages_come_out_as_they_went_in_oldest_first() {
    let mut queue = MemoryQueue::new();
    assert_eq!(queue.enqueue(message(1)), Ok(()));
    assert_eq!(queue.enqueue(message(2)), Ok(()));
    assert_eq!(queue.len(), 2);
    let first = queue.poll(300).unwrap().unwrap();
    let second = queue.poll(300).unwrap().unwrap();
    assert_eq!(first.message, message(1));
    assert_eq!(second.message, message(2));
    assert_ne!(first.receipt, second.receipt);
    assert_eq!(queue.poll(300), Ok(None));
    assert_eq!(queue.len(), 2);
}

#[test]
fn a_polled_message_is_hidden_for_the_visibility_timeout() {
    let mut queue = MemoryQueue::new();
    queue.enqueue(message(1)).unwrap();
    let first = queue.poll(300).unwrap().unwrap();
    assert_eq!(queue.poll(300), Ok(None));
    queue.advance(299);
    assert_eq!(queue.poll(300), Ok(None));
    queue.advance(1);
    assert_eq!(queue.now(), 300);
    let again = queue.poll(300).unwrap().unwrap();
    assert_eq!(again.receipt, first.receipt);
    assert_eq!(again.message, message(1));
}

#[test]
fn a_hidden_message_does_not_block_the_next_one() {
    let mut queue = MemoryQueue::new();
    queue.enqueue(message(1)).unwrap();
    let first = queue.poll(300).unwrap().unwrap();
    queue.advance(10);
    queue.enqueue(message(2)).unwrap();
    let second = queue.poll(300).unwrap().unwrap();
    assert_eq!(second.message.id, 2);
    queue.advance(290);
    let third = queue.poll(300).unwrap().unwrap();
    assert_eq!(third.receipt, first.receipt);
    assert_eq!(queue.poll(300), Ok(None));
    queue.advance(10);
    assert_eq!(queue.poll(300).unwrap().unwrap().receipt, second.receipt);
}

#[test]
fn delete_removes_for_good() {
    let mut queue = MemoryQueue::new();
    queue.enqueue(message(1)).unwrap();
    queue.enqueue(message(2)).unwrap();
    let first = queue.poll(300).unwrap().unwrap();
    assert_eq!(queue.delete(&first.receipt), Ok(true));
    assert_eq!(queue.len(), 1);
    assert_eq!(queue.delete(&first.receipt), Ok(false));
    queue.advance(1000);
    assert_eq!(queue.poll(300).unwrap().unwrap().message.id, 2);
    assert_eq!(queue.poll(300), Ok(None));
}

#[test]
fn extend_hides_from_now_on() {
    let mut queue = MemoryQueue::new();
    queue.enqueue(message(1)).unwrap();
    let first = queue.poll(300).unwrap().unwrap();
    queue.advance(20);
    assert_eq!(queue.extend_visibility(&first.receipt, 10), Ok(true));
    queue.advance(9);
    assert_eq!(queue.poll(300), Ok(None));
    queue.advance(1);
    assert_eq!(queue.poll(300).unwrap().unwrap().receipt, first.receipt);
    assert_eq!(queue.extend_visibility(&12345, 10), Ok(false));
    assert_eq!(queue.len(), 1);
}

#[test]
fn an_unreachable_store_fails_and_keeps_its_state() {
    let mut queue = MemoryQueue::new();
    queue.enqueue(message(1)).unwrap();
    queue.set_online(false);
    assert_eq!(queue.enqueue(message(2)), Err(QueueUnavailable));
    assert_eq!(queue.poll(300), Err(QueueUnavailable));
    assert_eq!(queue.delete(&0), Err(QueueUnavailable));
    assert_eq!(queue.extend_visibility(&0, 10), Err(QueueUnavailable));
    assert_eq!(queue.len(), 1);
    queue.set_online(true);
    assert_eq!(queue.poll(300).unwrap().unwrap().message, message(1));
}

#[test]
fn the_clock_stops_at_its_end() {
    let mut queue = MemoryQueue::new();
    queue.enqueue(message(1)).unwrap();
    queue.advance(u64::MAX - 5);
    let first = queue.poll(300).unwrap().unwrap();
    queue.advance(100);
    assert_eq!(queue.now(), u64::MAX);
    assert_eq!(queue.poll(300), Ok(None));
    assert_eq!(queue.delete(&first.receipt), Ok(true));
}
