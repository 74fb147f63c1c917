use drive_ocr::shutdown::{Coordinator, ShutdownAction, ShutdownEvent};

#[test]
fn the_interrupt_is_passed_on_once() {
    let (coordinator, _) = Coordinator::new(2).step(ShutdownEvent::WorkersStarted);
    let (coordinator, action) = coordinator.step(ShutdownEvent::Interrupted);
    assert_eq!(action, ShutdownAction::Cancel);
    assert!(coordinator.cancel_sent);
    let (coordinator, action) = coordinator.step(ShutdownEvent::Interrupted);
    assert_eq!(action, ShutdownAction::Nothing);
    assert!(!coordinator.is_finished());
}

#[test]
fn the_shutdown_waits_for_the_poller_and_every_worker() {
    let (coordinator, action) = Coordinator::new(2).step(ShutdownEvent::WorkersStarted);
    assert_eq!(action, ShutdownAction::Wait);
    let (coordinator, _) = coordinator.step(ShutdownEvent::Interrupted);
    let (coordinator, action) = coordinator.step(ShutdownEvent::PollerExited { failed: false });
    assert_eq!(action, ShutdownAction::Wait);
    let (coordinator, action) = coordinator.step(ShutdownEvent::WorkerExited { failed: false });
    assert_eq!(action, ShutdownAction::Wait);
    assert_eq!(coordinator.workers_left, 1);
    let (coordinator, action) = coordinator.step(ShutdownEvent::WorkerExited { failed: false });
    assert_eq!(action, ShutdownAction::Finish { failed: false });
    assert!(coordinator.is_finished());
    let (_, action) = coordinator.step(ShutdownEvent::WorkerExited { failed: true });
    assert_eq!(action, ShutdownAction::Nothing);
}

#[test]
fn a_failed_worker_does_not_cut_the_wait_short() {
    let (coordinator, _) = Coordinator::new(3).step(ShutdownEvent::WorkersStarted);
    let (coordinator, action) = coordinator.step(ShutdownEvent::WorkerExited { failed: true });
    assert_eq!(action, ShutdownAction::Wait);
    let (coordinator, action) = coordinator.step(ShutdownEvent::Interrupted);
    assert_eq!(action, ShutdownAction::Cancel);
    let (coordinator, action) = coordinator.step(ShutdownEvent::WorkerExited { failed: false });
    assert_eq!(action, ShutdownAction::Wait);
    let (coordinator, action) = coordinator.step(ShutdownEvent::PollerExited { failed: false });
    assert_eq!(action, ShutdownAction::Wait);
    let (coordinator, action) = coordinator.step(ShutdownEvent::WorkerExited { failed: false });
    assert_eq!(action, ShutdownAction::Finish { failed: true });
    assert!(coordinator.failed);
}

#[test]
fn a_poller_that_fails_by_itself_is_reported_at_the_end() {
    let (coordinator, _) = Coordinator::new(1).step(ShutdownEvent::WorkersStarted);
    let (coordinator, action) = coordinator.step(ShutdownEvent::PollerExited { failed: true });
    assert_eq!(action, ShutdownAction::Wait);
    let (coordinator, action) = coordinator.step(ShutdownEvent::Interrupted);
    assert_eq!(action, ShutdownAction::Nothing);
    let (_, action) = coordinator.step(ShutdownEvent::WorkerExited { failed: false });
    assert_eq!(action, ShutdownAction::Finish { failed: true });
}

#[test]
fn a_pool_without_workers_finishes_with_the_poller() {
    let (coordinator, _) = Coordinator::new(0).step(ShutdownEvent::WorkersStarted);
    assert!(!coordinator.is_finished());
    let (coordinator, action) = coordinator.step(ShutdownEvent::WorkerExited { failed: true });
    assert_eq!(action, ShutdownAction::Nothing);
    let (_, action) = coordinator.step(ShutdownEvent::PollerExited { failed: false });
    assert_eq!(action, ShutdownAction::Finish { failed: false });
}

#[test]
fn a_poller_that_ends_before_the_workers_start_leaves_nobody_to_wait_for() {
    let coordinator = Coordinator::new(2);
    let (coordinator, action) = coordinator.step(ShutdownEvent::WorkerExited { failed: true });
    assert_eq!(action, ShutdownAction::Nothing);
    assert_eq!(coordinator, Coordinator::new(2));
    let (coordinator, action) = coordinator.step(ShutdownEvent::PollerExited { failed: true });
    assert_eq!(action, ShutdownAction::Finish { failed: true });
    assert!(coordinator.is_finished());
    assert_eq!(coordinator.workers_left, 0);
    let (_, action) = coordinator.step(ShutdownEvent::WorkersStarted);
    assert_eq!(action, ShutdownAction::Nothing);
}

#[test]
fn the_workers_are_started_once() {
    let (coordinator, action) = Coordinator::new(2).step(ShutdownEvent::WorkersStarted);
    assert_eq!(action, ShutdownAction::Wait);
    assert!(coordinator.workers_started);
    let (after, action) = coordinator.step(ShutdownEvent::WorkersStarted);
    assert_eq!(action, ShutdownAction::Nothing);
    assert_eq!(after, coordinator);
}
