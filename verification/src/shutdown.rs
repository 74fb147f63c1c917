//! The decisions of the shutdown coordinator.
//!
//! The coordinator passes the one cancellation signal of the process on to
//! the poller, and to nobody else: the workers learn of the shutdown when the
//! channel is closed and drained. It then waits for the poller and for every
//! worker to return. Where the poller returns before it had the workers
//! started, there is no worker to wait for. A failure of one of them is kept until all have
//! returned and is reported then; it never cuts the wait short.

use vstd::prelude::*;

verus! {

/// What the coordinator knows.
#[derive(Debug, Clone, Copy, PartialEq, Eq, Structural)]
pub struct Coordinator {
    /// Whether the poller has been told to stop.
    pub cancel_sent: bool,
    /// Whether the poller has returned.
    pub poller_exited: bool,
    /// Whether the workers have been started.
    pub workers_started: bool,
    /// The number of workers that have not returned yet, or will never be
    /// started.
    pub workers_left: usize,
    /// Whether the poller or a worker has returned with a failure.
    pub failed: bool,
}

/// What the coordinator is told.
#[derive(Debug, Clone, Copy, PartialEq, Eq, Structural)]
pub enum ShutdownEvent {
    /// The process received its interrupt signal.
    Interrupted,
    /// The workers were started.
    WorkersStarted,
    /// The poller returned.
    PollerExited { failed: bool },
    /// A worker returned.
    WorkerExited { failed: bool },
}

/// What the coordinator does next.
#[derive(Debug, Clone, Copy, PartialEq, Eq, Structural)]
pub enum ShutdownAction {
    /// Tell the poller to stop.
    Cancel,
    /// Keep waiting for the poller and the workers.
    Wait,
    /// Everybody has returned: report whether anybody failed.
    Finish { failed: bool },
    /// The event changes nothing.
    Nothing,
}

impl Coordinator {
    /// Whether the poller and every worker have returned.
    pub open spec fn finished(self) -> bool {
        self.poller_exited && self.workers_left == 0
    }

    /// The transition function of the coordinator.
    pub open spec fn step_spec(self, event: ShutdownEvent) -> (Coordinator, ShutdownAction) {
        if self.finished() {
            (self, ShutdownAction::Nothing)
        } else {
            match event {
                ShutdownEvent::Interrupted => if self.cancel_sent || self.poller_exited {
                    (self, ShutdownAction::Nothing)
                } else {
                    (Coordinator { cancel_sent: true, ..self }, ShutdownAction::Cancel)
                },
                ShutdownEvent::WorkersStarted => if self.workers_started || self.poller_exited {
                    (self, ShutdownAction::Nothing)
                } else {
                    (Coordinator { workers_started: true, ..self }, ShutdownAction::Wait)
                },
                ShutdownEvent::PollerExited { failed } => if self.poller_exited {
                    (self, ShutdownAction::Nothing)
                } else {
                    let next = Coordinator {
                        poller_exited: true,
                        workers_left: if self.workers_started {
                            self.workers_left
                        } else {
                            0
                        },
                        failed: self.failed || failed,
                        ..self
                    };
                    (next, next.verdict())
                },
                ShutdownEvent::WorkerExited { failed } => if !self.workers_started
                    || self.workers_left == 0 {
                    (self, ShutdownAction::Nothing)
                } else {
                    let next = Coordinator {
                        workers_left: (self.workers_left - 1) as usize,
                        failed: self.failed || failed,
                        ..self
                    };
                    (next, next.verdict())
                },
            }
        }
    }

    /// To finish once everybody has returned, to wait until then.
    pub open spec fn verdict(self) -> ShutdownAction {
        if self.finished() {
            ShutdownAction::Finish { failed: self.failed }
        } else {
            ShutdownAction::Wait
        }
    }

    /// A coordinator for a running poller that will have `workers` workers
    /// started.
    pub fn new(workers: usize) -> (coordinator: Coordinator)
        ensures
            coordinator == (Coordinator {
                cancel_sent: false,
                poller_exited: false,
                workers_started: false,
                workers_left: workers,
                failed: false,
            }),
    {
        Coordinator {
            cancel_sent: false,
            poller_exited: false,
            workers_started: false,
            workers_left: workers,
            failed: false,
        }
    }

    /// Whether the poller and every worker have returned.
    pub fn is_finished(&self) -> (finished: bool)
        ensures
            finished == self.finished(),
    {
        self.poller_exited && self.workers_left == 0
    }

    /// Decides what the coordinator does when `event` happens.
    ///
    /// - The first interrupt while the poller runs is passed on to the
    ///   poller; a later one changes nothing.
    /// - A poller that returns before the workers were started leaves no
    ///   worker to wait for.
    /// - Each return of the poller or of a worker is counted and its
    ///   failure remembered. The coordinator finishes with the return that
    ///   leaves nobody running, and reports a failure if any return
    ///   brought one.
    /// - After that it ignores every event.
    pub fn step(self, event: ShutdownEvent) -> (next: (Coordinator, ShutdownAction))
        ensures
            next == self.step_spec(event),
    {
        if self.is_finished() {
            return (self, ShutdownAction::Nothing);
        }
        match event {
            ShutdownEvent::Interrupted => {
                if self.cancel_sent || self.poller_exited {
                    (self, ShutdownAction::Nothing)
                } else {
                    (
                        Coordinator {
                            cancel_sent: true,
                            poller_exited: self.poller_exited,
                            workers_started: self.workers_started,
                            workers_left: self.workers_left,
                            failed: self.failed,
                        },
                        ShutdownAction::Cancel,
                    )
                }
            },
            ShutdownEvent::WorkersStarted => {
                if self.workers_started || self.poller_exited {
                    (self, ShutdownAction::Nothing)
                } else {
                    (
                        Coordinator {
                            cancel_sent: self.cancel_sent,
                            poller_exited: self.poller_exited,
                            workers_started: true,
                            workers_left: self.workers_left,
                            failed: self.failed,
                        },
                        ShutdownAction::Wait,
                    )
                }
            },
            ShutdownEvent::PollerExited { failed } => {
                if self.poller_exited {
                    (self, ShutdownAction::Nothing)
                } else {
                    let next = Coordinator {
                        cancel_sent: self.cancel_sent,
                        poller_exited: true,
                        workers_started: self.workers_started,
                        workers_left: if self.workers_started {
                            self.workers_left
                        } else {
                            0
                        },
                        failed: self.failed || failed,
                    };
                    (next, next.decide())
                }
            },
            ShutdownEvent::WorkerExited { failed } => {
                if !self.workers_started || self.workers_left == 0 {
                    (self, ShutdownAction::Nothing)
                } else {
                    let next = Coordinator {
                        cancel_sent: self.cancel_sent,
                        poller_exited: self.poller_exited,
                        workers_started: self.workers_started,
                        workers_left: self.workers_left - 1,
                        failed: self.failed || failed,
                    };
                    (next, next.decide())
                }
            },
        }
    }

    /// To finish once everybody has returned, to wait until then.
    fn decide(&self) -> (action: ShutdownAction)
        ensures
            action == self.verdict(),
    {
        if self.is_finished() {
            ShutdownAction::Finish { failed: self.failed }
        } else {
            ShutdownAction::Wait
        }
    }
}

/// The coordinator that started as `state` and saw `events` in order.
pub open spec fn state_after(state: Coordinator, events: Seq<ShutdownEvent>) -> Coordinator
    decreases events.len(),
{
    if events.len() == 0 {
        state
    } else {
        state_after(state.step_spec(events[0]).0, events.skip(1))
    }
}

/// The actions, in order, of a coordinator that started as `state` and saw
/// `events`: one action for each event.
pub open spec fn actions_of(state: Coordinator, events: Seq<ShutdownEvent>) -> Seq<ShutdownAction>
    decreases events.len(),
{
    if events.len() == 0 {
        Seq::empty()
    } else {
        let (next, action) = state.step_spec(events[0]);
        seq![action] + actions_of(next, events.skip(1))
    }
}

/// The number of actions in `actions` that tell the poller to stop.
pub open spec fn cancellations(actions: Seq<ShutdownAction>) -> nat
    decreases actions.len(),
{
    if actions.len() == 0 {
        0
    } else {
        (if actions[0] is Cancel {
            1nat
        } else {
            0nat
        }) + cancellations(actions.skip(1))
    }
}

/// The number of actions in `actions` that finish the shutdown.
pub open spec fn finishes(actions: Seq<ShutdownAction>) -> nat
    decreases actions.len(),
{
    if actions.len() == 0 {
        0
    } else {
        (if actions[0] is Finish {
            1nat
        } else {
            0nat
        }) + finishes(actions.skip(1))
    }
}

/// The number of worker returns among `events`.
pub open spec fn worker_exits(events: Seq<ShutdownEvent>) -> nat
    decreases events.len(),
{
    if events.len() == 0 {
        0
    } else {
        (if events[0] is WorkerExited {
            1nat
        } else {
            0nat
        }) + worker_exits(events.skip(1))
    }
}

/// The number of poller returns among `events`.
pub open spec fn poller_exits(events: Seq<ShutdownEvent>) -> nat
    decreases events.len(),
{
    if events.len() == 0 {
        0
    } else {
        (if events[0] is PollerExited {
            1nat
        } else {
            0nat
        }) + poller_exits(events.skip(1))
    }
}

/// Whether one of the returns among `events` brought a failure.
pub open spec fn any_failure(events: Seq<ShutdownEvent>) -> bool
    decreases events.len(),
{
    if events.len() == 0 {
        false
    } else {
        (match events[0] {
            ShutdownEvent::Interrupted => false,
            ShutdownEvent::WorkersStarted => false,
            ShutdownEvent::PollerExited { failed } => failed,
            ShutdownEvent::WorkerExited { failed } => failed,
        }) || any_failure(events.skip(1))
    }
}

/// The poller is told to stop at most once, and the shutdown finishes at
/// most once, whatever happens.
pub proof fn lemma_one_signal_one_finish(state: Coordinator, events: Seq<ShutdownEvent>)
    ensures
        cancellations(actions_of(state, events)) + (if state.cancel_sent || state.poller_exited
            || state.finished() {
            1nat
        } else {
            0nat
        }) <= 1,
        finishes(actions_of(state, events)) + (if state.finished() {
            1nat
        } else {
            0nat
        }) <= 1,
        finishes(actions_of(state, events)) == 1 ==> state_after(state, events).finished(),
    decreases events.len(),
{
    if events.len() > 0 {
        let (next, action) = state.step_spec(events[0]);
        let rest = actions_of(next, events.skip(1));
        lemma_one_signal_one_finish(next, events.skip(1));
        assert((seq![action] + rest).skip(1) =~= rest);
        assert((seq![action] + rest)[0] == action);
        if next.finished() {
            lemma_finished_is_final(next, events.skip(1));
        }
    }
}

/// The shutdown finishes only when everybody has returned: a coordinator
/// that is finished has seen the poller return and, where the workers were
/// started, as many workers return as were left. It reports a failure only
/// if one of the returns that it saw brought one. A failure alone never
/// finishes the shutdown.
pub proof fn lemma_finish_waits_for_everybody(state: Coordinator, events: Seq<ShutdownEvent>)
    requires
        !state.finished(),
        state_after(state, events).finished(),
    ensures
        state.poller_exited || poller_exits(events) >= 1,
        state.workers_started ==> worker_exits(events) >= state.workers_left,
        state_after(state, events).failed ==> state.failed || any_failure(events),
        finishes(actions_of(state, events)) == 1,
    decreases events.len(),
{
    if events.len() > 0 {
        let (next, action) = state.step_spec(events[0]);
        let rest = actions_of(next, events.skip(1));
        assert((seq![action] + rest).skip(1) =~= rest);
        assert((seq![action] + rest)[0] == action);
        if next.finished() {
            lemma_finished_is_final(next, events.skip(1));
            lemma_one_signal_one_finish(next, events.skip(1));
        } else {
            lemma_finish_waits_for_everybody(next, events.skip(1));
        }
    }
}

/// Without a queue there is no worker to wait for: when the poller returns
/// before the workers were started, the shutdown finishes with that return
/// and reports the poller's failure.
pub proof fn lemma_no_worker_without_a_queue(state: Coordinator, failed: bool)
    requires
        !state.poller_exited,
        !state.workers_started,
    ensures
        state.step_spec(ShutdownEvent::PollerExited { failed }).1 == (ShutdownAction::Finish {
            failed: state.failed || failed,
        }),
        state.step_spec(ShutdownEvent::PollerExited { failed }).0.finished(),
        state.step_spec(ShutdownEvent::WorkerExited { failed }).0 == state,
{
}

/// Every failure is surfaced: when the shutdown has finished, a failure
/// that the poller or a worker returned before is part of the report.
pub proof fn lemma_failures_are_kept(state: Coordinator, events: Seq<ShutdownEvent>)
    requires
        state.failed,
    ensures
        state_after(state, events).failed,
    decreases events.len(),
{
    if events.len() > 0 {
        lemma_failures_are_kept(state.step_spec(events[0]).0, events.skip(1));
    }
}

/// A finished coordinator stays as it is.
pub proof fn lemma_finished_is_final(state: Coordinator, events: Seq<ShutdownEvent>)
    requires
        state.finished(),
    ensures
        state_after(state, events) == state,
    decreases events.len(),
{
    if events.len() > 0 {
        lemma_finished_is_final(state, events.skip(1));
    }
}

} // verus!
