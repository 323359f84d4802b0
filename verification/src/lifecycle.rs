//! The session lifecycle: a state machine that sequences spawning the
//! external process, optionally starting the callback server beside it,
//! observing the process exit, and shutting the server down only afterwards.
//!
//! The machine decides; a driver performs. Each step consumes one observed
//! event and yields the next state together with the actions the driver must
//! perform. The driver performs the outside work (spawn, bind, wait) and
//! hands the observed results back as events.

use vstd::prelude::*;
use crate::options::DPRunOptions;

verus! {

/// The final result of one session: success, or a failure with its cause.
#[derive(Clone, Copy, Debug)]
pub enum SessionOutcome {
    /// The external process ran and exited with code zero.
    Success,
    /// The session failed for the given reason.
    Failure(FailureKind),
}

/// The cause of a failed session.
#[derive(Clone, Copy, Debug)]
pub enum FailureKind {
    /// The external process could not be spawned.
    SpawnFailed,
    /// The callback server could not be started.
    ServerStartFailed,
    /// The process ran but exited with the given nonzero code, or with no
    /// observable code at all.
    AbnormalExit(Option<i32>),
}

/// An observation handed to the orchestrator by its driver.
#[derive(Clone, Copy, Debug)]
pub enum LifecycleEvent {
    /// The caller asked the session to start.
    StartRequested,
    /// The external process was spawned.
    SpawnSucceeded,
    /// The external process could not be spawned.
    SpawnFailed,
    /// The callback server is up and reachable.
    ServerStarted,
    /// The callback server could not be started.
    ServerStartFailed,
    /// The external process exited, with its exit code if one was observed.
    ProcessExited(Option<i32>),
    /// The callback server finished shutting down; `true` when it released
    /// its resources cleanly.
    ServerStopped(bool),
}

/// An action the driver must perform after a step.
#[derive(Clone, Copy, Debug, PartialEq, Eq, Structural)]
pub enum LifecycleAction {
    /// Spawn the external process per the launch plan.
    SpawnProcess,
    /// Bind and start the callback server.
    StartServer,
    /// Signal the callback server to stop. The signal is idempotent and
    /// non-blocking; the driver then awaits the server's completion.
    StopServer,
}

/// The orchestrator's state. `Terminated` is absorbing.
#[derive(Clone, Copy, Debug)]
pub enum LifecycleState {
    /// Nothing has happened yet. Records whether a callback server is
    /// expected to run beside the process.
    NotStarted {
        /// Whether the launch carries a callback handler, and so a server.
        server_expected: bool,
    },
    /// The spawn (and, when expected, the server start) are in flight.
    Starting {
        /// Whether a callback server start is awaited at all.
        server_expected: bool,
        /// The process spawn has already succeeded.
        spawned: bool,
        /// The server start has already succeeded.
        server_up: bool,
    },
    /// The process runs; when expected, the server runs and stays reachable
    /// for the entire process lifetime.
    Running {
        /// Whether a callback server runs beside the process.
        server_expected: bool,
    },
    /// The process has exited; the orchestrator awaits the server's
    /// shutdown before reporting.
    Stopping {
        /// The provisional result read off the process exit; authoritative
        /// for the final report.
        provisional: SessionOutcome,
    },
    /// The session is over; no further transitions.
    Terminated {
        /// The reported result of the session.
        outcome: SessionOutcome,
    },
}

/// The provisional result read off a process exit: code zero is success;
/// a nonzero or missing code is a failure carrying that observation.
pub open spec fn outcome_of_exit(code: Option<i32>) -> SessionOutcome {
    match code {
        Some(c) => if c == 0 {
            SessionOutcome::Success
        } else {
            SessionOutcome::Failure(FailureKind::AbnormalExit(Some(c)))
        },
        None => SessionOutcome::Failure(FailureKind::AbnormalExit(None)),
    }
}

/// One transition of the orchestrator: the next state and the actions the
/// driver must perform. An event a state does not await leaves the state
/// unchanged and demands nothing.
pub open spec fn spec_step(s: LifecycleState, e: LifecycleEvent) -> (LifecycleState, Seq<
    LifecycleAction,
>) {
    match s {
        LifecycleState::NotStarted { server_expected } => match e {
            LifecycleEvent::StartRequested => (
                LifecycleState::Starting { server_expected, spawned: false, server_up: false },
                if server_expected {
                    seq![LifecycleAction::SpawnProcess, LifecycleAction::StartServer]
                } else {
                    seq![LifecycleAction::SpawnProcess]
                },
            ),
            _ => (s, Seq::<LifecycleAction>::empty()),
        },
        LifecycleState::Starting { server_expected, spawned, server_up } => match e {
            LifecycleEvent::SpawnSucceeded => if !server_expected || server_up {
                (LifecycleState::Running { server_expected }, Seq::<LifecycleAction>::empty())
            } else {
                (
                    LifecycleState::Starting { server_expected, spawned: true, server_up },
                    Seq::<LifecycleAction>::empty(),
                )
            },
            LifecycleEvent::SpawnFailed => (
                LifecycleState::Terminated {
                    outcome: SessionOutcome::Failure(FailureKind::SpawnFailed),
                },
                Seq::<LifecycleAction>::empty(),
            ),
            LifecycleEvent::ServerStarted => if !server_expected {
                (s, Seq::<LifecycleAction>::empty())
            } else if spawned {
                (LifecycleState::Running { server_expected }, Seq::<LifecycleAction>::empty())
            } else {
                (
                    LifecycleState::Starting { server_expected, spawned, server_up: true },
                    Seq::<LifecycleAction>::empty(),
                )
            },
            LifecycleEvent::ServerStartFailed => if server_expected {
                (
                    LifecycleState::Terminated {
                        outcome: SessionOutcome::Failure(FailureKind::ServerStartFailed),
                    },
                    Seq::<LifecycleAction>::empty(),
                )
            } else {
                (s, Seq::<LifecycleAction>::empty())
            },
            _ => (s, Seq::<LifecycleAction>::empty()),
        },
        LifecycleState::Running { server_expected } => match e {
            LifecycleEvent::ProcessExited(code) => if server_expected {
                (
                    LifecycleState::Stopping { provisional: outcome_of_exit(code) },
                    seq![LifecycleAction::StopServer],
                )
            } else {
                (
                    LifecycleState::Terminated { outcome: outcome_of_exit(code) },
                    Seq::<LifecycleAction>::empty(),
                )
            },
            _ => (s, Seq::<LifecycleAction>::empty()),
        },
        LifecycleState::Stopping { provisional } => match e {
            LifecycleEvent::ServerStopped(_) => (
                LifecycleState::Terminated { outcome: provisional },
                Seq::<LifecycleAction>::empty(),
            ),
            _ => (s, Seq::<LifecycleAction>::empty()),
        },
        LifecycleState::Terminated { .. } => (s, Seq::<LifecycleAction>::empty()),
    }
}

impl LifecycleState {
    /// The initial state for one launch: a callback server is expected
    /// exactly when the options carry a callback handler.
    pub fn initial<H>(options: &DPRunOptions<H>) -> (r: LifecycleState)
        ensures
            r == (LifecycleState::NotStarted {
                server_expected: options.service_provider_handler is Some,
            }),
    {
        LifecycleState::NotStarted { server_expected: options.has_handler() }
    }

    /// Performs one transition, yielding the next state and the actions the
    /// driver must perform, exactly per the step relation.
    pub fn step(&self, event: &LifecycleEvent) -> (r: (LifecycleState, Vec<LifecycleAction>))
        ensures
            r.0 == spec_step(*self, *event).0,
            r.1@ == spec_step(*self, *event).1,
    {
        match self {
            LifecycleState::NotStarted { server_expected } => match event {
                LifecycleEvent::StartRequested => {
                    let mut actions: Vec<LifecycleAction> = Vec::new();
                    actions.push(LifecycleAction::SpawnProcess);
                    if *server_expected {
                        actions.push(LifecycleAction::StartServer);
                    }
                    proof {
                        assert(actions@ =~= spec_step(*self, *event).1);
                    }
                    (
                        LifecycleState::Starting {
                            server_expected: *server_expected,
                            spawned: false,
                            server_up: false,
                        },
                        actions,
                    )
                },
                _ => (*self, Vec::new()),
            },
            LifecycleState::Starting { server_expected, spawned, server_up } => match event {
                LifecycleEvent::SpawnSucceeded => if !*server_expected || *server_up {
                    (
                        LifecycleState::Running { server_expected: *server_expected },
                        Vec::new(),
                    )
                } else {
                    (
                        LifecycleState::Starting {
                            server_expected: *server_expected,
                            spawned: true,
                            server_up: *server_up,
                        },
                        Vec::new(),
                    )
                },
                LifecycleEvent::SpawnFailed => (
                    LifecycleState::Terminated {
                        outcome: SessionOutcome::Failure(FailureKind::SpawnFailed),
                    },
                    Vec::new(),
                ),
                LifecycleEvent::ServerStarted => if !*server_expected {
                    (*self, Vec::new())
                } else if *spawned {
                    (
                        LifecycleState::Running { server_expected: *server_expected },
                        Vec::new(),
                    )
                } else {
                    (
                        LifecycleState::Starting {
                            server_expected: *server_expected,
                            spawned: *spawned,
                            server_up: true,
                        },
                        Vec::new(),
                    )
                },
                LifecycleEvent::ServerStartFailed => if *server_expected {
                    (
                        LifecycleState::Terminated {
                            outcome: SessionOutcome::Failure(FailureKind::ServerStartFailed),
                        },
                        Vec::new(),
                    )
                } else {
                    (*self, Vec::new())
                },
                _ => (*self, Vec::new()),
            },
            LifecycleState::Running { server_expected } => match event {
                LifecycleEvent::ProcessExited(code) => {
                    let provisional = match code {
                        Some(c) => if *c == 0 {
                            SessionOutcome::Success
                        } else {
                            SessionOutcome::Failure(FailureKind::AbnormalExit(Some(*c)))
                        },
                        None => SessionOutcome::Failure(FailureKind::AbnormalExit(None)),
                    };
                    if *server_expected {
                        let mut actions: Vec<LifecycleAction> = Vec::new();
                        actions.push(LifecycleAction::StopServer);
                        proof {
                            assert(actions@ =~= spec_step(*self, *event).1);
                        }
                        (LifecycleState::Stopping { provisional }, actions)
                    } else {
                        (LifecycleState::Terminated { outcome: provisional }, Vec::new())
                    }
                },
                _ => (*self, Vec::new()),
            },
            LifecycleState::Stopping { provisional } => match event {
                LifecycleEvent::ServerStopped(_) => (
                    LifecycleState::Terminated { outcome: *provisional },
                    Vec::new(),
                ),
                _ => (*self, Vec::new()),
            },
            LifecycleState::Terminated { .. } => (*self, Vec::new()),
        }
    }
}

/// A well-formed trace of one session: `states` starts somewhere, and every
/// recorded step follows the step relation on the event at that position,
/// emitting exactly the recorded actions.
pub open spec fn wf_trace(
    states: Seq<LifecycleState>,
    events: Seq<LifecycleEvent>,
    actions: Seq<Seq<LifecycleAction>>,
) -> bool {
    &&& states.len() == events.len() + 1
    &&& actions.len() == events.len()
    &&& forall|i: int|
        0 <= i < events.len() ==> states[i + 1] == spec_step(states[i], #[trigger] events[i]).0
            && actions[i] == spec_step(states[i], events[i]).1
}

/// Law: lifecycle ordering. In any well-formed trace, the server stop signal
/// is issued only at a step whose observed event is the process exit: the
/// stop signal is never observed before the process-exit event.
pub proof fn lemma_stop_never_before_exit(
    states: Seq<LifecycleState>,
    events: Seq<LifecycleEvent>,
    actions: Seq<Seq<LifecycleAction>>,
    i: int,
    j: int,
)
    requires
        wf_trace(states, events, actions),
        0 <= i < actions.len(),
        0 <= j < actions[i].len(),
        actions[i][j] == LifecycleAction::StopServer,
    ensures
        events[i] is ProcessExited,
{
    let s = states[i];
    let e = events[i];
    assert(actions[i] == spec_step(s, e).1);
    if !(e is ProcessExited) {
        assert(spec_step(s, e).1 == Seq::<LifecycleAction>::empty() || spec_step(s, e).1 == seq![
            LifecycleAction::SpawnProcess,
        ] || spec_step(s, e).1 == seq![
            LifecycleAction::SpawnProcess,
            LifecycleAction::StartServer,
        ]);
        assert(false);
    }
}

/// Law: `Terminated` is absorbing. No event moves the orchestrator out of
/// it, and no further action is demanded.
pub proof fn lemma_terminated_absorbing(s: LifecycleState, e: LifecycleEvent)
    requires
        s is Terminated,
    ensures
        spec_step(s, e).0 == s,
        spec_step(s, e).1 == Seq::<LifecycleAction>::empty(),
{
}

/// Law: the process result is authoritative. Once the orchestrator is
/// `Stopping` with a provisional outcome, every later state of a
/// well-formed trace is `Stopping` or `Terminated` with that same outcome:
/// a server-shutdown failure never overrides the reported result.
pub proof fn lemma_process_result_authoritative(
    states: Seq<LifecycleState>,
    events: Seq<LifecycleEvent>,
    actions: Seq<Seq<LifecycleAction>>,
    out: SessionOutcome,
    i: int,
    k: int,
)
    requires
        wf_trace(states, events, actions),
        0 <= i <= k < states.len(),
        states[i] == (LifecycleState::Stopping { provisional: out }),
    ensures
        states[k] == (LifecycleState::Stopping { provisional: out }) || states[k] == (
        LifecycleState::Terminated { outcome: out }),
    decreases k - i,
{
    if k > i {
        lemma_process_result_authoritative(states, events, actions, out, i, k - 1);
        assert(states[k] == spec_step(states[k - 1], events[k - 1]).0);
    }
}

} // verus!
