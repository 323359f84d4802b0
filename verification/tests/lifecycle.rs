//! The session lifecycle state machine: ordering of the callback-server
//! shutdown against the process exit, and the reported outcomes.

use dprun::guid::Guid;
use dprun::lifecycle::{
    FailureKind, LifecycleAction, LifecycleEvent, LifecycleState, SessionOutcome,
};
use dprun::options::DPRunOptions;

fn app() -> Guid {
    Guid::from_bytes([
        0x5b, 0xfd, 0xb0, 0x60, 0x06, 0xa4, 0x11, 0xd0, 0x9c, 0x4f, 0x00, 0xa0, 0xc9, 0x05, 0x42,
        0x5e,
    ])
}

#[test]
fn orchestrated_run_with_server_stops_server_only_after_exit() {
    let options = DPRunOptions::builder()
        .host(None)
        .player_name("P".into())
        .service_provider_handler(())
        .application(app())
        .finish()
        .unwrap();

    let state = LifecycleState::initial(&options);
    assert!(matches!(state, LifecycleState::NotStarted { server_expected: true }));

    let (state, actions) = state.step(&LifecycleEvent::StartRequested);
    assert_eq!(actions, vec![LifecycleAction::SpawnProcess, LifecycleAction::StartServer]);
    assert!(matches!(state, LifecycleState::Starting { .. }));

    let (state, actions) = state.step(&LifecycleEvent::SpawnSucceeded);
    assert!(actions.is_empty());
    assert!(matches!(state, LifecycleState::Starting { spawned: true, .. }));

    let (state, actions) = state.step(&LifecycleEvent::ServerStarted);
    assert!(actions.is_empty());
    assert!(matches!(state, LifecycleState::Running { server_expected: true }));

    // The stop signal is demanded only at the step that observes the exit.
    let (state, actions) = state.step(&LifecycleEvent::ProcessExited(Some(0)));
    assert_eq!(actions, vec![LifecycleAction::StopServer]);
    assert!(matches!(state, LifecycleState::Stopping { .. }));

    let (state, actions) = state.step(&LifecycleEvent::ServerStopped(true));
    assert!(actions.is_empty());
    assert!(matches!(
        state,
        LifecycleState::Terminated { outcome: SessionOutcome::Success }
    ));
}

#[test]
fn run_without_server_spawns_only_and_reports_exit() {
    let options = DPRunOptions::<()>::builder()
        .host(None)
        .player_name("P".into())
        .named_service_provider("IPX")
        .application(app())
        .finish()
        .unwrap();

    let state = LifecycleState::initial(&options);
    assert!(matches!(state, LifecycleState::NotStarted { server_expected: false }));

    let (state, actions) = state.step(&LifecycleEvent::StartRequested);
    assert_eq!(actions, vec![LifecycleAction::SpawnProcess]);

    let (state, actions) = state.step(&LifecycleEvent::SpawnSucceeded);
    assert!(actions.is_empty());
    assert!(matches!(state, LifecycleState::Running { server_expected: false }));

    let (state, actions) = state.step(&LifecycleEvent::ProcessExited(Some(1)));
    assert!(actions.is_empty());
    assert!(matches!(
        state,
        LifecycleState::Terminated {
            outcome: SessionOutcome::Failure(FailureKind::AbnormalExit(Some(1)))
        }
    ));
}

#[test]
fn server_start_order_does_not_matter_during_starting() {
    let state = LifecycleState::NotStarted { server_expected: true };
    let (state, _) = state.step(&LifecycleEvent::StartRequested);
    let (state, actions) = state.step(&LifecycleEvent::ServerStarted);
    assert!(actions.is_empty());
    assert!(matches!(state, LifecycleState::Starting { server_up: true, .. }));
    let (state, actions) = state.step(&LifecycleEvent::SpawnSucceeded);
    assert!(actions.is_empty());
    assert!(matches!(state, LifecycleState::Running { server_expected: true }));
}

#[test]
fn spawn_failure_terminates_without_stop_signal() {
    let state = LifecycleState::NotStarted { server_expected: true };
    let (state, _) = state.step(&LifecycleEvent::StartRequested);
    let (state, actions) = state.step(&LifecycleEvent::SpawnFailed);
    assert!(actions.is_empty());
    assert!(matches!(
        state,
        LifecycleState::Terminated {
            outcome: SessionOutcome::Failure(FailureKind::SpawnFailed)
        }
    ));
}

#[test]
fn server_start_failure_terminates() {
    let state = LifecycleState::NotStarted { server_expected: true };
    let (state, _) = state.step(&LifecycleEvent::StartRequested);
    let (state, _) = state.step(&LifecycleEvent::SpawnSucceeded);
    let (state, actions) = state.step(&LifecycleEvent::ServerStartFailed);
    assert!(actions.is_empty());
    assert!(matches!(
        state,
        LifecycleState::Terminated {
            outcome: SessionOutcome::Failure(FailureKind::ServerStartFailed)
        }
    ));
}

#[test]
fn missing_exit_code_is_a_failure() {
    let state = LifecycleState::Running { server_expected: false };
    let (state, _) = state.step(&LifecycleEvent::ProcessExited(None));
    assert!(matches!(
        state,
        LifecycleState::Terminated {
            outcome: SessionOutcome::Failure(FailureKind::AbnormalExit(None))
        }
    ));
}

#[test]
fn server_shutdown_failure_does_not_override_process_result() {
    let state = LifecycleState::Running { server_expected: true };
    let (state, _) = state.step(&LifecycleEvent::ProcessExited(Some(0)));
    assert!(matches!(
        state,
        LifecycleState::Stopping { provisional: SessionOutcome::Success }
    ));
    let (state, _) = state.step(&LifecycleEvent::ServerStopped(false));
    assert!(matches!(
        state,
        LifecycleState::Terminated { outcome: SessionOutcome::Success }
    ));

    let state = LifecycleState::Running { server_expected: true };
    let (state, _) = state.step(&LifecycleEvent::ProcessExited(Some(3)));
    let (state, _) = state.step(&LifecycleEvent::ServerStopped(true));
    assert!(matches!(
        state,
        LifecycleState::Terminated {
            outcome: SessionOutcome::Failure(FailureKind::AbnormalExit(Some(3)))
        }
    ));
}

#[test]
fn terminated_is_absorbing() {
    let state = LifecycleState::Terminated { outcome: SessionOutcome::Success };
    let (state, actions) = state.step(&LifecycleEvent::ProcessExited(Some(9)));
    assert!(actions.is_empty());
    assert!(matches!(
        state,
        LifecycleState::Terminated { outcome: SessionOutcome::Success }
    ));
    let (state, actions) = state.step(&LifecycleEvent::ServerStopped(true));
    assert!(actions.is_empty());
    assert!(matches!(
        state,
        LifecycleState::Terminated { outcome: SessionOutcome::Success }
    ));
}
