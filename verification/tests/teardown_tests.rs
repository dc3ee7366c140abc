// Tests for the process teardown state machine: both paths end terminated
// with the exit status consumed.
use kodegen_mcp_client::teardown::{
    ProcessTeardown, TeardownAction, TeardownEvent, TeardownPhase,
};

#[test]
fn test_graceful_teardown_reaps() {
    let mut t = ProcessTeardown::new();
    assert_eq!(t.phase, TeardownPhase::Running);
    assert!(!t.reaped);

    assert_eq!(t.step(TeardownEvent::CancelRequested), TeardownAction::SignalCancel);
    assert_eq!(t.phase, TeardownPhase::Cancelling);
    assert_eq!(t.step(TeardownEvent::CancellationObserved), TeardownAction::CloseStdin);
    assert_eq!(t.phase, TeardownPhase::StdinClosed);
    assert_eq!(t.step(TeardownEvent::WaitStarted), TeardownAction::StartGraceTimer);
    assert_eq!(t.phase, TeardownPhase::WaitingGraceful);
    assert_eq!(t.step(TeardownEvent::ProcessExited), TeardownAction::Reap);

    assert_eq!(t.phase, TeardownPhase::Terminated);
    assert!(t.reaped);
    assert!(!t.forced);
}

#[test]
fn test_forced_teardown_reaps() {
    let mut t = ProcessTeardown::new();
    t.step(TeardownEvent::CancelRequested);
    t.step(TeardownEvent::CancellationObserved);
    t.step(TeardownEvent::WaitStarted);

    assert_eq!(t.step(TeardownEvent::GraceExpired), TeardownAction::KillProcess);
    assert_eq!(t.phase, TeardownPhase::ForceKilled);
    assert!(!t.reaped);

    assert_eq!(t.step(TeardownEvent::ProcessExited), TeardownAction::Reap);
    assert_eq!(t.phase, TeardownPhase::Terminated);
    assert!(t.reaped);
    assert!(t.forced);
}

#[test]
fn test_inapplicable_events_do_not_advance() {
    let mut t = ProcessTeardown::new();
    assert_eq!(t.step(TeardownEvent::ProcessExited), TeardownAction::Stay);
    assert_eq!(t.phase, TeardownPhase::Running);
    assert_eq!(t.step(TeardownEvent::GraceExpired), TeardownAction::Stay);
    assert_eq!(t.phase, TeardownPhase::Running);
    assert!(!t.reaped);

    t.step(TeardownEvent::CancelRequested);
    assert_eq!(t.step(TeardownEvent::CancelRequested), TeardownAction::Stay);
    assert_eq!(t.phase, TeardownPhase::Cancelling);
}

#[test]
fn test_terminated_is_absorbing() {
    let mut t = ProcessTeardown::new();
    t.step(TeardownEvent::CancelRequested);
    t.step(TeardownEvent::CancellationObserved);
    t.step(TeardownEvent::WaitStarted);
    t.step(TeardownEvent::ProcessExited);
    assert_eq!(t.phase, TeardownPhase::Terminated);

    for ev in [
        TeardownEvent::CancelRequested,
        TeardownEvent::CancellationObserved,
        TeardownEvent::WaitStarted,
        TeardownEvent::ProcessExited,
        TeardownEvent::GraceExpired,
    ] {
        assert_eq!(t.step(ev), TeardownAction::Stay);
        assert_eq!(t.phase, TeardownPhase::Terminated);
        assert!(t.reaped);
    }
}
