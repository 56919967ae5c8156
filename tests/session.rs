use lazyproxy::session::{ConnectionSession, SessionAction, SessionEvent, SessionOutcome, SessionPhase};

#[test]
fn new_session_connects_first() {
    assert_eq!(ConnectionSession::new().phase(), SessionPhase::Connecting);
}

#[test]
fn connect_failure_closes_with_error() {
    let mut s = ConnectionSession::new();
    let a = s.step(SessionEvent::ConnectFailed);
    assert_eq!(a, SessionAction::Close { outcome: SessionOutcome::ConnectFailed });
    assert!(SessionOutcome::ConnectFailed.is_error());
    assert_eq!(s.phase(), SessionPhase::Ended { outcome: SessionOutcome::ConnectFailed });
}

#[test]
fn relay_pulses_on_every_turn_and_ends_cleanly() {
    let mut s = ConnectionSession::new();
    assert_eq!(s.step(SessionEvent::Connected), SessionAction::StartRelay);
    assert_eq!(s.phase(), SessionPhase::Relaying);
    for _ in 0..3 {
        assert_eq!(s.step(SessionEvent::Polled), SessionAction::EmitPulse);
    }
    assert_eq!(s.step(SessionEvent::CopyFinished), SessionAction::Close { outcome: SessionOutcome::Completed });
    assert!(!SessionOutcome::Completed.is_error());
}

#[test]
fn copy_error_closes_with_error() {
    let mut s = ConnectionSession::new();
    s.step(SessionEvent::Connected);
    assert_eq!(s.step(SessionEvent::CopyFailed), SessionAction::Close { outcome: SessionOutcome::RelayFailed });
    assert!(SessionOutcome::RelayFailed.is_error());
}

#[test]
fn ended_session_keeps_its_one_outcome() {
    let mut s = ConnectionSession::new();
    s.step(SessionEvent::Connected);
    s.step(SessionEvent::CopyFinished);
    for e in [SessionEvent::CopyFailed, SessionEvent::Polled, SessionEvent::Connected, SessionEvent::ConnectFailed] {
        assert_eq!(s.step(e), SessionAction::Ignore);
        assert_eq!(s.phase(), SessionPhase::Ended { outcome: SessionOutcome::Completed });
    }
}

#[test]
fn no_pulse_before_connected() {
    let mut s = ConnectionSession::new();
    assert_eq!(s.step(SessionEvent::Polled), SessionAction::Ignore);
    assert_eq!(s.step(SessionEvent::CopyFinished), SessionAction::Ignore);
    assert_eq!(s.phase(), SessionPhase::Connecting);
}
