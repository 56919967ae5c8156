use lazyproxy::lifecycle::{Lifecycle, LifecycleAction, LifecycleEvent, LifecyclePhase, PROBE_RETRY_MS};
use lazyproxy::session::{ConnectionSession, SessionAction, SessionEvent, SessionOutcome};

#[test]
fn without_wait_binds_first() {
    assert_eq!(Lifecycle::new(false).phase(), LifecyclePhase::Binding);
    assert_eq!(Lifecycle::initial_action(false), LifecycleAction::Bind);
}

#[test]
fn wait_retries_until_target_reachable() {
    let mut l = Lifecycle::new(true);
    assert_eq!(l.phase(), LifecyclePhase::WaitingForTarget);
    assert_eq!(Lifecycle::initial_action(true), LifecycleAction::Probe { delay_ms: 0 });
    for _ in 0..5 {
        assert_eq!(l.step(LifecycleEvent::TargetUnreachable), LifecycleAction::Probe { delay_ms: 100 });
        assert_eq!(l.phase(), LifecyclePhase::WaitingForTarget);
    }
    assert_eq!(PROBE_RETRY_MS, 100);
    assert_eq!(l.step(LifecycleEvent::TargetReachable), LifecycleAction::Bind);
    assert_eq!(l.phase(), Lifecycle::new(false).phase());
}

#[test]
fn bind_failure_exits_with_failure() {
    let mut l = Lifecycle::new(false);
    assert_eq!(l.step(LifecycleEvent::BindFailed), LifecycleAction::Exit { code: 1 });
    assert_eq!(l.phase(), LifecyclePhase::Failed);
}

#[test]
fn accept_loop_spawns_until_accept_fails() {
    let mut l = Lifecycle::new(false);
    assert_eq!(l.step(LifecycleEvent::Bound), LifecycleAction::Serve);
    for _ in 0..4 {
        assert_eq!(l.step(LifecycleEvent::Accepted), LifecycleAction::Spawn);
        assert_eq!(l.phase(), LifecyclePhase::Serving);
    }
    assert_eq!(l.step(LifecycleEvent::AcceptFailed), LifecycleAction::Exit { code: 1 });
}

#[test]
fn connect_failure_does_not_stop_accepting() {
    let mut l = Lifecycle::new(false);
    l.step(LifecycleEvent::Bound);
    assert_eq!(l.step(LifecycleEvent::Accepted), LifecycleAction::Spawn);
    let mut failing = ConnectionSession::new();
    assert_eq!(
        failing.step(SessionEvent::ConnectFailed),
        SessionAction::Close { outcome: SessionOutcome::ConnectFailed }
    );
    assert_eq!(l.step(LifecycleEvent::Accepted), LifecycleAction::Spawn);
    let mut next = ConnectionSession::new();
    assert_eq!(next.step(SessionEvent::Connected), SessionAction::StartRelay);
}

#[test]
fn event_out_of_place_repeats_standing_action() {
    let mut l = Lifecycle::new(false);
    assert_eq!(l.step(LifecycleEvent::Accepted), LifecycleAction::Bind);
    l.step(LifecycleEvent::Bound);
    assert_eq!(l.step(LifecycleEvent::TargetReachable), LifecycleAction::Accept);
    l.step(LifecycleEvent::AcceptFailed);
    assert_eq!(l.step(LifecycleEvent::Bound), LifecycleAction::Exit { code: 1 });
    let mut w = Lifecycle::new(true);
    assert_eq!(w.step(LifecycleEvent::Bound), LifecycleAction::Probe { delay_ms: 100 });
}
