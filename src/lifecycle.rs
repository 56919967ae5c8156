//! The process lifecycle: the optional wait for the target, binding the
//! listener, and the accept loop that starts one session per connection.
//!
//! Address resolution happens before this machine starts; the runtime
//! performs each action and reports the result as the next event.

use vstd::prelude::*;
use crate::session::{session_next, outcome_is_error, SessionAction, SessionEvent, SessionOutcome, SessionPhase};

verus! {

/// Pause between two attempts to reach the target while waiting for it.
pub const PROBE_RETRY_MS: u64 = 100;

/// Exit status of the process when setting up or accepting fails.
pub const SETUP_FAILURE_EXIT_CODE: i32 = 1;

/// Where the process stands.
#[derive(Clone, Copy, Debug, PartialEq, Eq, Structural)]
pub enum LifecyclePhase {
    /// Trying to connect to the target before anything else.
    WaitingForTarget,
    /// Binding the listen address.
    Binding,
    /// Accepting connections, with the watchdog running.
    Serving,
    /// A fatal error: the process ends with a failure status.
    Failed,
}

/// What the runtime reports.
#[derive(Clone, Copy, Debug, PartialEq, Eq, Structural)]
pub enum LifecycleEvent {
    /// A trial connection to the target succeeded.
    TargetReachable,
    /// A trial connection to the target failed.
    TargetUnreachable,
    /// The listener is bound.
    Bound,
    /// The listener could not be bound.
    BindFailed,
    /// A client connection was accepted.
    Accepted,
    /// The listener failed to accept.
    AcceptFailed,
}

/// What the runtime is asked to do.
#[derive(Clone, Copy, Debug, PartialEq, Eq, Structural)]
pub enum LifecycleAction {
    /// After `delay_ms`, try once to connect to the target.
    Probe { delay_ms: u64 },
    /// Bind the listen address.
    Bind,
    /// Start the watchdog, then accept a connection.
    Serve,
    /// Start a session for the connection just accepted, then accept the next.
    Spawn,
    /// Accept a connection.
    Accept,
    /// End the process with this exit status.
    Exit { code: i32 },
}

/// The phase a process starts in: waiting for the target only when asked to.
pub open spec fn initial_phase(wait: bool) -> LifecyclePhase {
    if wait {
        LifecyclePhase::WaitingForTarget
    } else {
        LifecyclePhase::Binding
    }
}

/// The first action of a process: an immediate probe when waiting, else binding.
pub open spec fn initial_action(wait: bool) -> LifecycleAction {
    if wait {
        LifecycleAction::Probe { delay_ms: 0 }
    } else {
        LifecycleAction::Bind
    }
}

/// The action a phase keeps asking for until an event that fits it comes.
pub open spec fn standing_action(p: LifecyclePhase) -> LifecycleAction {
    match p {
        LifecyclePhase::WaitingForTarget => LifecycleAction::Probe { delay_ms: PROBE_RETRY_MS },
        LifecyclePhase::Binding => LifecycleAction::Bind,
        LifecyclePhase::Serving => LifecycleAction::Accept,
        LifecyclePhase::Failed => LifecycleAction::Exit { code: SETUP_FAILURE_EXIT_CODE },
    }
}

/// The phase and action that follow `event` in phase `p`. A failed bind or
/// accept is fatal; a failed probe is retried after a fixed pause; an event
/// that does not fit the phase changes nothing.
pub open spec fn lifecycle_next(p: LifecyclePhase, event: LifecycleEvent) -> (
    LifecyclePhase,
    LifecycleAction,
) {
    match (p, event) {
        (LifecyclePhase::WaitingForTarget, LifecycleEvent::TargetReachable) => (
            LifecyclePhase::Binding,
            LifecycleAction::Bind,
        ),
        (LifecyclePhase::Binding, LifecycleEvent::Bound) => (
            LifecyclePhase::Serving,
            LifecycleAction::Serve,
        ),
        (LifecyclePhase::Binding, LifecycleEvent::BindFailed) => (
            LifecyclePhase::Failed,
            LifecycleAction::Exit { code: SETUP_FAILURE_EXIT_CODE },
        ),
        (LifecyclePhase::Serving, LifecycleEvent::Accepted) => (
            LifecyclePhase::Serving,
            LifecycleAction::Spawn,
        ),
        (LifecyclePhase::Serving, LifecycleEvent::AcceptFailed) => (
            LifecyclePhase::Failed,
            LifecycleAction::Exit { code: SETUP_FAILURE_EXIT_CODE },
        ),
        _ => (p, standing_action(p)),
    }
}

/// The phase after `events`, handled in order from phase `p`.
pub open spec fn lifecycle_run(p: LifecyclePhase, events: Seq<LifecycleEvent>) -> LifecyclePhase
    decreases events.len(),
{
    if events.len() == 0 {
        p
    } else {
        lifecycle_next(lifecycle_run(p, events.drop_last()), events.last()).0
    }
}

/// Waiting for the target: however many probes fail, the process keeps
/// waiting and retries after the same fixed pause; once a probe succeeds it
/// stands exactly where a process started without waiting stands, and binds.
pub proof fn lemma_wait_then_proceed(failures: Seq<LifecycleEvent>)
    requires
        forall|i: int| 0 <= i < failures.len() ==> #[trigger] failures[i] == LifecycleEvent::TargetUnreachable,
    ensures
        lifecycle_run(initial_phase(true), failures) == LifecyclePhase::WaitingForTarget,
        lifecycle_next(LifecyclePhase::WaitingForTarget, LifecycleEvent::TargetUnreachable) == (
            LifecyclePhase::WaitingForTarget,
            LifecycleAction::Probe { delay_ms: PROBE_RETRY_MS },
        ),
        lifecycle_run(initial_phase(true), failures.push(LifecycleEvent::TargetReachable))
            == initial_phase(false),
        lifecycle_next(lifecycle_run(initial_phase(true), failures), LifecycleEvent::TargetReachable).1
            == initial_action(false),
    decreases failures.len(),
{
    if failures.len() > 0 {
        lemma_wait_then_proceed(failures.drop_last());
        assert(failures.last() == LifecycleEvent::TargetUnreachable);
    }
    assert(failures.push(LifecycleEvent::TargetReachable).drop_last() == failures);
}

/// A failed outbound connect stays inside its session: that session closes
/// and reports the error, while the accept loop, in any state of serving,
/// answers the next accepted connection with a new session and goes on serving.
pub proof fn lemma_connect_failure_is_contained(serving_events: Seq<LifecycleEvent>)
    requires
        forall|i: int| 0 <= i < serving_events.len() ==> #[trigger] serving_events[i] == LifecycleEvent::Accepted,
    ensures
        session_next(SessionPhase::Connecting, SessionEvent::ConnectFailed) == (
            SessionPhase::Ended { outcome: SessionOutcome::ConnectFailed },
            SessionAction::Close { outcome: SessionOutcome::ConnectFailed },
        ),
        outcome_is_error(SessionOutcome::ConnectFailed),
        lifecycle_run(LifecyclePhase::Serving, serving_events) == LifecyclePhase::Serving,
        lifecycle_next(lifecycle_run(LifecyclePhase::Serving, serving_events), LifecycleEvent::Accepted)
            == (LifecyclePhase::Serving, LifecycleAction::Spawn),
    decreases serving_events.len(),
{
    if serving_events.len() > 0 {
        lemma_connect_failure_is_contained(serving_events.drop_last());
        assert(serving_events.last() == LifecycleEvent::Accepted);
    }
}

/// The lifecycle of the whole process.
pub struct Lifecycle {
    phase: LifecyclePhase,
}

impl View for Lifecycle {
    type V = LifecyclePhase;

    closed spec fn view(&self) -> LifecyclePhase {
        self.phase
    }
}

impl Lifecycle {
    /// A process that first waits for the target when `wait` is set.
    pub fn new(wait: bool) -> (r: Lifecycle)
        ensures
            r@ == initial_phase(wait),
    {
        if wait {
            Lifecycle { phase: LifecyclePhase::WaitingForTarget }
        } else {
            Lifecycle { phase: LifecyclePhase::Binding }
        }
    }

    /// Where the process stands.
    pub fn phase(&self) -> (r: LifecyclePhase)
        ensures
            r == self@,
    {
        self.phase
    }

    /// The first action of a process made by `new(wait)`.
    pub fn initial_action(wait: bool) -> (r: LifecycleAction)
        ensures
            r == initial_action(wait),
    {
        if wait {
            LifecycleAction::Probe { delay_ms: 0 }
        } else {
            LifecycleAction::Bind
        }
    }

    /// Handles `event` and returns the next action.
    pub fn step(&mut self, event: LifecycleEvent) -> (r: LifecycleAction)
        ensures
            final(self)@ == lifecycle_next(old(self)@, event).0,
            r == lifecycle_next(old(self)@, event).1,
    {
        let (next, action) = match (self.phase, event) {
            (LifecyclePhase::WaitingForTarget, LifecycleEvent::TargetReachable) => (
                LifecyclePhase::Binding,
                LifecycleAction::Bind,
            ),
            (LifecyclePhase::Binding, LifecycleEvent::Bound) => (
                LifecyclePhase::Serving,
                LifecycleAction::Serve,
            ),
            (LifecyclePhase::Binding, LifecycleEvent::BindFailed) => (
                LifecyclePhase::Failed,
                LifecycleAction::Exit { code: SETUP_FAILURE_EXIT_CODE },
            ),
            (LifecyclePhase::Serving, LifecycleEvent::Accepted) => (
                LifecyclePhase::Serving,
                LifecycleAction::Spawn,
            ),
            (LifecyclePhase::Serving, LifecycleEvent::AcceptFailed) => (
                LifecyclePhase::Failed,
                LifecycleAction::Exit { code: SETUP_FAILURE_EXIT_CODE },
            ),
            _ => (self.phase, Self::standing_action(self.phase)),
        };
        self.phase = next;
        action
    }

    /// The action that phase `p` keeps asking for.
    fn standing_action(p: LifecyclePhase) -> (r: LifecycleAction)
        ensures
            r == standing_action(p),
    {
        match p {
            LifecyclePhase::WaitingForTarget => LifecycleAction::Probe { delay_ms: PROBE_RETRY_MS },
            LifecyclePhase::Binding => LifecycleAction::Bind,
            LifecyclePhase::Serving => LifecycleAction::Accept,
            LifecyclePhase::Failed => LifecycleAction::Exit { code: SETUP_FAILURE_EXIT_CODE },
        }
    }
}

} // verus!
