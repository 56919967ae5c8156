//! One relay session: the outbound connect, the two-way copy, and the pulses
//! that tell the watchdog the session is alive.
//!
//! The runtime performs the connect and the copy; it reports what happened as
//! a [`SessionEvent`] and performs the [`SessionAction`] it gets back.

use vstd::prelude::*;

verus! {

/// How a session ended. A session ends exactly once.
#[derive(Clone, Copy, Debug, PartialEq, Eq, Structural)]
pub enum SessionOutcome {
    /// One side reached end of stream: the session ends silently.
    Completed,
    /// The outbound connection to the target could not be opened.
    ConnectFailed,
    /// An I/O error on either socket stopped the copy.
    RelayFailed,
}

/// Where a session stands.
#[derive(Clone, Copy, Debug, PartialEq, Eq, Structural)]
pub enum SessionPhase {
    /// Opening the outbound connection.
    Connecting,
    /// Copying bytes both ways.
    Relaying,
    /// Over, with its one outcome.
    Ended { outcome: SessionOutcome },
}

/// What the runtime reports to a session.
#[derive(Clone, Copy, Debug, PartialEq, Eq, Structural)]
pub enum SessionEvent {
    /// The outbound connection is open.
    Connected,
    /// The outbound connection could not be opened.
    ConnectFailed,
    /// The copy was given a turn by the scheduler and has not finished.
    Polled,
    /// The copy finished: a side reached end of stream.
    CopyFinished,
    /// The copy stopped on an I/O error.
    CopyFailed,
}

/// What a session asks of the runtime.
#[derive(Clone, Copy, Debug, PartialEq, Eq, Structural)]
pub enum SessionAction {
    /// Start copying between the client and the target.
    StartRelay,
    /// Offer one pulse to the activity channel, dropping it if the channel is full.
    EmitPulse,
    /// Close both connections; report the outcome if it is an error.
    Close { outcome: SessionOutcome },
    /// Nothing to do: the event does not apply in this phase.
    Ignore,
}

/// Whether an outcome is reported as an error.
pub open spec fn outcome_is_error(o: SessionOutcome) -> bool {
    o != SessionOutcome::Completed
}

/// The phase and action that follow `event` in phase `p`.
/// Events that do not fit the phase change nothing; in particular an ended
/// session stays ended with its outcome.
pub open spec fn session_next(p: SessionPhase, event: SessionEvent) -> (SessionPhase, SessionAction) {
    match (p, event) {
        (SessionPhase::Connecting, SessionEvent::Connected) => (
            SessionPhase::Relaying,
            SessionAction::StartRelay,
        ),
        (SessionPhase::Connecting, SessionEvent::ConnectFailed) => (
            SessionPhase::Ended { outcome: SessionOutcome::ConnectFailed },
            SessionAction::Close { outcome: SessionOutcome::ConnectFailed },
        ),
        (SessionPhase::Relaying, SessionEvent::Polled) => (
            SessionPhase::Relaying,
            SessionAction::EmitPulse,
        ),
        (SessionPhase::Relaying, SessionEvent::CopyFinished) => (
            SessionPhase::Ended { outcome: SessionOutcome::Completed },
            SessionAction::Close { outcome: SessionOutcome::Completed },
        ),
        (SessionPhase::Relaying, SessionEvent::CopyFailed) => (
            SessionPhase::Ended { outcome: SessionOutcome::RelayFailed },
            SessionAction::Close { outcome: SessionOutcome::RelayFailed },
        ),
        _ => (p, SessionAction::Ignore),
    }
}

/// The phase after `events`, handled in order from phase `p`.
pub open spec fn session_run(p: SessionPhase, events: Seq<SessionEvent>) -> SessionPhase
    decreases events.len(),
{
    if events.len() == 0 {
        p
    } else {
        session_next(session_run(p, events.drop_last()), events.last()).0
    }
}

/// How many `Close` actions `events`, handled in order from phase `p`, ask for.
pub open spec fn session_closes(p: SessionPhase, events: Seq<SessionEvent>) -> nat
    decreases events.len(),
{
    if events.len() == 0 {
        0
    } else {
        let before = session_closes(p, events.drop_last());
        if session_next(session_run(p, events.drop_last()), events.last()).1 is Close {
            before + 1
        } else {
            before
        }
    }
}

/// Every session has exactly one terminal outcome: from the start, any run
/// of events asks for at most one close, it asks for one exactly when the
/// session has ended, and once ended the outcome never changes.
pub proof fn lemma_one_terminal_outcome(events: Seq<SessionEvent>)
    ensures
        session_closes(SessionPhase::Connecting, events) <= 1,
        session_closes(SessionPhase::Connecting, events) == 1 <==> session_run(
            SessionPhase::Connecting,
            events,
        ) is Ended,
        forall|j: int|
            0 <= j <= events.len() && session_run(SessionPhase::Connecting, events.take(j)) is Ended
                ==> session_run(SessionPhase::Connecting, events) == #[trigger] session_run(
                SessionPhase::Connecting,
                events.take(j),
            ),
    decreases events.len(),
{
    if events.len() > 0 {
        let prefix = events.drop_last();
        lemma_one_terminal_outcome(prefix);
        assert forall|j: int|
            0 <= j <= events.len() && session_run(SessionPhase::Connecting, events.take(j)) is Ended
                implies session_run(SessionPhase::Connecting, events) == #[trigger] session_run(
            SessionPhase::Connecting,
            events.take(j),
        ) by {
            if j < events.len() {
                assert(prefix.take(j) == events.take(j));
                assert(session_run(SessionPhase::Connecting, prefix) == session_run(
                    SessionPhase::Connecting,
                    prefix.take(j),
                ));
            } else {
                assert(events.take(j) == events);
            }
        }
    }
}

/// The session of one accepted client connection.
pub struct ConnectionSession {
    phase: SessionPhase,
}

impl View for ConnectionSession {
    type V = SessionPhase;

    closed spec fn view(&self) -> SessionPhase {
        self.phase
    }
}

impl SessionOutcome {
    /// Whether this outcome is reported as an error: every outcome but a clean end.
    pub fn is_error(&self) -> (r: bool)
        ensures
            r == outcome_is_error(*self),
    {
        !matches!(self, SessionOutcome::Completed)
    }
}

impl ConnectionSession {
    /// A session for a client connection that was just accepted: it opens the
    /// outbound connection first.
    pub fn new() -> (r: ConnectionSession)
        ensures
            r@ == SessionPhase::Connecting,
    {
        ConnectionSession { phase: SessionPhase::Connecting }
    }

    /// Where the session stands.
    pub fn phase(&self) -> (r: SessionPhase)
        ensures
            r == self@,
    {
        self.phase
    }

    /// Handles `event`. A failed connect or copy ends the session with an error,
    /// a copy that reaches end of stream ends it cleanly, and each turn the copy
    /// gets while it runs offers one pulse.
    pub fn step(&mut self, event: SessionEvent) -> (r: SessionAction)
        ensures
            final(self)@ == session_next(old(self)@, event).0,
            r == session_next(old(self)@, event).1,
    {
        let (next, action) = match (self.phase, event) {
            (SessionPhase::Connecting, SessionEvent::Connected) => (
                SessionPhase::Relaying,
                SessionAction::StartRelay,
            ),
            (SessionPhase::Connecting, SessionEvent::ConnectFailed) => (
                SessionPhase::Ended { outcome: SessionOutcome::ConnectFailed },
                SessionAction::Close { outcome: SessionOutcome::ConnectFailed },
            ),
            (SessionPhase::Relaying, SessionEvent::Polled) => (
                SessionPhase::Relaying,
                SessionAction::EmitPulse,
            ),
            (SessionPhase::Relaying, SessionEvent::CopyFinished) => (
                SessionPhase::Ended { outcome: SessionOutcome::Completed },
                SessionAction::Close { outcome: SessionOutcome::Completed },
            ),
            (SessionPhase::Relaying, SessionEvent::CopyFailed) => (
                SessionPhase::Ended { outcome: SessionOutcome::RelayFailed },
                SessionAction::Close { outcome: SessionOutcome::RelayFailed },
            ),
            _ => (self.phase, SessionAction::Ignore),
        };
        self.phase = next;
        action
    }
}

} // verus!
