//! The idle watchdog: one deadline, pushed forward by every activity pulse,
//! and a process exit once the deadline passes without one.
//!
//! Times are milliseconds on a monotonic clock, counted from any fixed origin
//! that the caller keeps for the whole run.

use vstd::prelude::*;

verus! {

/// Exit status of the process when the idle period runs out: a normal end.
pub const IDLE_EXIT_CODE: i32 = 0;

/// The deadline that a reset at `now` sets, for the timeout `timeout`.
/// A deadline past the clock's range is held at the last instant the clock can show.
pub open spec fn deadline_after(now: nat, timeout: nat) -> nat {
    if now + timeout <= u64::MAX {
        now + timeout
    } else {
        u64::MAX as nat
    }
}

/// What the watchdog is told.
#[derive(Clone, Copy, Debug, PartialEq, Eq, Structural)]
pub enum WatchdogEvent {
    /// A pulse was taken from the activity channel.
    Pulse,
    /// The timer that was armed for the current deadline fired.
    TimerFired,
}

/// What the watchdog asks of its runtime.
#[derive(Clone, Copy, Debug, PartialEq, Eq, Structural)]
pub enum WatchdogAction {
    /// Wait for the next pulse, or for the clock to reach `until_ms`.
    WaitUntil { until_ms: u64 },
    /// End the whole process now, with this exit status.
    Exit { code: i32 },
}

/// The watchdog's abstract state: the timeout it was given and its current deadline.
pub struct WatchdogModel {
    pub timeout: nat,
    pub deadline: nat,
}

/// The state of a watchdog reset at `now`.
pub open spec fn reset_model(now: nat, timeout: nat) -> WatchdogModel {
    WatchdogModel { timeout, deadline: deadline_after(now, timeout) }
}

/// The state after `event` is handled at `now`.
pub open spec fn next_model(m: WatchdogModel, now: nat, event: WatchdogEvent) -> WatchdogModel {
    match event {
        WatchdogEvent::Pulse => reset_model(now, m.timeout),
        WatchdogEvent::TimerFired => m,
    }
}

/// Whether handling `event` at `now` ends the process: only a timer that fires
/// at or after the deadline does.
pub open spec fn expires(m: WatchdogModel, now: nat, event: WatchdogEvent) -> bool {
    event == WatchdogEvent::TimerFired && now >= m.deadline
}

/// The action that handling `event` at `now` asks for.
pub open spec fn action_of(m: WatchdogModel, now: nat, event: WatchdogEvent) -> WatchdogAction {
    if expires(m, now, event) {
        WatchdogAction::Exit { code: IDLE_EXIT_CODE }
    } else {
        WatchdogAction::WaitUntil { until_ms: next_model(m, now, event).deadline as u64 }
    }
}

/// The state after pulses taken at `times`, in that order, starting from `m`.
pub open spec fn after_pulses(m: WatchdogModel, times: Seq<nat>) -> WatchdogModel
    decreases times.len(),
{
    if times.len() == 0 {
        m
    } else {
        next_model(after_pulses(m, times.drop_last()), times.last(), WatchdogEvent::Pulse)
    }
}

/// Only the last pulse taken counts: the pulses before it, however many, leave no trace.
pub proof fn lemma_only_last_pulse_counts(m: WatchdogModel, times: Seq<nat>)
    requires
        times.len() > 0,
    ensures
        after_pulses(m, times) == reset_model(times.last(), m.timeout),
    decreases times.len(),
{
    let prev = after_pulses(m, times.drop_last());
    if times.len() > 1 {
        lemma_only_last_pulse_counts(m, times.drop_last());
    } else {
        assert(times.drop_last().len() == 0);
        assert(prev == m);
    }
    assert(prev.timeout == m.timeout);
    assert(after_pulses(m, times) == next_model(prev, times.last(), WatchdogEvent::Pulse));
}

/// A pulse dropped because the channel already held one loses nothing: the
/// pending pulse, taken at `taken` no earlier than the drop at `dropped`, sets
/// a deadline no earlier than the dropped pulse would have set.
pub proof fn lemma_dropped_pulse_is_covered(m: WatchdogModel, dropped: nat, taken: nat)
    requires
        dropped <= taken,
    ensures
        next_model(m, taken, WatchdogEvent::Pulse).deadline
            >= next_model(m, dropped, WatchdogEvent::Pulse).deadline,
{
}

/// With no pulse since a reset at `reset`, a timer firing at `t` ends the
/// process with a success status exactly when `t` is at least one timeout
/// after the reset; before that the watchdog keeps waiting for that deadline.
/// A watchdog is reset when it starts and on every pulse.
pub proof fn lemma_idle_expiry(m: WatchdogModel, reset: nat, t: nat)
    requires
        reset + m.timeout <= u64::MAX,
    ensures
        next_model(m, reset, WatchdogEvent::Pulse) == reset_model(reset, m.timeout),
        expires(reset_model(reset, m.timeout), t, WatchdogEvent::TimerFired) <==> t >= reset
            + m.timeout,
        t >= reset + m.timeout ==> action_of(
            reset_model(reset, m.timeout),
            t,
            WatchdogEvent::TimerFired,
        ) == (WatchdogAction::Exit { code: 0 }),
        t < reset + m.timeout ==> action_of(
            reset_model(reset, m.timeout),
            t,
            WatchdogEvent::TimerFired,
        ) == (WatchdogAction::WaitUntil { until_ms: (reset + m.timeout) as u64 }),
{
}

/// A pulse at `t` moves the deadline to `t` plus the timeout, and pulses
/// spaced less than a timeout apart, the first less than a timeout after
/// the start, keep the process alive: a timer firing at any instant up to
/// the next pulse does not end it, however long the stream runs.
pub proof fn lemma_steady_pulses_keep_alive(
    start: nat,
    timeout: nat,
    pulses: Seq<nat>,
    k: int,
    t: nat,
)
    requires
        0 <= k < pulses.len(),
        start <= pulses[0] < start + timeout,
        forall|i: int| 0 < i < pulses.len() ==> pulses[i - 1] <= #[trigger] pulses[i] < pulses[i - 1]
            + timeout,
        forall|i: int| 0 <= i < pulses.len() ==> pulses[i] + timeout <= u64::MAX,
        t <= pulses[k],
    ensures
        !expires(after_pulses(reset_model(start, timeout), pulses.take(k)), t, WatchdogEvent::TimerFired),
        after_pulses(reset_model(start, timeout), pulses.take(k + 1)).deadline == pulses[k] + timeout,
{
    let m = reset_model(start, timeout);
    lemma_only_last_pulse_counts(m, pulses.take(k + 1));
    assert(pulses.take(k + 1).last() == pulses[k]);
    if k > 0 {
        lemma_only_last_pulse_counts(m, pulses.take(k));
        assert(pulses.take(k).last() == pulses[k - 1]);
    }
}

/// The single owner of the idle deadline.
pub struct IdleWatchdog {
    timeout_ms: u64,
    deadline_ms: u64,
}

impl View for IdleWatchdog {
    type V = WatchdogModel;

    closed spec fn view(&self) -> WatchdogModel {
        WatchdogModel { timeout: self.timeout_ms as nat, deadline: self.deadline_ms as nat }
    }
}

impl IdleWatchdog {
    /// A watchdog started at `start_ms`: its first deadline is one timeout later.
    pub fn new(start_ms: u64, timeout_ms: u64) -> (r: IdleWatchdog)
        ensures
            r@ == reset_model(start_ms as nat, timeout_ms as nat),
            r@.deadline <= u64::MAX,
    {
        IdleWatchdog { timeout_ms, deadline_ms: start_ms.saturating_add(timeout_ms) }
    }

    /// The configured idle timeout.
    pub fn timeout_ms(&self) -> (r: u64)
        ensures
            r as nat == self@.timeout,
    {
        self.timeout_ms
    }

    /// The instant at which the process ends unless a pulse comes first.
    pub fn deadline_ms(&self) -> (r: u64)
        ensures
            r as nat == self@.deadline,
    {
        self.deadline_ms
    }

    /// The action to take right now, before any event: wait for the current deadline.
    pub fn pending_action(&self) -> (r: WatchdogAction)
        ensures
            r == (WatchdogAction::WaitUntil { until_ms: self@.deadline as u64 }),
    {
        WatchdogAction::WaitUntil { until_ms: self.deadline_ms }
    }

    /// Handles `event`, observed at `now_ms`.
    /// A pulse moves the deadline to one timeout after `now_ms`; a timer that
    /// fires at or after the deadline ends the process with a success status.
    pub fn step(&mut self, now_ms: u64, event: WatchdogEvent) -> (r: WatchdogAction)
        ensures
            final(self)@ == next_model(old(self)@, now_ms as nat, event),
            r == action_of(old(self)@, now_ms as nat, event),
    {
        match event {
            WatchdogEvent::Pulse => {
                self.deadline_ms = now_ms.saturating_add(self.timeout_ms);
                WatchdogAction::WaitUntil { until_ms: self.deadline_ms }
            },
            WatchdogEvent::TimerFired => {
                if now_ms >= self.deadline_ms {
                    WatchdogAction::Exit { code: IDLE_EXIT_CODE }
                } else {
                    WatchdogAction::WaitUntil { until_ms: self.deadline_ms }
                }
            },
        }
    }
}

} // verus!
