//! The reaction-time stopwatch.
//!
//! The stopwatch does not read a clock. Whoever drives it passes the current
//! clock reading, in milliseconds, to each operation that needs one; any
//! clock whose readings rarely go backwards will do.

use vstd::prelude::*;

verus! {

/// What a stopwatch is doing, as far as its operations can tell.
#[derive(Clone, Copy, Debug, PartialEq, Eq, Structural)]
pub enum TimerState {
    /// Never started, or reset since.
    NotStarted,
    /// Counting from this clock reading, the reference point.
    Running(u64),
    /// Stopped with this many milliseconds on it.
    Stopped(u64),
}

/// The milliseconds from the clock reading `since` to the reading `now`;
/// none if the clock went backwards in between.
pub open spec fn elapsed_between(since: u64, now: u64) -> u64 {
    if now >= since {
        (now - since) as u64
    } else {
        0
    }
}

impl TimerState {
    /// What a stopwatch in this state shows when the clock reads `now`.
    pub open spec fn elapsed_at(self, now: u64) -> u64 {
        match self {
            TimerState::NotStarted => 0,
            TimerState::Running(since) => elapsed_between(since, now),
            TimerState::Stopped(elapsed) => elapsed,
        }
    }

    /// The state after `start` at the clock reading `now`.
    pub open spec fn started(self, now: u64) -> TimerState {
        match self {
            TimerState::NotStarted => TimerState::Running(now),
            _ => self,
        }
    }

    /// The state after `stop` at the clock reading `now`.
    pub open spec fn stopped(self, now: u64) -> TimerState {
        match self {
            TimerState::Running(since) => TimerState::Stopped(elapsed_between(since, now)),
            _ => self,
        }
    }
}

/// After `stop`, the stopwatch shows the same time whatever the clock reads.
pub proof fn lemma_stop_freezes(state: TimerState, now: u64, later: u64)
    ensures
        state.stopped(now).elapsed_at(later) == state.stopped(now).elapsed_at(now),
        state.stopped(now) !is Running,
{
}

/// A stopwatch that ran from the reading `since` and was stopped at a later
/// reading `now` shows the difference of the two.
pub proof fn lemma_stop_keeps_the_running_time(since: u64, now: u64, later: u64)
    requires
        since <= now,
    ensures
        TimerState::Running(since).stopped(now).elapsed_at(later) == now - since,
{
}

/// A running stopwatch shows zero at the reading it was started at, and as
/// much more as the clock has advanced since.
pub proof fn lemma_running_follows_the_clock(since: u64, now: u64)
    requires
        since <= now,
    ensures
        TimerState::Running(since).elapsed_at(since) == 0,
        TimerState::Running(since).elapsed_at(now) == now - since,
{
}

/// `start` acts on a stopwatch that has not been started and on no other;
/// `stop` acts on a running one and on no other.
pub proof fn lemma_illegal_transitions_do_nothing(state: TimerState, now: u64)
    ensures
        state !is NotStarted ==> state.started(now) == state,
        state !is Running ==> state.stopped(now) == state,
{
}

#[derive(Clone, Copy, Debug, PartialEq, Eq, Structural)]
enum Phase {
    NotStarted,
    Running,
    Stopped,
}

/// A stopwatch for one reaction at a time.
#[derive(Debug)]
pub struct Timer {
    start_time: u64,
    elapsed: u64,
    state: Phase,
}

impl View for Timer {
    type V = TimerState;

    /// What the stopwatch is doing. The view carries the reference point of
    /// a running stopwatch and the stored time of a stopped one, which is all
    /// that its operations read; [`Timer::reference_point`] and
    /// [`Timer::stored_elapsed`] give the two values in every state.
    closed spec fn view(&self) -> TimerState {
        match self.state {
            Phase::NotStarted => TimerState::NotStarted,
            Phase::Running => TimerState::Running(self.start_time),
            Phase::Stopped => TimerState::Stopped(self.elapsed),
        }
    }
}

impl Timer {
    /// The clock reading that the stopwatch was last started at; 0 if it has
    /// not been started since it was made or reset.
    pub closed spec fn reference_point(&self) -> u64 {
        self.start_time
    }

    /// The time that the stopwatch last stopped with; 0 if it has not been
    /// stopped since it was made or reset.
    pub closed spec fn stored_elapsed(&self) -> u64 {
        self.elapsed
    }

    /// A stopwatch that has not been started.
    pub fn new() -> (timer: Timer)
        ensures
            timer@ == TimerState::NotStarted,
            timer.reference_point() == 0,
            timer.stored_elapsed() == 0,
    {
        Timer { start_time: 0, elapsed: 0, state: Phase::NotStarted }
    }

    /// A stopwatch that runs from the clock reading `now`.
    pub fn new_started(now: u64) -> (timer: Timer)
        ensures
            timer@ == TimerState::Running(now),
            timer.reference_point() == now,
            timer.stored_elapsed() == 0,
    {
        Timer { start_time: now, elapsed: 0, state: Phase::Running }
    }

    /// What the stopwatch is doing.
    pub fn state(&self) -> (state: TimerState)
        ensures
            state == self@,
    {
        match self.state {
            Phase::NotStarted => TimerState::NotStarted,
            Phase::Running => TimerState::Running(self.start_time),
            Phase::Stopped => TimerState::Stopped(self.elapsed),
        }
    }

    /// Starts a stopwatch that has not been started, at the clock reading
    /// `now`. A running or stopped one is left as it is.
    pub fn start(&mut self, now: u64)
        ensures
            final(self)@ == old(self)@.started(now),
            old(self)@ is NotStarted ==> final(self).reference_point() == now,
            old(self)@ !is NotStarted ==> final(self).reference_point() == old(
                self,
            ).reference_point(),
            final(self).stored_elapsed() == old(self).stored_elapsed(),
    {
        if self.state == Phase::NotStarted {
            self.start_time = now;
            self.state = Phase::Running;
        }
    }

    /// Stops a running stopwatch at the clock reading `now` and keeps the
    /// time it ran. One that is not running is left as it is.
    pub fn stop(&mut self, now: u64)
        ensures
            final(self)@ == old(self)@.stopped(now),
            final(self).reference_point() == old(self).reference_point(),
            old(self)@ !is Running ==> final(self).stored_elapsed() == old(self).stored_elapsed(),
            old(self)@ is Running ==> final(self).stored_elapsed() == elapsed_between(
                old(self).reference_point(),
                now,
            ),
    {
        if self.state == Phase::Running {
            self.elapsed = now.saturating_sub(self.start_time);
            self.state = Phase::Stopped;
        }
    }

    /// The milliseconds on the stopwatch when the clock reads `now`: 0 before
    /// it is started, the time since the start while it runs, and the time
    /// it ran once it is stopped.
    pub fn elapsed_ms(&self, now: u64) -> (elapsed: u64)
        ensures
            elapsed == self@.elapsed_at(now),
    {
        match self.state {
            Phase::NotStarted => 0,
            Phase::Running => now.saturating_sub(self.start_time),
            Phase::Stopped => self.elapsed,
        }
    }

    /// Puts the stopwatch back to not started, and clears the reference
    /// point and the stored time.
    pub fn reset(&mut self)
        ensures
            final(self)@ == TimerState::NotStarted,
            final(self).reference_point() == 0,
            final(self).stored_elapsed() == 0,
    {
        self.start_time = 0;
        self.elapsed = 0;
        self.state = Phase::NotStarted;
    }

    /// Resets the stopwatch and starts it at the clock reading `now`,
    /// whatever it was doing.
    pub fn restart(&mut self, now: u64)
        ensures
            final(self)@ == TimerState::Running(now),
            final(self).reference_point() == now,
            final(self).stored_elapsed() == 0,
    {
        self.reset();
        self.start(now);
    }
}

} // verus!
