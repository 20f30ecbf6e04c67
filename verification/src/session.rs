//! One practice session: the attempt log and the stopwatch, driven together.

use crate::ascii_chars::AsciiChars;
use crate::history::{with_attempt, AttemptLog};
use crate::stats::{HitType, Stats};
use crate::timer::{Timer, TimerState};
use chrono::NaiveDateTime;
use vstd::prelude::*;
use vstd::string::*;

verus! {

/// How an answer was judged.
#[derive(Clone, Copy, Debug, PartialEq, Eq, Structural)]
pub enum Verdict {
    /// The answer was the displayed character, given after this many
    /// milliseconds.
    Hit(u64),
    /// The answer was another character.
    Miss,
}

/// The state of one practice session. The stopwatch times the character
/// that is on display.
#[derive(Debug)]
pub struct Session {
    pub stats: Stats,
    pub timer: Timer,
}

/// The verdict on `typed` as an answer to the character `wanted`, when the
/// stopwatch is in state `timer` and the clock reads `now`: none for an empty
/// answer, else by the first character of the answer.
pub open spec fn verdict_on(wanted: u8, typed: Seq<char>, timer: TimerState, now: u64) -> Option<
    Verdict,
> {
    if typed.len() == 0 {
        None
    } else if typed[0] == wanted as char {
        Some(Verdict::Hit(timer.stopped(now).elapsed_at(now)))
    } else {
        Some(Verdict::Miss)
    }
}

/// The log after an answer to the character `wanted` was judged as `verdict`
/// and stamped with `timestamp`.
pub open spec fn log_after(
    log: AttemptLog,
    wanted: u8,
    timestamp: NaiveDateTime,
    verdict: Option<Verdict>,
) -> AttemptLog {
    match verdict {
        None => log,
        Some(Verdict::Hit(reaction_time)) => with_attempt(
            log,
            wanted,
            HitType::Hit(timestamp, reaction_time),
        ),
        Some(Verdict::Miss) => with_attempt(log, wanted, HitType::Miss(timestamp)),
    }
}

impl Session {
    /// A session without attempts, its stopwatch running from the clock
    /// reading `now`.
    pub fn new_session(now: u64) -> (session: Session)
        ensures
            session.stats@ == Map::<u8, Seq<HitType>>::empty(),
            session.timer@ == TimerState::Running(now),
    {
        Session { stats: Stats::new(), timer: Timer::new_started(now) }
    }

    /// Stops the stopwatch at the clock reading `now` and returns the
    /// milliseconds on it.
    pub fn stop_timer(&mut self, now: u64) -> (elapsed: u64)
        ensures
            final(self).timer@ == old(self).timer@.stopped(now),
            final(self).stats@ == old(self).stats@,
            elapsed == final(self).timer@.elapsed_at(now),
    {
        self.timer.stop(now);
        self.timer.elapsed_ms(now)
    }

    /// The milliseconds on the stopwatch when the clock reads `now`.
    pub fn elapsed_timer(&self, now: u64) -> (elapsed: u64)
        ensures
            elapsed == self.timer@.elapsed_at(now),
    {
        self.timer.elapsed_ms(now)
    }

    /// Judges `typed` as an answer to the displayed character `wanted`, given
    /// at `timestamp` when the clock reads `now`.
    ///
    /// An empty answer is no attempt and changes nothing. Otherwise the first
    /// character of the answer decides: if it is the displayed one, the
    /// stopwatch is stopped and a hit with the time on it is recorded; if it
    /// is another, a miss is recorded. Either way the stopwatch is then
    /// restarted for the next attempt.
    pub fn check_result(
        &mut self,
        wanted: AsciiChars,
        typed: &str,
        timestamp: NaiveDateTime,
        now: u64,
    ) -> (verdict: Option<Verdict>)
        ensures
            verdict == verdict_on(wanted@, typed@, old(self).timer@, now),
            final(self).stats@ == log_after(old(self).stats@, wanted@, timestamp, verdict),
            verdict is Some ==> final(self).timer@ == TimerState::Running(now),
            verdict is None ==> final(self).timer@ == old(self).timer@,
    {
        if typed.is_empty() {
            return None;
        }
        let verdict = if typed.get_char(0) == wanted.as_char() {
            let reaction_time = self.stop_timer(now);
            self.stats.add_hit(wanted, timestamp, reaction_time);
            Verdict::Hit(reaction_time)
        } else {
            self.stats.add_miss(wanted, timestamp);
            Verdict::Miss
        };
        self.timer.restart(now);
        Some(verdict)
    }

    /// Forgets every attempt and restarts the stopwatch at the clock reading
    /// `now`.
    pub fn reset_stats(&mut self, now: u64)
        ensures
            final(self).stats@ == Map::<u8, Seq<HitType>>::empty(),
            final(self).timer@ == TimerState::Running(now),
    {
        self.stats.reset();
        self.timer.restart(now);
    }
}

} // verus!
