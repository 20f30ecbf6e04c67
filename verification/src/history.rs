//! What a history of attempts amounts to: the arithmetic behind the
//! summaries and the totals, stated over sequences and maps.

use crate::stats::{HitType, StatSummary};
use vstd::prelude::*;

verus! {

/// The reaction times of the hits in `history`, in the order they were made.
pub open spec fn hit_times(history: Seq<HitType>) -> Seq<u64> {
    history.filter_map(|attempt: HitType| attempt.reaction_time())
}

/// The smallest of `times`, or 0 when there is none.
pub open spec fn least_time(times: Seq<u64>) -> u64
    decreases times.len(),
{
    if times.len() == 0 {
        0
    } else if times.len() == 1 {
        times.last()
    } else {
        let earlier = least_time(times.drop_last());
        if times.last() < earlier {
            times.last()
        } else {
            earlier
        }
    }
}

/// The largest of `times`, or 0 when there is none.
pub open spec fn greatest_time(times: Seq<u64>) -> u64
    decreases times.len(),
{
    if times.len() == 0 {
        0
    } else {
        let earlier = greatest_time(times.drop_last());
        if times.last() > earlier {
            times.last()
        } else {
            earlier
        }
    }
}

/// The sum of `times`.
pub open spec fn total_time(times: Seq<u64>) -> nat
    decreases times.len(),
{
    if times.len() == 0 {
        0
    } else {
        total_time(times.drop_last()) + times.last() as nat
    }
}

/// The mean of `times` rounded down, or 0 when there is none.
pub open spec fn mean_time(times: Seq<u64>) -> nat {
    if times.len() == 0 {
        0
    } else {
        total_time(times) / times.len()
    }
}

/// The summary of the attempts in `history`.
pub open spec fn summary_of(history: Seq<HitType>) -> StatSummary {
    let times = hit_times(history);
    StatSummary {
        total_hits: times.len() as usize,
        total_misses: (history.len() - times.len()) as usize,
        hit_low: least_time(times),
        hit_high: greatest_time(times),
        hit_avg: mean_time(times) as u64,
    }
}

/// Taking one more attempt into account appends its reaction time if it is a
/// hit and changes nothing if it is a miss.
pub proof fn lemma_hit_times_push(history: Seq<HitType>, attempt: HitType)
    ensures
        attempt.reaction_time() matches Some(reaction_time) ==> hit_times(history.push(attempt))
            == hit_times(history).push(reaction_time),
        attempt.reaction_time() is None ==> hit_times(history.push(attempt)) == hit_times(
            history,
        ),
{
    assert(history.push(attempt).drop_last() =~= history);
}

/// A history holds no more hits than attempts.
pub proof fn lemma_hit_times_len(history: Seq<HitType>)
    ensures
        hit_times(history).len() <= history.len(),
    decreases history.len(),
{
    if history.len() > 0 {
        lemma_hit_times_len(history.drop_last());
    }
}

/// No time exceeds `u64::MAX`, so neither does their mean.
pub proof fn lemma_total_time_bound(times: Seq<u64>)
    ensures
        total_time(times) <= times.len() * u64::MAX,
        mean_time(times) <= u64::MAX,
    decreases times.len(),
{
    if times.len() > 0 {
        lemma_total_time_bound(times.drop_last());
        assert(total_time(times) <= times.len() * u64::MAX) by (nonlinear_arith)
            requires
                total_time(times) == total_time(times.drop_last()) + times.last() as nat,
                total_time(times.drop_last()) <= (times.len() - 1) * u64::MAX,
                times.last() <= u64::MAX,
        ;
        assert(total_time(times) / times.len() <= u64::MAX) by (nonlinear_arith)
            requires
                total_time(times) <= times.len() * u64::MAX,
                times.len() > 0,
        ;
    }
}

/// The fastest hit is one of the hits, and none is faster.
pub proof fn lemma_least_time(times: Seq<u64>)
    requires
        times.len() > 0,
    ensures
        times.contains(least_time(times)),
        forall|i: int| 0 <= i < times.len() ==> least_time(times) <= #[trigger] times[i],
    decreases times.len(),
{
    if times.len() > 1 {
        let earlier = times.drop_last();
        lemma_least_time(earlier);
        assert forall|i: int| 0 <= i < times.len() implies least_time(times)
            <= #[trigger] times[i] by {
            if i < earlier.len() {
                assert(earlier[i] == times[i]);
            }
        }
    }
}

/// The slowest hit is one of the hits, and none is slower.
pub proof fn lemma_greatest_time(times: Seq<u64>)
    requires
        times.len() > 0,
    ensures
        times.contains(greatest_time(times)),
        forall|i: int| 0 <= i < times.len() ==> greatest_time(times) >= #[trigger] times[i],
    decreases times.len(),
{
    if times.len() > 1 {
        let earlier = times.drop_last();
        lemma_greatest_time(earlier);
        assert forall|i: int| 0 <= i < times.len() implies greatest_time(times)
            >= #[trigger] times[i] by {
            if i < earlier.len() {
                assert(earlier[i] == times[i]);
            }
        }
    } else {
        assert(greatest_time(times.drop_last()) == 0);
    }
}

/// The mean reaction time lies between the fastest and the slowest.
pub proof fn lemma_mean_time_between(times: Seq<u64>)
    requires
        times.len() > 0,
    ensures
        least_time(times) <= mean_time(times) <= greatest_time(times),
{
    let n = times.len();
    let sum = total_time(times);
    let low = least_time(times) as nat;
    let high = greatest_time(times) as nat;
    lemma_least_time(times);
    lemma_greatest_time(times);
    lemma_times_sum_between(times, low, high);
    assert(low <= sum / n <= high) by (nonlinear_arith)
        requires
            n > 0,
            n * low <= sum <= n * high,
    ;
}

/// A sum of times that are all at least `low` and at most `high`.
proof fn lemma_times_sum_between(times: Seq<u64>, low: nat, high: nat)
    requires
        forall|i: int| 0 <= i < times.len() ==> low <= #[trigger] times[i] <= high,
    ensures
        times.len() * low <= total_time(times) <= times.len() * high,
    decreases times.len(),
{
    if times.len() > 0 {
        let earlier = times.drop_last();
        assert forall|i: int| 0 <= i < earlier.len() implies low <= #[trigger] earlier[i]
            <= high by {
        }
        lemma_times_sum_between(earlier, low, high);
        let n = times.len();
        let last = times.last() as nat;
        let rest = total_time(earlier);
        assert(n * low <= rest + last <= n * high) by (nonlinear_arith)
            requires
                n > 0,
                (n - 1) * low <= rest <= (n - 1) * high,
                low <= last <= high,
        ;
    }
}

/// Without attempts there is nothing to sum up: every field of the summary
/// is zero.
pub proof fn lemma_summary_of_nothing()
    ensures
        summary_of(Seq::<HitType>::empty()) == (StatSummary {
            total_hits: 0,
            total_misses: 0,
            hit_low: 0,
            hit_high: 0,
            hit_avg: 0,
        }),
{
}

/// Every attempt is a hit or a miss: the summary's two counts add up to the
/// length of the history.
pub proof fn lemma_summary_counts(history: Seq<HitType>)
    requires
        history.len() <= usize::MAX,
    ensures
        summary_of(history).total_hits + summary_of(history).total_misses == history.len(),
{
    lemma_hit_times_len(history);
}

/// The history of every character that has been attempted: the view of a
/// [`Stats`]. A character without attempts has no entry.
pub type AttemptLog = Map<u8, Seq<HitType>>;

/// The attempts that `log` holds for the character `code`, oldest first.
pub open spec fn history_of(log: AttemptLog, code: u8) -> Seq<HitType> {
    if log.contains_key(code) {
        log[code]
    } else {
        Seq::empty()
    }
}

/// `log` after one more attempt at the character `code`.
pub open spec fn with_attempt(log: AttemptLog, code: u8, attempt: HitType) -> AttemptLog {
    log.insert(code, history_of(log, code).push(attempt))
}

/// The number of hits that `log` holds for characters with a code below `bound`.
pub open spec fn hits_below(log: AttemptLog, bound: int) -> nat
    decreases bound,
{
    if bound <= 0 {
        0
    } else {
        hits_below(log, bound - 1) + hit_times(history_of(log, (bound - 1) as u8)).len()
    }
}

/// The number of misses that `log` holds for characters with a code below `bound`.
pub open spec fn misses_below(log: AttemptLog, bound: int) -> nat
    decreases bound,
{
    if bound <= 0 {
        0
    } else {
        let history = history_of(log, (bound - 1) as u8);
        misses_below(log, bound - 1) + (history.len() - hit_times(history).len()) as nat
    }
}

/// The number of hits in `log`, over all characters.
pub open spec fn total_hits(log: AttemptLog) -> nat {
    hits_below(log, 256)
}

/// The number of misses in `log`, over all characters.
pub open spec fn total_misses(log: AttemptLog) -> nat {
    misses_below(log, 256)
}

/// `count` as a `usize`, or `usize::MAX` where it does not fit.
pub open spec fn saturated(count: nat) -> usize {
    if count <= usize::MAX {
        count as usize
    } else {
        usize::MAX
    }
}

/// 1 if `happened`, else 0.
pub open spec fn counted(happened: bool) -> nat {
    if happened {
        1
    } else {
        0
    }
}

/// Characters without attempts add nothing to the counts.
pub proof fn lemma_counts_skip_unattempted(log: AttemptLog, from: int, to: int)
    requires
        0 <= from <= to <= 256,
        forall|code: u8| from <= code < to ==> (#[trigger] history_of(log, code)).len() == 0,
    ensures
        hits_below(log, to) == hits_below(log, from),
        misses_below(log, to) == misses_below(log, from),
    decreases to - from,
{
    if from < to {
        lemma_counts_skip_unattempted(log, from, to - 1);
    }
}

/// An attempt is appended to the history of its character and to no other.
pub proof fn lemma_attempt_extends_one_history(
    log: AttemptLog,
    code: u8,
    attempt: HitType,
    other_code: u8,
)
    ensures
        history_of(with_attempt(log, code, attempt), code) == history_of(log, code).push(attempt),
        other_code != code ==> history_of(with_attempt(log, code, attempt), other_code)
            == history_of(log, other_code),
{
}

/// What one more attempt at the character `code` does to the counts over the
/// characters below `bound`: it is counted once if `code` is among them.
proof fn lemma_counts_below_with_attempt(log: AttemptLog, code: u8, attempt: HitType, bound: int)
    requires
        0 <= bound <= 256,
    ensures
        hits_below(with_attempt(log, code, attempt), bound) + misses_below(
            with_attempt(log, code, attempt),
            bound,
        ) == hits_below(log, bound) + misses_below(log, bound) + counted(code < bound),
        hits_below(with_attempt(log, code, attempt), bound) == hits_below(log, bound) + counted(
            code < bound && attempt is Hit,
        ),
    decreases bound,
{
    if bound > 0 {
        lemma_counts_below_with_attempt(log, code, attempt, bound - 1);
        if (bound - 1) as u8 == code {
            lemma_hit_times_push(history_of(log, code), attempt);
            lemma_hit_times_len(history_of(log, code));
        }
    }
}

/// Recording a hit raises the number of hits by one and leaves the number of
/// misses alone; recording a miss does the opposite.
pub proof fn lemma_attempt_counted_once(log: AttemptLog, code: u8, attempt: HitType)
    ensures
        total_hits(with_attempt(log, code, attempt)) == total_hits(log) + counted(attempt is Hit),
        total_misses(with_attempt(log, code, attempt)) == total_misses(log) + counted(
            attempt is Miss,
        ),
{
    lemma_counts_below_with_attempt(log, code, attempt, 256);
}

/// The log that results from recording `attempts`, each with the code of its
/// character, one after the other into an empty log.
pub open spec fn replay(attempts: Seq<(u8, HitType)>) -> AttemptLog
    decreases attempts.len(),
{
    if attempts.len() == 0 {
        Map::empty()
    } else {
        with_attempt(replay(attempts.drop_last()), attempts.last().0, attempts.last().1)
    }
}

/// An empty log holds no hits and no misses, and no history for any
/// character.
pub proof fn lemma_empty_log()
    ensures
        total_hits(Map::<u8, Seq<HitType>>::empty()) == 0,
        total_misses(Map::<u8, Seq<HitType>>::empty()) == 0,
        forall|code: u8| #[trigger]
            history_of(Map::<u8, Seq<HitType>>::empty(), code) == Seq::<HitType>::empty(),
{
    lemma_counts_skip_unattempted(Map::<u8, Seq<HitType>>::empty(), 0, 256);
}

/// Whatever was recorded since the log was empty, and in whatever order: the
/// hits and the misses together are as many as the attempts recorded.
pub proof fn lemma_every_attempt_counted(attempts: Seq<(u8, HitType)>)
    ensures
        total_hits(replay(attempts)) + total_misses(replay(attempts)) == attempts.len(),
    decreases attempts.len(),
{
    if attempts.len() == 0 {
        lemma_empty_log();
    } else {
        lemma_every_attempt_counted(attempts.drop_last());
        lemma_attempt_counted_once(
            replay(attempts.drop_last()),
            attempts.last().0,
            attempts.last().1,
        );
    }
}

/// Attempts at different characters can be recorded in either order: the
/// resulting log is the same.
pub proof fn lemma_attempts_commute(
    log: AttemptLog,
    code: u8,
    attempt: HitType,
    other_code: u8,
    other_attempt: HitType,
)
    requires
        code != other_code,
    ensures
        with_attempt(with_attempt(log, code, attempt), other_code, other_attempt) == with_attempt(
            with_attempt(log, other_code, other_attempt),
            code,
            attempt,
        ),
{
}

} // verus!
