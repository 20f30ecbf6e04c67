//! The attempt log of one practice session and what is derived from it.

use crate::ascii_chars::{is_supported_code, AsciiChars, FIRST_CODE, LAST_CODE};
use crate::history::{
    greatest_time, hit_times, history_of, hits_below, least_time, lemma_attempt_counted_once,
    lemma_counts_skip_unattempted, lemma_hit_times_len, lemma_hit_times_push, lemma_total_time_bound, misses_below, saturated,
    summary_of, total_hits, total_misses, total_time, with_attempt, AttemptLog,
};
use crate::report::{
    html_document, lemma_rows_in_order, lemma_rows_skip_unattempted, report_text, row_views, rows_below, rows_of,
    ReportRow,
};
use chrono::NaiveDateTime;
use std::collections::HashMap;
use vstd::prelude::*;

verus! {

broadcast use vstd::std_specs::hash::group_hash_axioms;

/// `chrono::NaiveDateTime`, the wall-clock moment at which an attempt was
/// made. The log stores it and hands it back; nothing here looks inside.
#[verifier::external_type_specification]
#[verifier::external_body]
pub struct ExNaiveDateTime(chrono::NaiveDateTime);

/// The outcome of one attempt at a displayed character.
#[derive(Debug, PartialOrd, PartialEq)]
pub enum HitType {
    /// Hit with a timestamp and the reaction time in milliseconds
    Hit(NaiveDateTime, u64),
    /// Miss with a timestamp
    Miss(NaiveDateTime),
}

impl HitType {
    /// The reaction time of a hit; a miss has none.
    pub open spec fn reaction_time(self) -> Option<u64> {
        match self {
            HitType::Hit(_, reaction_time) => Some(reaction_time),
            HitType::Miss(_) => None,
        }
    }
}

/// The attempts made at one character, oldest first.
#[derive(Debug)]
pub struct StatRecord {
    pub char_id: AsciiChars,
    pub results: Vec<HitType>,
}

/// What the attempts at one character add up to. Times are in milliseconds
/// and are all zero when there was no hit.
#[derive(Clone, Copy, Debug, PartialEq, Eq, Structural)]
pub struct StatSummary {
    pub total_hits: usize,
    pub total_misses: usize,
    pub hit_low: u64,
    pub hit_high: u64,
    pub hit_avg: u64,
}

impl StatRecord {
    /// Counts the hits and misses of this record and finds the fastest, the
    /// slowest and the mean reaction time of its hits.
    pub fn summary(&self) -> (summary: StatSummary)
        ensures
            summary == summary_of(self.results@),
            summary.total_hits == hit_times(self.results@).len(),
            summary.total_hits + summary.total_misses == self.results@.len(),
    {
        let mut total_hits: usize = 0;
        let mut hit_low: u64 = 0;
        let mut hit_high: u64 = 0;
        let mut hit_sum: u128 = 0;
        let mut i: usize = 0;
        while i < self.results.len()
            invariant
                i <= self.results.len(),
                total_hits == hit_times(self.results@.take(i as int)).len(),
                hit_low == least_time(hit_times(self.results@.take(i as int))),
                hit_high == greatest_time(hit_times(self.results@.take(i as int))),
                hit_sum == total_time(hit_times(self.results@.take(i as int))),
                hit_sum <= total_hits * u64::MAX,
            decreases self.results.len() - i,
        {
            proof {
                let seen = self.results@.take(i as int);
                assert(self.results@.take(i + 1) =~= seen.push(self.results@[i as int]));
                lemma_hit_times_push(seen, self.results@[i as int]);
                lemma_hit_times_len(seen);
                lemma_total_time_bound(hit_times(self.results@.take(i + 1)));
            }
            match &self.results[i] {
                HitType::Hit(_, reaction_time) => {
                    proof {
                        let times = hit_times(self.results@.take(i as int));
                        assert(times.push(*reaction_time).drop_last() =~= times);
                    }
                    if total_hits == 0 || *reaction_time < hit_low {
                        hit_low = *reaction_time;
                    }
                    if *reaction_time > hit_high {
                        hit_high = *reaction_time;
                    }
                    assert(hit_sum + *reaction_time <= u128::MAX) by (nonlinear_arith)
                        requires
                            hit_sum <= total_hits * u64::MAX,
                            total_hits <= usize::MAX,
                            *reaction_time <= u64::MAX,
                            usize::MAX <= u64::MAX,
                    ;
                    hit_sum = hit_sum + *reaction_time as u128;
                    total_hits = total_hits + 1;
                },
                HitType::Miss(_) => {},
            }
            i = i + 1;
        }
        proof {
            assert(self.results@.take(i as int) =~= self.results@);
            lemma_total_time_bound(hit_times(self.results@));
            lemma_hit_times_len(self.results@);
        }
        let hit_avg: u64 = if total_hits > 0 {
            (hit_sum / total_hits as u128) as u64
        } else {
            0
        };
        StatSummary {
            total_hits,
            total_misses: self.results.len() - total_hits,
            hit_low,
            hit_high,
            hit_avg,
        }
    }
}

/// The attempt log of one session, keyed by character.
#[derive(Debug)]
pub struct Stats {
    records: HashMap<u8, StatRecord>,
}

impl View for Stats {
    type V = AttemptLog;

    closed spec fn view(&self) -> AttemptLog {
        Map::new(
            |code: u8| self.records@.contains_key(code),
            |code: u8| self.records@[code].results@,
        )
    }
}

impl Stats {
    /// Every record is filed under the code of its own, supported, character
    /// and holds at least one attempt.
    #[verifier::type_invariant]
    spec fn well_formed(self) -> bool {
        forall|code: u8| #[trigger]
            self.records@.contains_key(code) ==> {
                &&& is_supported_code(code as int)
                &&& self.records@[code].char_id@ == code
                &&& self.records@[code].results@.len() > 0
            }
    }

    /// A store without attempts.
    pub fn new() -> (stats: Stats)
        ensures
            stats@ == Map::<u8, Seq<HitType>>::empty(),
    {
        let stats = Stats { records: HashMap::new() };
        stats
    }

    /// Appends `attempt` to the history of `char_id`, which is created if the
    /// character has none yet.
    fn add_attempt(&mut self, char_id: AsciiChars, attempt: HitType)
        ensures
            final(self)@ == with_attempt(old(self)@, char_id@, attempt),
    {
        proof {
            use_type_invariant(&*self);
            use_type_invariant(&char_id);
        }
        let mut records = HashMap::new();
        std::mem::swap(&mut records, &mut self.records);
        let record = records.entry(char_id.code()).or_insert(
            StatRecord { char_id, results: Vec::new() },
        );
        record.results.push(attempt);
        self.records = records;
    }

    /// Records a correct answer to `char_id`, given after `reaction_time`
    /// milliseconds. The count of hits goes up by one, also as
    /// [`Stats::get_total_hit_count`] returns it, unless that is at the
    /// largest `usize` already; the count of misses stays.
    pub fn add_hit(&mut self, char_id: AsciiChars, timestamp: NaiveDateTime, reaction_time: u64)
        ensures
            final(self)@ == with_attempt(
                old(self)@,
                char_id@,
                HitType::Hit(timestamp, reaction_time),
            ),
            total_hits(final(self)@) == total_hits(old(self)@) + 1,
            total_misses(final(self)@) == total_misses(old(self)@),
            total_hits(old(self)@) < usize::MAX ==> saturated(total_hits(final(self)@))
                == saturated(total_hits(old(self)@)) + 1,
            saturated(total_misses(final(self)@)) == saturated(total_misses(old(self)@)),
    {
        proof {
            lemma_attempt_counted_once(self@, char_id@, HitType::Hit(timestamp, reaction_time));
        }
        self.add_attempt(char_id, HitType::Hit(timestamp, reaction_time));
    }

    /// Records a wrong answer to `char_id`. The count of misses goes up by
    /// one, also as [`Stats::get_total_miss_count`] returns it, unless that
    /// is at the largest `usize` already; the count of hits stays.
    pub fn add_miss(&mut self, char_id: AsciiChars, timestamp: NaiveDateTime)
        ensures
            final(self)@ == with_attempt(old(self)@, char_id@, HitType::Miss(timestamp)),
            total_hits(final(self)@) == total_hits(old(self)@),
            total_misses(final(self)@) == total_misses(old(self)@) + 1,
            saturated(total_hits(final(self)@)) == saturated(total_hits(old(self)@)),
            total_misses(old(self)@) < usize::MAX ==> saturated(total_misses(final(self)@))
                == saturated(total_misses(old(self)@)) + 1,
    {
        proof {
            lemma_attempt_counted_once(self@, char_id@, HitType::Miss(timestamp));
        }
        self.add_attempt(char_id, HitType::Miss(timestamp));
    }

    /// Forgets every attempt.
    pub fn reset(&mut self)
        ensures
            final(self)@ == Map::<u8, Seq<HitType>>::empty(),
    {
        self.records = HashMap::new();
    }

    /// The records of all characters that have been attempted, by code.
    pub fn get_records(&self) -> (records: &HashMap<u8, StatRecord>)
        ensures
            forall|code: u8|
                records@.contains_key(code) <==> (#[trigger] history_of(self@, code)).len() > 0,
            forall|code: u8| #[trigger]
                records@.contains_key(code) ==> is_supported_code(code as int),
            forall|code: u8| #[trigger]
                records@.contains_key(code) ==> records@[code].char_id@ == code,
            forall|code: u8| #[trigger]
                records@.contains_key(code) ==> records@[code].results@ == history_of(self@, code),
    {
        proof {
            use_type_invariant(self);
        }
        &self.records
    }

    /// The record of `char_id`, if that character has been attempted.
    pub fn get_record(&self, char_id: &AsciiChars) -> (record: Option<&StatRecord>)
        ensures
            record is Some <==> history_of(self@, char_id@).len() > 0,
            record matches Some(found) ==> found.char_id@ == char_id@,
            record matches Some(found) ==> found.results@ == history_of(self@, char_id@),
    {
        proof {
            use_type_invariant(self);
        }
        self.records.get(&char_id.code())
    }

    /// The summary of `char_id`. It is always there: a character that has
    /// not been attempted has the summary of no attempts, all zero.
    pub fn get_char_stats(&self, char_id: &AsciiChars) -> (summary: Option<StatSummary>)
        ensures
            summary == Some(summary_of(history_of(self@, char_id@))),
            history_of(self@, char_id@).len() == 0 ==> summary == Some(
                StatSummary { total_hits: 0, total_misses: 0, hit_low: 0, hit_high: 0, hit_avg: 0 },
            ),
    {
        Some(self.summary_for(char_id))
    }

    /// The summary of `char_id`: all zero if that character has not been
    /// attempted.
    pub fn summary_for(&self, char_id: &AsciiChars) -> (summary: StatSummary)
        ensures
            summary == summary_of(history_of(self@, char_id@)),
            history_of(self@, char_id@).len() == 0 ==> summary == (StatSummary {
                total_hits: 0,
                total_misses: 0,
                hit_low: 0,
                hit_high: 0,
                hit_avg: 0,
            }),
    {
        match self.get_record(char_id) {
            Some(record) => record.summary(),
            None => StatSummary {
                total_hits: 0,
                total_misses: 0,
                hit_low: 0,
                hit_high: 0,
                hit_avg: 0,
            },
        }
    }

    /// The number of hits over all characters; `usize::MAX` if there are more.
    pub fn get_total_hit_count(&self) -> (count: usize)
        ensures
            count == saturated(total_hits(self@)),
    {
        proof {
            use_type_invariant(self);
            lemma_counts_skip_unattempted(self@, 0, FIRST_CODE as int);
            lemma_counts_skip_unattempted(self@, LAST_CODE + 1, 256);
        }
        let mut count: usize = 0;
        let mut code: u8 = FIRST_CODE;
        while code <= LAST_CODE
            invariant
                FIRST_CODE <= code <= LAST_CODE + 1,
                count == saturated(hits_below(self@, code as int)),
            decreases LAST_CODE + 1 - code,
        {
            proof {
                use_type_invariant(self);
                lemma_hit_times_len(history_of(self@, code));
            }
            match self.records.get(&code) {
                Some(record) => {
                    count = count.saturating_add(record.summary().total_hits);
                },
                None => {
                },
            }
            code = code + 1;
        }
        count
    }

    /// The number of misses over all characters; `usize::MAX` if there are
    /// more.
    pub fn get_total_miss_count(&self) -> (count: usize)
        ensures
            count == saturated(total_misses(self@)),
    {
        proof {
            use_type_invariant(self);
            lemma_counts_skip_unattempted(self@, 0, FIRST_CODE as int);
            lemma_counts_skip_unattempted(self@, LAST_CODE + 1, 256);
        }
        let mut count: usize = 0;
        let mut code: u8 = FIRST_CODE;
        while code <= LAST_CODE
            invariant
                FIRST_CODE <= code <= LAST_CODE + 1,
                count == saturated(misses_below(self@, code as int)),
            decreases LAST_CODE + 1 - code,
        {
            proof {
                use_type_invariant(self);
                lemma_hit_times_len(history_of(self@, code));
            }
            match self.records.get(&code) {
                Some(record) => {
                    count = count.saturating_add(record.summary().total_misses);
                },
                None => {
                },
            }
            code = code + 1;
        }
        count
    }

    /// The rows of the report: one for each character that has been
    /// attempted, by rising code, with the summary of its attempts.
    pub fn report_rows(&self) -> (rows: Vec<ReportRow>)
        ensures
            row_views(rows@) == rows_of(self@),
            forall|i: int, j: int|
                0 <= i < j < rows.len() ==> (#[trigger] rows[i]).char_id@ < (
                #[trigger] rows[j]).char_id@,
    {
        proof {
            use_type_invariant(self);
            lemma_rows_skip_unattempted(self@, 0, FIRST_CODE as int);
            lemma_rows_skip_unattempted(self@, LAST_CODE + 1, 256);
        }
        let mut rows: Vec<ReportRow> = Vec::new();
        let mut code: u8 = FIRST_CODE;
        while code <= LAST_CODE
            invariant
                FIRST_CODE <= code <= LAST_CODE + 1,
                row_views(rows@) == rows_below(self@, code as int),
            decreases LAST_CODE + 1 - code,
        {
            proof {
                use_type_invariant(self);
            }
            match self.records.get(&code) {
                Some(record) => {
                    rows.push(ReportRow { char_id: record.char_id, summary: record.summary() });
                },
                None => {},
            }
            code = code + 1;
        }
        proof {
            lemma_rows_in_order(self@);
        }
        assert forall|i: int, j: int| 0 <= i < j < rows.len() implies (#[trigger] rows[i]).char_id@
            < (#[trigger] rows[j]).char_id@ by {
            assert(rows_of(self@)[i] == rows[i]@);
            assert(rows_of(self@)[j] == rows[j]@);
        }
        rows
    }

    /// The report as a self-contained HTML document: a table with one row
    /// for each character that has been attempted, by rising code.
    pub fn generate_html_report(&self) -> (html: String)
        ensures
            html@ == report_text(self@),
    {
        let rows = self.report_rows();
        html_document(&rows)
    }
}

} // verus!
