use chrono::{NaiveDate, NaiveDateTime};
use typing_practice::ascii_chars::AsciiChars;
use typing_practice::report::{html_document, ReportRow, REPORT_HEAD, REPORT_TAIL};
use typing_practice::stats::{HitType, StatRecord, StatSummary, Stats};

fn ch(c: char) -> AsciiChars {
    AsciiChars::from_char(c).unwrap()
}

fn at(second: u32) -> NaiveDateTime {
    NaiveDate::from_ymd_opt(2024, 5, 17).unwrap().and_hms_opt(9, 30, second).unwrap()
}

const NOTHING: StatSummary =
    StatSummary { total_hits: 0, total_misses: 0, hit_low: 0, hit_high: 0, hit_avg: 0 };

#[test]
fn new_store_is_empty() {
    let stats = Stats::new();
    assert_eq!(stats.get_total_hit_count(), 0);
    assert_eq!(stats.get_total_miss_count(), 0);
    assert!(stats.get_records().is_empty());
    assert!(stats.report_rows().is_empty());
    assert_eq!(stats.generate_html_report(), format!("{}{}", REPORT_HEAD, REPORT_TAIL));
}

#[test]
fn totals_count_every_recorded_attempt() {
    let mut stats = Stats::new();
    let mut calls = 0;
    for (i, c) in AsciiChars::list().iter().enumerate() {
        for k in 0..(i % 4) {
            if (i + k) % 3 == 0 {
                stats.add_miss(*c, at(k as u32));
            } else {
                stats.add_hit(*c, at(k as u32), (10 * i + k) as u64);
            }
            calls += 1;
            assert_eq!(stats.get_total_hit_count() + stats.get_total_miss_count(), calls);
        }
    }
    assert!(calls > 100);
}

#[test]
fn hits_and_misses_are_counted_apart() {
    let mut stats = Stats::new();
    stats.add_hit(ch('a'), at(0), 120);
    stats.add_miss(ch('a'), at(1));
    stats.add_miss(ch('b'), at(2));
    stats.add_hit(ch('~'), at(3), 80);
    stats.add_hit(ch('!'), at(4), 95);
    assert_eq!(stats.get_total_hit_count(), 3);
    assert_eq!(stats.get_total_miss_count(), 2);
}

#[test]
fn reset_gives_a_fresh_store() {
    let mut stats = Stats::new();
    stats.add_hit(ch('a'), at(0), 120);
    stats.add_miss(ch('b'), at(1));
    stats.reset();
    let fresh = Stats::new();
    assert_eq!(stats.get_total_hit_count(), 0);
    assert_eq!(stats.get_total_hit_count(), fresh.get_total_hit_count());
    assert_eq!(stats.get_total_miss_count(), fresh.get_total_miss_count());
    assert_eq!(stats.get_records().len(), 0);
    assert_eq!(stats.report_rows(), fresh.report_rows());
    assert_eq!(stats.report_rows().len(), 0);
    assert_eq!(stats.generate_html_report(), fresh.generate_html_report());
    assert_eq!(stats.get_char_stats(&ch('a')), Some(NOTHING));
    assert_eq!(stats.get_char_stats(&ch('a')), fresh.get_char_stats(&ch('a')));
    assert_eq!(stats.summary_for(&ch('a')), fresh.summary_for(&ch('a')));
    assert!(stats.get_record(&ch('a')).is_none());
}

#[test]
fn reset_is_idempotent_and_the_store_is_usable_after_it() {
    let mut stats = Stats::new();
    stats.reset();
    stats.add_hit(ch('a'), at(0), 120);
    stats.reset();
    stats.reset();
    assert_eq!(stats.get_total_hit_count(), 0);
    stats.add_miss(ch('a'), at(1));
    assert_eq!(stats.get_total_miss_count(), 1);
    assert_eq!(stats.get_record(&ch('a')).unwrap().results, vec![HitType::Miss(at(1))]);
}

#[test]
fn summary_of_an_unattempted_character_is_all_zero() {
    let mut stats = Stats::new();
    assert_eq!(stats.get_char_stats(&ch('q')), Some(NOTHING));
    assert_eq!(stats.summary_for(&ch('q')), NOTHING);
    stats.add_hit(ch('a'), at(0), 120);
    assert_eq!(stats.summary_for(&ch('q')), NOTHING);
    assert_eq!(stats.get_char_stats(&ch('q')), Some(NOTHING));
}

#[test]
fn summary_of_three_hits() {
    let mut stats = Stats::new();
    stats.add_hit(ch('k'), at(0), 100);
    stats.add_hit(ch('k'), at(1), 300);
    stats.add_hit(ch('k'), at(2), 200);
    let want =
        StatSummary { total_hits: 3, total_misses: 0, hit_low: 100, hit_high: 300, hit_avg: 200 };
    assert_eq!(stats.summary_for(&ch('k')), want);
    assert_eq!(stats.get_char_stats(&ch('k')), Some(want));
}

#[test]
fn summary_with_misses_only_has_zero_times() {
    let mut stats = Stats::new();
    stats.add_miss(ch('k'), at(0));
    stats.add_miss(ch('k'), at(1));
    let want = StatSummary { total_hits: 0, total_misses: 2, hit_low: 0, hit_high: 0, hit_avg: 0 };
    assert_eq!(stats.summary_for(&ch('k')), want);
    assert_eq!(stats.get_char_stats(&ch('k')), Some(want));
}

#[test]
fn misses_do_not_enter_the_times() {
    let mut stats = Stats::new();
    stats.add_miss(ch('k'), at(0));
    stats.add_hit(ch('k'), at(1), 500);
    stats.add_miss(ch('k'), at(2));
    stats.add_hit(ch('k'), at(3), 40);
    stats.add_miss(ch('k'), at(4));
    let want =
        StatSummary { total_hits: 2, total_misses: 3, hit_low: 40, hit_high: 500, hit_avg: 270 };
    assert_eq!(stats.summary_for(&ch('k')), want);
}

#[test]
fn mean_is_rounded_down() {
    let mut stats = Stats::new();
    stats.add_hit(ch('k'), at(0), 1);
    stats.add_hit(ch('k'), at(1), 2);
    assert_eq!(stats.summary_for(&ch('k')).hit_avg, 1);
    stats.add_hit(ch('k'), at(2), 2);
    assert_eq!(stats.summary_for(&ch('k')).hit_avg, 1);
    stats.add_hit(ch('k'), at(3), 3);
    assert_eq!(stats.summary_for(&ch('k')).hit_avg, 2);
}

#[test]
fn a_hit_of_zero_milliseconds_is_the_fastest() {
    let mut stats = Stats::new();
    stats.add_hit(ch('k'), at(0), 70);
    stats.add_hit(ch('k'), at(1), 0);
    let summary = stats.summary_for(&ch('k'));
    assert_eq!((summary.hit_low, summary.hit_high, summary.hit_avg), (0, 70, 35));
}

#[test]
fn the_largest_times_do_not_overflow_the_mean() {
    let mut stats = Stats::new();
    stats.add_hit(ch('k'), at(0), u64::MAX);
    stats.add_hit(ch('k'), at(1), u64::MAX);
    stats.add_hit(ch('k'), at(2), u64::MAX - 3);
    let summary = stats.summary_for(&ch('k'));
    assert_eq!(summary.hit_low, u64::MAX - 3);
    assert_eq!(summary.hit_high, u64::MAX);
    assert_eq!(summary.hit_avg, u64::MAX - 1);
}

#[test]
fn record_summary_reads_the_record_alone() {
    let record = StatRecord {
        char_id: ch('x'),
        results: vec![HitType::Hit(at(0), 9), HitType::Miss(at(1)), HitType::Hit(at(2), 4)],
    };
    assert_eq!(
        record.summary(),
        StatSummary { total_hits: 2, total_misses: 1, hit_low: 4, hit_high: 9, hit_avg: 6 }
    );
    let empty = StatRecord { char_id: ch('x'), results: vec![] };
    assert_eq!(empty.summary(), NOTHING);
}

#[test]
fn history_keeps_the_order_and_the_timestamps() {
    let mut stats = Stats::new();
    stats.add_hit(ch('a'), at(5), 120);
    stats.add_miss(ch('b'), at(6));
    stats.add_miss(ch('a'), at(7));
    stats.add_hit(ch('a'), at(8), 90);
    let record = stats.get_record(&ch('a')).unwrap();
    assert_eq!(record.char_id, ch('a'));
    assert_eq!(
        record.results,
        vec![HitType::Hit(at(5), 120), HitType::Miss(at(7)), HitType::Hit(at(8), 90)]
    );
    assert_eq!(stats.get_record(&ch('b')).unwrap().results, vec![HitType::Miss(at(6))]);
    assert!(stats.get_record(&ch('c')).is_none());
}

#[test]
fn records_are_filed_under_the_character_code() {
    let mut stats = Stats::new();
    stats.add_hit(ch('a'), at(0), 120);
    stats.add_miss(ch('b'), at(1));
    stats.add_miss(ch('a'), at(2));
    let records = stats.get_records();
    assert_eq!(records.len(), 2);
    assert_eq!(records[&b'a'].char_id, ch('a'));
    assert_eq!(records[&b'a'].results.len(), 2);
    assert_eq!(records[&b'b'].char_id, ch('b'));
    assert_eq!(records[&b'b'].results, vec![HitType::Miss(at(1))]);
}

#[test]
fn report_rows_are_in_character_order() {
    let mut stats = Stats::new();
    stats.add_hit(ch('b'), at(0), 10);
    stats.add_hit(ch('a'), at(1), 20);
    let rows = stats.report_rows();
    assert_eq!(rows.len(), 2);
    assert_eq!(rows[0].char_id, ch('a'));
    assert_eq!(rows[1].char_id, ch('b'));
    let html = stats.generate_html_report();
    let a = html.find("<tr><td>a</td>").unwrap();
    let b = html.find("<tr><td>b</td>").unwrap();
    assert!(a < b);
}

#[test]
fn report_does_not_depend_on_the_recording_order() {
    let mut one = Stats::new();
    one.add_hit(ch('b'), at(0), 10);
    one.add_miss(ch('a'), at(1));
    one.add_hit(ch('~'), at(2), 30);
    one.add_hit(ch('!'), at(3), 40);
    let mut other = Stats::new();
    other.add_hit(ch('!'), at(3), 40);
    other.add_hit(ch('~'), at(2), 30);
    other.add_miss(ch('a'), at(1));
    other.add_hit(ch('b'), at(0), 10);
    assert_eq!(one.report_rows(), other.report_rows());
    assert_eq!(one.generate_html_report(), other.generate_html_report());
    let codes: Vec<char> = one.report_rows().iter().map(|row| row.char_id.as_char()).collect();
    assert_eq!(codes, vec!['!', 'a', 'b', '~']);
}

#[test]
fn report_has_one_row_per_attempted_character() {
    let mut stats = Stats::new();
    for c in AsciiChars::list() {
        if c.code() % 5 == 0 {
            stats.add_miss(c, at(0));
            stats.add_hit(c, at(1), c.code() as u64);
        }
    }
    let rows = stats.report_rows();
    let want: Vec<AsciiChars> =
        AsciiChars::list().iter().copied().filter(|c| c.code() % 5 == 0).collect();
    assert_eq!(rows.len(), want.len());
    for (row, c) in rows.iter().zip(want.iter()) {
        assert_eq!(row.char_id, *c);
        assert_eq!(row.summary, stats.summary_for(c));
        assert_eq!(row.summary.total_hits, 1);
        assert_eq!(row.summary.total_misses, 1);
    }
    assert_eq!(stats.generate_html_report().matches("<tr><td>").count(), want.len());
}

#[test]
fn report_text_is_exact() {
    let mut stats = Stats::new();
    stats.add_hit(ch('b'), at(0), 100);
    stats.add_hit(ch('b'), at(1), 300);
    stats.add_hit(ch('b'), at(2), 200);
    stats.add_miss(ch('b'), at(3));
    stats.add_miss(ch('A'), at(4));
    let want = "<html><body><h1>Stats Report</h1><table border='1'>\
<tr><th>Character</th><th>Hits</th><th>LowMS</th><th>HighMS</th><th>AvgMS</th><th>Misses</th></tr>\
<tr><td>A</td><td>0</td><td>0</td><td>0</td><td>0</td><td>1</td></tr>\
<tr><td>b</td><td>3</td><td>100</td><td>300</td><td>200</td><td>1</td></tr>\
</table></body></html>";
    assert_eq!(stats.generate_html_report(), want);
}

#[test]
fn document_shows_rows_as_given() {
    let rows = vec![
        ReportRow {
            char_id: ch('z'),
            summary: StatSummary {
                total_hits: 12,
                total_misses: 3,
                hit_low: 4,
                hit_high: 5006,
                hit_avg: 78,
            },
        },
        ReportRow { char_id: ch('<'), summary: NOTHING },
    ];
    let want = format!(
        "{}<tr><td>z</td><td>12</td><td>4</td><td>5006</td><td>78</td><td>3</td></tr>\
<tr><td><</td><td>0</td><td>0</td><td>0</td><td>0</td><td>0</td></tr>{}",
        REPORT_HEAD, REPORT_TAIL
    );
    assert_eq!(html_document(&rows), want);
    let mut line = String::from("x");
    rows[0].push_html(&mut line);
    assert_eq!(line, "x<tr><td>z</td><td>12</td><td>4</td><td>5006</td><td>78</td><td>3</td></tr>");
}

#[test]
fn summary_query_is_defined_for_every_character() {
    let mut stats = Stats::new();
    stats.add_hit(ch('m'), at(0), 50);
    stats.add_miss(ch('n'), at(1));
    for c in AsciiChars::list() {
        let summary = stats.get_char_stats(&c);
        assert_eq!(summary, Some(stats.summary_for(&c)));
        if c != ch('m') && c != ch('n') {
            assert_eq!(summary, Some(NOTHING));
        }
    }
}

#[test]
fn each_record_call_raises_its_own_count_by_one() {
    let mut stats = Stats::new();
    for (i, c) in AsciiChars::list().iter().enumerate() {
        let hits = stats.get_total_hit_count();
        let misses = stats.get_total_miss_count();
        if i % 2 == 0 {
            stats.add_hit(*c, at(0), i as u64);
            assert_eq!(stats.get_total_hit_count(), hits + 1);
            assert_eq!(stats.get_total_miss_count(), misses);
        } else {
            stats.add_miss(*c, at(0));
            assert_eq!(stats.get_total_hit_count(), hits);
            assert_eq!(stats.get_total_miss_count(), misses + 1);
        }
    }
}

#[test]
fn records_are_kept_for_supported_characters_only() {
    let mut stats = Stats::new();
    for c in AsciiChars::list() {
        stats.add_miss(c, at(0));
    }
    assert_eq!(stats.get_records().len(), 94);
    for (code, record) in stats.get_records() {
        assert!((33..=126).contains(code));
        assert_eq!(record.char_id.code(), *code);
        assert!(!record.results.is_empty());
    }
}
