use chrono::{NaiveDate, NaiveDateTime};
use typing_practice::ascii_chars::AsciiChars;
use typing_practice::session::{Session, Verdict};
use typing_practice::stats::HitType;
use typing_practice::timer::TimerState;

fn wanted(c: char) -> AsciiChars {
    AsciiChars::from_char(c).unwrap()
}

fn stamp(minute: u32) -> NaiveDateTime {
    NaiveDate::from_ymd_opt(2024, 5, 17).unwrap().and_hms_opt(10, minute, 0).unwrap()
}

#[test]
fn new_session_is_empty_and_timing() {
    let session = Session::new_session(5_000);
    assert_eq!(session.stats.get_total_hit_count(), 0);
    assert_eq!(session.stats.get_total_miss_count(), 0);
    assert_eq!(session.timer.state(), TimerState::Running(5_000));
    assert_eq!(session.elapsed_timer(5_040), 40);
}

#[test]
fn right_answer_is_a_hit_with_the_reaction_time() {
    let mut session = Session::new_session(5_000);
    let verdict = session.check_result(wanted('a'), "a", stamp(1), 5_250);
    assert_eq!(verdict, Some(Verdict::Hit(250)));
    assert_eq!(session.stats.get_total_hit_count(), 1);
    assert_eq!(session.stats.get_total_miss_count(), 0);
    assert_eq!(
        session.stats.get_record(&wanted('a')).unwrap().results,
        vec![HitType::Hit(stamp(1), 250)]
    );
    assert_eq!(session.timer.state(), TimerState::Running(5_250));
}

#[test]
fn wrong_answer_is_a_miss_on_the_displayed_character() {
    let mut session = Session::new_session(5_000);
    let verdict = session.check_result(wanted('a'), "b", stamp(1), 5_250);
    assert_eq!(verdict, Some(Verdict::Miss));
    assert_eq!(session.stats.get_total_hit_count(), 0);
    assert_eq!(session.stats.get_total_miss_count(), 1);
    assert_eq!(
        session.stats.get_record(&wanted('a')).unwrap().results,
        vec![HitType::Miss(stamp(1))]
    );
    assert!(session.stats.get_record(&wanted('b')).is_none());
    assert_eq!(session.timer.state(), TimerState::Running(5_250));
}

#[test]
fn empty_answer_is_no_attempt() {
    let mut session = Session::new_session(5_000);
    assert_eq!(session.check_result(wanted('a'), "", stamp(1), 5_250), None);
    assert_eq!(session.stats.get_total_hit_count(), 0);
    assert_eq!(session.stats.get_total_miss_count(), 0);
    assert_eq!(session.timer.state(), TimerState::Running(5_000));
}

#[test]
fn only_the_first_character_of_the_answer_counts() {
    let mut session = Session::new_session(0);
    assert_eq!(session.check_result(wanted('a'), "ab", stamp(1), 10), Some(Verdict::Hit(10)));
    assert_eq!(session.check_result(wanted('a'), "ba", stamp(2), 30), Some(Verdict::Miss));
    assert_eq!(session.check_result(wanted('a'), "\u{e9}a", stamp(3), 40), Some(Verdict::Miss));
}

#[test]
fn reaction_time_runs_from_the_last_verdict() {
    let mut session = Session::new_session(1_000);
    assert_eq!(session.check_result(wanted('x'), "y", stamp(1), 1_400), Some(Verdict::Miss));
    assert_eq!(session.check_result(wanted('x'), "x", stamp(2), 1_500), Some(Verdict::Hit(100)));
    assert_eq!(session.check_result(wanted('q'), "q", stamp(3), 1_730), Some(Verdict::Hit(230)));
    let x = session.stats.summary_for(&wanted('x'));
    assert_eq!((x.total_hits, x.total_misses, x.hit_low, x.hit_high), (1, 1, 100, 100));
    assert_eq!(session.stats.get_total_hit_count(), 2);
    assert_eq!(session.stats.get_total_miss_count(), 1);
}

#[test]
fn hit_on_a_stopped_timer_records_the_frozen_time() {
    let mut session = Session::new_session(1_000);
    assert_eq!(session.stop_timer(1_300), 300);
    assert_eq!(session.timer.state(), TimerState::Stopped(300));
    assert_eq!(session.elapsed_timer(9_000), 300);
    assert_eq!(session.check_result(wanted('x'), "x", stamp(1), 2_000), Some(Verdict::Hit(300)));
    assert_eq!(session.timer.state(), TimerState::Running(2_000));
}

#[test]
fn stop_timer_returns_the_elapsed_time() {
    let mut session = Session::new_session(1_000);
    assert_eq!(session.stop_timer(1_075), 75);
    assert_eq!(session.stop_timer(1_500), 75);
    session.timer.reset();
    assert_eq!(session.stop_timer(1_600), 0);
    assert_eq!(session.timer.state(), TimerState::NotStarted);
}

#[test]
fn reset_stats_clears_the_log_and_restarts_the_timer() {
    let mut session = Session::new_session(1_000);
    session.check_result(wanted('x'), "x", stamp(1), 1_500);
    session.check_result(wanted('x'), "y", stamp(2), 1_900);
    session.reset_stats(3_000);
    assert_eq!(session.stats.get_total_hit_count(), 0);
    assert_eq!(session.stats.get_total_miss_count(), 0);
    assert!(session.stats.report_rows().is_empty());
    assert_eq!(session.timer.state(), TimerState::Running(3_000));
}
