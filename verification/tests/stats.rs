use std::time::Duration;

use chrono::{DateTime, Datelike, NaiveDate, Weekday};

use focus_fox::stats::calendar::{Timestamp, MAX_DAY, MIN_DAY};
use focus_fox::stats::report::{
    duration_fits, fmt_duration, fmt_focus, recent_line, render_text, stats_panel_lines,
};
use focus_fox::stats::store::{history_file_for, history_file_name};
use focus_fox::stats::{Record, Summary};
use focus_fox::timer::Phase;

fn ts(rfc3339: &str) -> Timestamp {
    let dt = DateTime::parse_from_rfc3339(rfc3339).unwrap();
    Timestamp {
        secs: dt.timestamp(),
        nanos: dt.timestamp_subsec_nanos(),
        offset_secs: dt.offset().local_minus_utc(),
    }
}

fn rec(day: &str, time: &str, phase: Phase, actual_mins: u64, completed: bool) -> Record {
    Record {
        at: ts(&format!("{day}T{time}:00-05:00")),
        phase,
        planned_secs: 1500,
        actual_secs: actual_mins * 60,
        completed,
    }
}

fn d(s: &str) -> i32 {
    s.parse::<NaiveDate>().unwrap().num_days_from_ce()
}

fn secs(s: u64) -> u128 {
    Duration::from_secs(s).as_nanos()
}

// 2024-01-01 was a Monday; "today" is Wednesday 2024-01-03 throughout.
const TODAY: &str = "2024-01-03";

#[test]
fn today_counts_completed_sessions_but_credits_partial_focus() {
    let records = vec![
        rec(TODAY, "09:00", Phase::Work, 25, true),
        rec(TODAY, "09:40", Phase::Work, 10, false), // skip: focus counts, session doesn't
        rec(TODAY, "10:10", Phase::ShortBreak, 5, true), // breaks never count as focus
        rec("2024-01-02", "10:00", Phase::Work, 25, true), // yesterday
    ];
    let s = Summary::compute(&records, d(TODAY));
    assert_eq!(s.today_sessions, 1);
    assert_eq!(s.today_focus, secs(35 * 60));
}

#[test]
fn week_starts_monday() {
    let records = vec![
        rec("2023-12-31", "10:00", Phase::Work, 25, true), // Sunday: last week
        rec("2024-01-01", "10:00", Phase::Work, 25, true), // Monday: this week
        rec(TODAY, "10:00", Phase::Work, 25, true),
    ];
    let s = Summary::compute(&records, d(TODAY));
    assert_eq!(s.week_sessions, 2);
    assert_eq!(s.week_focus, secs(50 * 60));
    assert_eq!(s.lifetime_sessions, 3);
    assert_eq!(s.lifetime_focus, secs(75 * 60));
}

#[test]
fn streak_counts_consecutive_days() {
    let records = vec![
        rec("2024-01-01", "10:00", Phase::Work, 25, true),
        rec("2024-01-02", "10:00", Phase::Work, 25, true),
        rec(TODAY, "00:10", Phase::Work, 25, true), // just after midnight still today
    ];
    assert_eq!(Summary::compute(&records, d(TODAY)).streak_days, 3);
}

#[test]
fn streak_breaks_on_a_gap() {
    let records = vec![
        rec("2024-01-01", "10:00", Phase::Work, 25, true),
        rec(TODAY, "10:00", Phase::Work, 25, true), // nothing on the 2nd
    ];
    assert_eq!(Summary::compute(&records, d(TODAY)).streak_days, 1);
}

#[test]
fn empty_morning_does_not_break_the_streak() {
    let records = vec![
        rec("2024-01-01", "10:00", Phase::Work, 25, true),
        rec("2024-01-02", "10:00", Phase::Work, 25, true),
    ];
    // No session yet today: streak counts back from yesterday.
    assert_eq!(Summary::compute(&records, d(TODAY)).streak_days, 2);
}

#[test]
fn skips_and_breaks_do_not_extend_a_streak() {
    let records = vec![
        rec("2024-01-02", "10:00", Phase::Work, 10, false),
        rec(TODAY, "10:00", Phase::ShortBreak, 5, true),
    ];
    assert_eq!(Summary::compute(&records, d(TODAY)).streak_days, 0);
}

#[test]
fn recent_is_last_ten_newest_first() {
    let records: Vec<Record> = (0..12)
        .map(|i| rec(TODAY, &format!("{:02}:00", 8 + i), Phase::Work, 25, true))
        .collect();
    let s = Summary::compute(&records, d(TODAY));
    assert_eq!(s.recent.len(), 10);
    assert_eq!(s.recent[0], records[11]);
    assert_eq!(s.recent[9], records[2]);
}

#[test]
fn empty_history_summarizes_to_zero() {
    let s = Summary::compute(&[], d(TODAY));
    assert_eq!(s.today_sessions, 0);
    assert_eq!(s.week_focus, 0);
    assert_eq!(s.lifetime_sessions, 0);
    assert_eq!(s.streak_days, 0);
    assert!(s.recent.is_empty());
}

#[test]
fn today_within_week_within_lifetime() {
    let records = vec![
        rec("2023-12-20", "10:00", Phase::Work, 25, true),
        rec("2024-01-01", "10:00", Phase::Work, 25, true),
        rec(TODAY, "10:00", Phase::Work, 25, true),
        rec(TODAY, "11:00", Phase::Work, 5, false),
    ];
    let s = Summary::compute(&records, d(TODAY));
    assert!(s.today_sessions <= s.week_sessions && s.week_sessions <= s.lifetime_sessions);
    assert!(s.today_focus <= s.week_focus && s.week_focus <= s.lifetime_focus);
    assert_eq!((s.today_sessions, s.week_sessions, s.lifetime_sessions), (1, 2, 3));
}

#[test]
fn logging_a_break_changes_no_total() {
    let mut records = vec![
        rec("2024-01-02", "10:00", Phase::Work, 25, true),
        rec(TODAY, "10:00", Phase::Work, 25, true),
    ];
    let before = Summary::compute(&records, d(TODAY));
    records.push(rec(TODAY, "10:30", Phase::LongBreak, 15, true));
    let after = Summary::compute(&records, d(TODAY));
    assert_eq!(after.today_sessions, before.today_sessions);
    assert_eq!(after.today_focus, before.today_focus);
    assert_eq!(after.lifetime_focus, before.lifetime_focus);
    assert_eq!(after.streak_days, before.streak_days);
    assert_eq!(after.recent.len(), before.recent.len() + 1);
}

#[test]
fn local_day_follows_the_recorded_offset() {
    // 23:30 at UTC-5 is the next UTC day but still the same local day.
    let records = vec![
        rec(TODAY, "23:30", Phase::Work, 25, true),
        Record { at: ts("2024-01-04T00:30:00+09:00"), ..rec(TODAY, "10:00", Phase::Work, 5, true) },
    ];
    let s = Summary::compute(&records, d(TODAY));
    assert_eq!(s.today_sessions, 1);
    assert_eq!(s.today_focus, secs(25 * 60));
    let s = Summary::compute(&records, d("2024-01-04"));
    assert_eq!(s.today_sessions, 1);
    assert_eq!(s.today_focus, secs(5 * 60));
}

#[test]
fn records_go_to_the_file_of_their_local_year() {
    let old = Record { at: ts("2023-12-31T23:00:00-05:00"), ..rec(TODAY, "10:00", Phase::Work, 25, true) };
    let new = Record { at: ts("2024-01-01T00:00:00-05:00"), ..old };
    assert_eq!(history_file_for(&old), "history-2023.jsonl");
    assert_eq!(history_file_for(&new), "history-2024.jsonl");
}

#[test]
fn weeks_cross_the_new_year() {
    // Tuesday 2024-01-02: the week began on Monday 2024-01-01; Sunday
    // 2023-12-31 is last week. Seen from Sunday, Monday 2023-12-25 opened it.
    let records = vec![
        rec("2023-12-25", "10:00", Phase::Work, 25, true),
        rec("2023-12-31", "10:00", Phase::Work, 25, true),
        rec("2024-01-01", "10:00", Phase::Work, 25, true),
    ];
    assert_eq!(Summary::compute(&records, d("2024-01-02")).week_sessions, 1);
    assert_eq!(Summary::compute(&records, d("2023-12-31")).week_sessions, 2);
    assert_eq!(Summary::compute(&records, d("2024-01-02")).streak_days, 2);
}

#[test]
fn fmt_focus_rounds_to_minutes() {
    assert_eq!(fmt_focus(secs(1499)), "24m");
    assert_eq!(fmt_focus(secs(4500)), "1h 15m");
    assert_eq!(fmt_focus(secs(30)), "30s");
    assert_eq!(fmt_focus(0), "0s");
}

#[test]
fn recent_line_shows_time_phase_focus_and_mark() {
    assert_eq!(
        recent_line(&rec(TODAY, "09:40", Phase::Work, 10, false)),
        "Wed 09:40  Focus           10m  \u{2a2f}"
    );
    assert_eq!(
        recent_line(&rec("2024-01-02", "10:10", Phase::ShortBreak, 5, true)),
        "Tue 10:10  Short Break      5m  \u{2713}"
    );
}

#[test]
fn render_text_shows_the_summary() {
    let records = vec![
        rec("2024-01-02", "10:00", Phase::Work, 25, true),
        rec(TODAY, "09:00", Phase::Work, 25, true),
        rec(TODAY, "09:30", Phase::ShortBreak, 5, true),
    ];
    let text = render_text(&Summary::compute(&records, d(TODAY)));
    assert!(text.contains("Today      1 sessions \u{b7} 25m"), "text was:\n{text}");
    assert!(text.contains("Streak     2 days"));
    assert!(text.contains("Lifetime   2 sessions \u{b7} 50m"));
    assert!(text.contains("Short Break"));
}

#[test]
fn render_text_with_no_history_is_friendly() {
    let text = render_text(&Summary::compute(&[], d(TODAY)));
    assert!(text.contains("No sessions yet"));
}

#[test]
fn history_files_are_named_by_year() {
    assert_eq!(history_file_name(2024), "history-2024.jsonl");
    assert_eq!(history_file_name(-44), "history--44.jsonl");
}

#[test]
fn panel_stat_lines_pad_the_label() {
    assert_eq!(
        focus_fox::stats::report::stat_line("Today", 1, secs(25 * 60)),
        "Today      1 sessions \u{b7} 25m"
    );
}

#[test]
fn timestamps_outside_the_range_are_refused() {
    assert!(ts("2024-01-03T10:00:00-05:00").is_valid());
    let far = Timestamp { secs: 9_000_000_000_000, nanos: 0, offset_secs: 0 };
    assert!(!far.is_valid());
    let bad_offset = Timestamp { secs: 0, nanos: 0, offset_secs: 86_400 };
    assert!(!bad_offset.is_valid());
    let leap = Timestamp { secs: 59, nanos: 1_500_000_000, offset_secs: 0 };
    assert!(leap.is_valid());
    let not_leap = Timestamp { secs: -2, nanos: 1_500_000_000, offset_secs: 0 };
    assert!(!not_leap.is_valid());
    let leap_before_epoch = Timestamp { secs: -1, nanos: 1_500_000_000, offset_secs: 0 };
    assert!(leap_before_epoch.is_valid());
}

#[test]
fn can_compute_checks_range_and_focus_total() {
    let records = vec![rec(TODAY, "09:00", Phase::Work, 25, true)];
    assert!(Summary::can_compute(&records, d(TODAY)));
    assert!(!Summary::can_compute(&records, 200_000_000));
    let huge = Record { actual_secs: u64::MAX, ..records[0] };
    assert!(Summary::can_compute(&[huge], d(TODAY)));
    assert!(!Summary::can_compute(&[huge, records[0]], d(TODAY)));
    let huge_break = Record { phase: Phase::ShortBreak, ..huge };
    assert!(Summary::can_compute(&[huge_break, huge], d(TODAY)));
}

#[test]
fn day_bounds_are_chronos_calendar() {
    assert_eq!(MIN_DAY, NaiveDate::MIN.num_days_from_ce());
    assert_eq!(MAX_DAY, NaiveDate::MAX.num_days_from_ce());
}

#[test]
fn far_future_history_is_summarized() {
    let at = Timestamp { secs: 8_100_000_000_000, nanos: 0, offset_secs: 0 };
    assert!(at.is_valid());
    let day = DateTime::from_timestamp(at.secs, 0).unwrap().date_naive().num_days_from_ce();
    let r = Record { at, phase: Phase::Work, planned_secs: 1500, actual_secs: 1500, completed: true };
    assert!(Summary::can_compute(&[r], day));
    let s = Summary::compute(&[r], day);
    assert_eq!(s.today_sessions, 1);
    assert_eq!(s.week_sessions, 1);
    assert_eq!(s.streak_days, 1);
    assert_eq!(s.lifetime_focus, secs(1500));
    assert!(Summary::can_compute(&[], MAX_DAY));
}

#[test]
fn a_week_must_start_within_the_calendar() {
    // The first Monday on or after chrono's earliest date.
    let mut first_monday = NaiveDate::MIN;
    while first_monday.weekday() != Weekday::Mon {
        first_monday = first_monday.succ_opt().unwrap();
    }
    let monday = first_monday.num_days_from_ce();
    assert!(Summary::can_compute(&[], monday));
    assert!(Summary::can_compute(&[], monday + 6));
    if monday > MIN_DAY {
        assert!(!Summary::can_compute(&[], monday - 1));
    }
}

#[test]
fn totals_and_streak_ignore_record_order() {
    let records = vec![
        rec("2024-01-01", "10:00", Phase::Work, 25, true),
        rec("2024-01-02", "10:00", Phase::Work, 20, false),
        rec("2024-01-02", "11:00", Phase::Work, 25, true),
        rec(TODAY, "09:00", Phase::ShortBreak, 5, true),
        rec(TODAY, "10:00", Phase::Work, 25, true),
    ];
    let mut reversed = records.clone();
    reversed.reverse();
    let a = Summary::compute(&records, d(TODAY));
    let b = Summary::compute(&reversed, d(TODAY));
    assert_eq!(a.today_sessions, b.today_sessions);
    assert_eq!(a.today_focus, b.today_focus);
    assert_eq!(a.week_sessions, b.week_sessions);
    assert_eq!(a.week_focus, b.week_focus);
    assert_eq!(a.streak_days, b.streak_days);
    assert_eq!(a.streak_days, 3);
    assert_eq!(a.lifetime_sessions, b.lifetime_sessions);
    assert_eq!(a.lifetime_focus, b.lifetime_focus);
    assert_eq!(a.recent[0], b.recent[4]);
}

#[test]
fn stats_panel_lists_totals_then_recent() {
    let records = vec![
        rec("2024-01-02", "10:00", Phase::Work, 25, true),
        rec(TODAY, "10:00", Phase::Work, 25, true),
    ];
    let s = Summary::compute(&records, d(TODAY));
    let lines = stats_panel_lines(&s);
    assert_eq!(lines.len(), 8);
    assert_eq!(lines[0], "Today      1 sessions \u{b7} 25m");
    assert_eq!(lines[1], "This week  2 sessions \u{b7} 50m");
    assert_eq!(lines[2], "Streak     2 days");
    assert_eq!(lines[3], "Lifetime   2 sessions \u{b7} 50m");
    assert_eq!(lines[4], "");
    assert_eq!(lines[5], "Recent");
    assert_eq!(lines[6], recent_line(&records[1]));
    assert_eq!(lines[7], recent_line(&records[0]));
}

#[test]
fn stats_panel_with_no_history_says_so() {
    let lines = stats_panel_lines(&Summary::compute(&[], d(TODAY)));
    assert_eq!(lines.len(), 6);
    assert_eq!(lines[2], "Streak     0 days");
    assert_eq!(lines[5], "No sessions yet \u{2014} finish one. \u{1f98a}");
}

#[test]
fn durations_are_written_unit_by_unit() {
    assert_eq!(fmt_duration(0), "0s");
    assert_eq!(fmt_duration(secs(9420)), "2h 37m");
    assert_eq!(fmt_duration(1_500_000_000), "1s 500ms");
    assert_eq!(fmt_duration(32_000_000), "32ms");
    assert_eq!(fmt_duration(1_002_003), "1ms 2us 3ns");
    assert_eq!(fmt_duration(secs(86_400)), "1day");
    assert_eq!(fmt_duration(secs(2 * 86_400 + 60)), "2days 1m");
    assert_eq!(fmt_duration(secs(31_557_600 + 2 * 2_630_016 + 3)), "1year 2months 3s");
    assert!(duration_fits(secs(u64::MAX)));
    assert!(!duration_fits(secs(u64::MAX) + 1_000_000_000));
}
