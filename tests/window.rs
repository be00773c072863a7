use chrono::{Datelike, NaiveDate};
use rsi_break::clock::{LocalDateTime, TimeOfDay};
use rsi_break::window::{anchor_time, cycle_phase, elapsed_minutes, is_within_window};

fn hm(hour: u32, minute: u32) -> TimeOfDay {
    TimeOfDay::from_hm(hour, minute).unwrap()
}

fn hms(hour: u32, minute: u32, second: u32) -> TimeOfDay {
    TimeOfDay::new(hour * 3600 + minute * 60 + second, 0).unwrap()
}

fn day(year: i32, month: u32, d: u32) -> i32 {
    NaiveDate::from_ymd_opt(year, month, d).unwrap().num_days_from_ce()
}

fn at(year: i32, month: u32, d: u32, time: TimeOfDay) -> LocalDateTime {
    LocalDateTime::new(day(year, month, d), time)
}

#[test]
fn same_day_window_includes_both_bounds() {
    let (start, end) = (hm(9, 0), hm(18, 0));
    assert!(is_within_window(hm(9, 0), start, end));
    assert!(is_within_window(hm(12, 30), start, end));
    assert!(is_within_window(hm(18, 0), start, end));
}

#[test]
fn same_day_window_excludes_just_outside() {
    let (start, end) = (hm(9, 0), hm(18, 0));
    assert!(!is_within_window(hms(8, 59, 59), start, end));
    assert!(!is_within_window(hms(18, 0, 1), start, end));
    assert!(!is_within_window(TimeOfDay::new(18 * 3600, 1).unwrap(), start, end));
    assert!(!is_within_window(hm(23, 0), start, end));
}

#[test]
fn overnight_window_excludes_only_the_gap() {
    let (start, end) = (hm(22, 0), hm(6, 0));
    assert!(is_within_window(hm(22, 0), start, end));
    assert!(is_within_window(hm(23, 59), start, end));
    assert!(is_within_window(hm(0, 0), start, end));
    assert!(is_within_window(hm(6, 0), start, end));
    assert!(!is_within_window(hms(6, 0, 1), start, end));
    assert!(!is_within_window(hm(12, 0), start, end));
    assert!(!is_within_window(hms(21, 59, 59), start, end));
}

#[test]
fn single_instant_window() {
    let t = hm(12, 0);
    assert!(is_within_window(t, t, t));
    assert!(!is_within_window(hm(12, 1), t, t));
}

#[test]
fn anchor_same_day_is_today_at_start() {
    let now = at(2024, 1, 1, hm(13, 7));
    let anchor = anchor_time(now, hm(9, 0), hm(18, 0));
    assert_eq!(anchor, at(2024, 1, 1, hm(9, 0)));
}

#[test]
fn anchor_overnight_after_start_is_today() {
    let now = at(2024, 1, 1, hm(23, 0));
    let anchor = anchor_time(now, hm(22, 0), hm(6, 0));
    assert_eq!(anchor, at(2024, 1, 1, hm(22, 0)));
}

#[test]
fn anchor_overnight_before_start_is_yesterday() {
    let now = at(2024, 3, 1, hm(5, 0));
    let anchor = anchor_time(now, hm(22, 0), hm(6, 0));
    assert_eq!(anchor, at(2024, 2, 29, hm(22, 0)));
    assert_eq!(elapsed_minutes(now, anchor), 7 * 60);
}

#[test]
fn anchor_is_at_most_a_day_back() {
    let now = at(2024, 1, 2, hms(21, 59, 59));
    let anchor = anchor_time(now, hm(22, 0), hm(6, 0));
    assert_eq!(anchor, at(2024, 1, 1, hm(22, 0)));
    let minutes = elapsed_minutes(now, anchor);
    assert_eq!(minutes, 24 * 60 - 1);
    assert!(minutes < 24 * 60);
}

#[test]
fn elapsed_minutes_round_down() {
    let anchor = at(2024, 1, 1, hm(9, 0));
    assert_eq!(elapsed_minutes(at(2024, 1, 1, hms(9, 0, 59)), anchor), 0);
    assert_eq!(elapsed_minutes(at(2024, 1, 1, hms(9, 1, 0)), anchor), 1);
    let late = LocalDateTime::new(day(2024, 1, 1), TimeOfDay::new(9 * 3600 + 119, 999_999_999).unwrap());
    assert_eq!(elapsed_minutes(late, anchor), 1);
}

#[test]
fn elapsed_minutes_borrow_nanoseconds() {
    let anchor = LocalDateTime::new(day(2024, 1, 1), TimeOfDay::new(100, 500).unwrap());
    let now = LocalDateTime::new(day(2024, 1, 1), TimeOfDay::new(160, 499).unwrap());
    assert_eq!(elapsed_minutes(now, anchor), 0);
    let now = LocalDateTime::new(day(2024, 1, 1), TimeOfDay::new(160, 500).unwrap());
    assert_eq!(elapsed_minutes(now, anchor), 1);
}

#[test]
fn cycle_phase_at_anchor_is_zero() {
    let anchor = at(2024, 1, 1, hm(9, 0));
    assert_eq!(cycle_phase(anchor, anchor, 50), 0);
    assert_eq!(cycle_phase(anchor, anchor, 1), 0);
}

#[test]
fn cycle_phase_wraps_at_cycle_length() {
    let anchor = at(2024, 1, 1, hm(9, 0));
    assert_eq!(cycle_phase(at(2024, 1, 1, hm(9, 45)), anchor, 50), 45);
    assert_eq!(cycle_phase(at(2024, 1, 1, hm(9, 49)), anchor, 50), 49);
    assert_eq!(cycle_phase(at(2024, 1, 1, hm(9, 50)), anchor, 50), 0);
    assert_eq!(cycle_phase(at(2024, 1, 1, hm(17, 37)), anchor, 50), 517 % 50);
}

#[test]
fn weekday_matches_calendar() {
    for (y, m, d) in [(1, 1, 1), (2024, 1, 1), (2024, 1, 6), (2024, 1, 7), (2024, 2, 29), (1999, 12, 31), (-44, 3, 15)] {
        let date = NaiveDate::from_ymd_opt(y, m, d).unwrap();
        let now = LocalDateTime::new(date.num_days_from_ce(), hm(0, 0));
        assert_eq!(now.weekday() as u32, date.weekday().number_from_monday());
    }
}

#[test]
fn truncate_to_minute_drops_seconds() {
    let t = TimeOfDay::new(18 * 3600 + 59, 999_999_999).unwrap();
    assert_eq!(t.truncate_to_minute(), hm(18, 0));
    assert_eq!(hm(9, 30).truncate_to_minute(), hm(9, 30));
    assert_eq!(hms(23, 59, 1).truncate_to_minute(), hm(23, 59));
}

#[test]
fn time_of_day_bounds() {
    assert!(TimeOfDay::new(86_399, 999_999_999).is_some());
    assert!(TimeOfDay::new(86_400, 0).is_none());
    assert!(TimeOfDay::new(0, 1_000_000_000).is_none());
    assert_eq!(TimeOfDay::from_hm(23, 59), TimeOfDay::new(86_340, 0));
    assert!(TimeOfDay::from_hm(24, 0).is_none());
    assert!(TimeOfDay::from_hm(0, 60).is_none());
    assert!(hm(9, 0).is_at_or_before(&hm(9, 0)));
    assert!(!hms(9, 0, 1).is_at_or_before(&hm(9, 0)));
}
