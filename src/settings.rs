//! The reminder configuration and its validation.
use vstd::prelude::*;
use crate::clock::TimeOfDay;
use chrono::Timelike;

verus! {

/// The hour and minute that chrono reads from `s` with the format `%H:%M`,
/// or `None` where it refuses `s`.
pub uninterp spec fn hh_mm_of(s: Seq<char>) -> Option<(u32, u32)>;

/// Relies on chrono's `NaiveTime::parse_from_str(s, "%H:%M")` and on
/// `Timelike::hour` / `Timelike::minute`: a parsed time has an hour below 24
/// and a minute below 60.
#[verifier::external_body]
fn parse_hh_mm(s: &str) -> (r: Option<(u32, u32)>)
    ensures
        r == hh_mm_of(s@),
        r matches Some(p) ==> p.0 < 24 && p.1 < 60,
{
    chrono::NaiveTime::parse_from_str(s, "%H:%M").ok().map(|t| (t.hour(), t.minute()))
}

/// The time of day that the `HH:MM` text `s` denotes, if it reads as one.
pub open spec fn time_of(s: Seq<char>) -> Option<TimeOfDay> {
    match hh_mm_of(s) {
        Some(p) => TimeOfDay::hm_spec(p.0, p.1),
        None => None,
    }
}

/// Reads a 24-hour `HH:MM` time of day.
pub fn parse_time_of_day(s: &str) -> (r: Option<TimeOfDay>)
    ensures
        r == time_of(s@),
        (r is Some) == (hh_mm_of(s@) is Some),
        r matches Some(t) ==> t.wf() && t.on_minute(),
{
    match parse_hh_mm(s) {
        Some(p) => TimeOfDay::from_hm(p.0, p.1),
        None => None,
    }
}

/// The reminder configuration: a work/break cycle in minutes, the daily
/// active window as `HH:MM` texts, and the weekdays (1 for Monday through 7
/// for Sunday) on which the window applies. A start later than the end
/// denotes a window that spans midnight.
#[derive(Clone, Debug, PartialEq, Eq)]
pub struct AppSettings {
    pub work_duration: u32,
    pub break_duration: u32,
    pub start_time: String,
    pub end_time: String,
    pub active_days: Vec<u8>,
}

impl Default for AppSettings {
    /// 45 minutes of work and 5 of break, from 09:00 to 18:00, Monday to Friday.
    fn default() -> (r: AppSettings)
        ensures
            r.work_duration == 45,
            r.break_duration == 5,
            r.start_time@ == "09:00"@,
            r.end_time@ == "18:00"@,
            r.active_days@ == seq![1u8, 2, 3, 4, 5],
    {
        AppSettings {
            work_duration: 45,
            break_duration: 5,
            start_time: "09:00".to_owned(),
            end_time: "18:00".to_owned(),
            active_days: vec![1, 2, 3, 4, 5],
        }
    }
}

/// Why a settings update was refused.
#[derive(Clone, Copy, Debug, PartialEq, Eq, Structural)]
pub enum SettingsError {
    /// The start time does not read as `HH:MM`.
    InvalidStartTime,
    /// The end time does not read as `HH:MM`.
    InvalidEndTime,
    /// No weekday is selected.
    NoActiveDays,
}

impl SettingsError {
    /// The message shown to the user.
    pub fn message(&self) -> (r: &'static str)
        ensures
            *self == SettingsError::InvalidStartTime ==> r@ == "无效的开始时间格式"@,
            *self == SettingsError::InvalidEndTime ==> r@ == "无效的结束时间格式"@,
            *self == SettingsError::NoActiveDays ==> r@ == "请至少选择一个生效日期"@,
    {
        match self {
            SettingsError::InvalidStartTime => "无效的开始时间格式",
            SettingsError::InvalidEndTime => "无效的结束时间格式",
            SettingsError::NoActiveDays => "请至少选择一个生效日期",
        }
    }
}

/// The outcome of validating settings whose times read as `start` and `end`.
pub open spec fn check_outcome(
    start: Option<TimeOfDay>,
    end: Option<TimeOfDay>,
    active_days: Seq<u8>,
) -> Result<(), SettingsError> {
    if start is None {
        Err(SettingsError::InvalidStartTime)
    } else if end is None {
        Err(SettingsError::InvalidEndTime)
    } else if active_days.len() == 0 {
        Err(SettingsError::NoActiveDays)
    } else {
        Ok(())
    }
}

/// The outcome of validating `s`.
pub open spec fn validation_outcome(s: AppSettings) -> Result<(), SettingsError> {
    check_outcome(time_of(s.start_time@), time_of(s.end_time@), s.active_days@)
}

/// Validates settings whose start and end times have already been read:
/// both must have been read, and at least one weekday must be selected. A
/// start later than the end is accepted as a window that spans midnight.
pub fn check_settings(
    start: Option<TimeOfDay>,
    end: Option<TimeOfDay>,
    active_days: &Vec<u8>,
) -> (r: Result<(), SettingsError>)
    ensures
        r == check_outcome(start, end, active_days@),
{
    if start.is_none() {
        Err(SettingsError::InvalidStartTime)
    } else if end.is_none() {
        Err(SettingsError::InvalidEndTime)
    } else if active_days.len() == 0 {
        Err(SettingsError::NoActiveDays)
    } else {
        Ok(())
    }
}

/// Validates a settings update before it replaces the current settings.
pub fn validate_settings(settings: &AppSettings) -> (r: Result<(), SettingsError>)
    ensures
        r == validation_outcome(*settings),
{
    let start = parse_time_of_day(settings.start_time.as_str());
    let end = parse_time_of_day(settings.end_time.as_str());
    check_settings(start, end, &settings.active_days)
}

} // verus!
