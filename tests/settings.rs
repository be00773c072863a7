use rsi_break::clock::TimeOfDay;
use rsi_break::settings::{check_settings, parse_time_of_day, validate_settings, AppSettings, SettingsError};

fn settings(start: &str, end: &str, active_days: Vec<u8>) -> AppSettings {
    AppSettings {
        work_duration: 45,
        break_duration: 5,
        start_time: start.to_string(),
        end_time: end.to_string(),
        active_days,
    }
}

#[test]
fn default_settings() {
    let s = AppSettings::default();
    assert_eq!(s.work_duration, 45);
    assert_eq!(s.break_duration, 5);
    assert_eq!(s.start_time, "09:00");
    assert_eq!(s.end_time, "18:00");
    assert_eq!(s.active_days, vec![1, 2, 3, 4, 5]);
    assert_eq!(validate_settings(&s), Ok(()));
}

#[test]
fn parse_reads_hours_and_minutes() {
    assert_eq!(parse_time_of_day("09:30"), TimeOfDay::from_hm(9, 30));
    assert_eq!(parse_time_of_day("23:59"), TimeOfDay::from_hm(23, 59));
    assert_eq!(parse_time_of_day("00:00"), TimeOfDay::from_hm(0, 0));
    assert_eq!(parse_time_of_day("7:15"), TimeOfDay::from_hm(7, 15));
}

#[test]
fn parse_refuses_malformed_times() {
    assert_eq!(parse_time_of_day("24:00"), None);
    assert_eq!(parse_time_of_day("17:60"), None);
    assert_eq!(parse_time_of_day("12"), None);
    assert_eq!(parse_time_of_day("noon"), None);
    assert_eq!(parse_time_of_day(""), None);
}

#[test]
fn overnight_window_is_accepted() {
    assert_eq!(validate_settings(&settings("20:00", "08:00", vec![1, 2, 3])), Ok(()));
    assert_eq!(validate_settings(&settings("10:00", "09:00", vec![7])), Ok(()));
}

#[test]
fn invalid_start_time_is_refused() {
    assert_eq!(validate_settings(&settings("9am", "18:00", vec![1])), Err(SettingsError::InvalidStartTime));
    assert_eq!(validate_settings(&settings("25:00", "xx", vec![])), Err(SettingsError::InvalidStartTime));
}

#[test]
fn invalid_end_time_is_refused() {
    assert_eq!(validate_settings(&settings("09:00", "18:61", vec![1])), Err(SettingsError::InvalidEndTime));
}

#[test]
fn empty_active_days_is_refused() {
    assert_eq!(validate_settings(&settings("09:00", "18:00", vec![])), Err(SettingsError::NoActiveDays));
}

#[test]
fn check_settings_outcomes() {
    let t = TimeOfDay::from_hm(9, 0);
    assert_eq!(check_settings(None, t, &vec![1]), Err(SettingsError::InvalidStartTime));
    assert_eq!(check_settings(t, None, &vec![1]), Err(SettingsError::InvalidEndTime));
    assert_eq!(check_settings(t, t, &vec![]), Err(SettingsError::NoActiveDays));
    assert_eq!(check_settings(t, t, &vec![6]), Ok(()));
}

#[test]
fn error_messages() {
    assert_eq!(SettingsError::InvalidStartTime.message(), "无效的开始时间格式");
    assert_eq!(SettingsError::InvalidEndTime.message(), "无效的结束时间格式");
    assert_eq!(SettingsError::NoActiveDays.message(), "请至少选择一个生效日期");
}
