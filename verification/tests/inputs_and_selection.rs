use kintai::config::{Config, ConfigError};
use kintai::database::models::{AttendanceRecord, RecordType};
use kintai::utils::record_selector::RecordSelector;
use kintai::utils::time::{
    CalendarDay,
    TimeOfDay,
    TimeParseError,
    Timestamp,
};
use kintai::utils::validation::{
    validate_date_not_future, validate_date_not_future_on, validate_reasonable_past_date,
    validate_reasonable_past_date_on, validate_reasonable_work_hours, validate_time_format,
    validate_time_format_with_day_info, validate_time_order, InputError,
};

fn hm(h: u32, m: u32) -> TimeOfDay {
    TimeOfDay::from_hms_opt(h, m, 0).unwrap()
}

fn rec(id: i64, kind: RecordType, secs: i64) -> AttendanceRecord {
    AttendanceRecord::new(id, 1, kind, Timestamp::new(secs, 0))
}

#[test]
fn time_format_goes_through_the_parser() {
    assert_eq!(validate_time_format("09:30"), Ok(hm(9, 30)));
    assert_eq!(validate_time_format("26:00"), Ok(hm(2, 0)));
    assert_eq!(validate_time_format("nine"), Err(TimeParseError::InvalidFormat));
    assert_eq!(validate_time_format_with_day_info("26:00"), Ok((hm(2, 0), true)));
    assert_eq!(validate_time_format_with_day_info("02:00"), Ok((hm(2, 0), false)));
}

#[test]
fn end_has_to_lie_after_start() {
    assert_eq!(validate_time_order(hm(9, 0), hm(17, 0)), Ok(()));
    assert_eq!(validate_time_order(hm(9, 0), hm(9, 0)), Err(InputError::EndNotAfterStart));
    assert_eq!(validate_time_order(hm(17, 0), hm(9, 0)), Err(InputError::EndNotAfterStart));
}

#[test]
fn work_of_more_than_sixteen_hours_is_refused() {
    assert_eq!(validate_reasonable_work_hours(hm(0, 0), hm(16, 59)), Ok(()));
    assert_eq!(
        validate_reasonable_work_hours(hm(0, 0), hm(17, 0)),
        Err(InputError::WorkOver16Hours)
    );
    assert_eq!(validate_reasonable_work_hours(hm(17, 0), hm(0, 0)), Ok(()));
    assert_eq!(
        validate_reasonable_work_hours(
            TimeOfDay { secs: 0, nanos: 0 },
            TimeOfDay { secs: 25 * 3600, nanos: 0 }
        ),
        Err(InputError::WorkOver24Hours)
    );
}

#[test]
fn dates_against_a_given_today() {
    let today = CalendarDay::new(1000);
    assert_eq!(validate_date_not_future_on(today, CalendarDay::new(1000)), Ok(()));
    assert_eq!(
        validate_date_not_future_on(today, CalendarDay::new(1001)),
        Err(InputError::FutureDate)
    );
    assert_eq!(validate_reasonable_past_date_on(today, CalendarDay::new(635)), Ok(()));
    assert_eq!(
        validate_reasonable_past_date_on(today, CalendarDay::new(634)),
        Err(InputError::OverAYearAgo)
    );
    assert_eq!(validate_reasonable_past_date_on(today, CalendarDay::new(2000)), Ok(()));
}

#[test]
fn dates_against_the_system_clock() {
    assert_eq!(validate_date_not_future(CalendarDay::new(0)), Ok(()));
    assert_eq!(validate_date_not_future(CalendarDay::new(i32::MAX)), Err(InputError::FutureDate));
    assert_eq!(validate_reasonable_past_date(CalendarDay::new(0)), Err(InputError::OverAYearAgo));
    assert_eq!(validate_reasonable_past_date(CalendarDay::new(i32::MAX)), Ok(()));
}

#[test]
fn selector_sorts_by_time_and_keeps_ties_in_order() {
    let selector = RecordSelector::new(vec![
        rec(1, RecordType::End, 300),
        rec(2, RecordType::Start, 100),
        rec(3, RecordType::End, 200),
        rec(4, RecordType::Start, 200),
        rec(5, RecordType::Start, 50),
    ]);
    assert_eq!(selector.get_all_record_ids(), vec![5, 2, 3, 4, 1]);
    assert_eq!(selector.count(), 5);
    assert!(!selector.is_empty());
    assert_eq!(selector.records()[0].id, 5);
}

#[test]
fn selector_finds_by_id() {
    let selector = RecordSelector::new(vec![
        rec(1, RecordType::Start, 100),
        rec(2, RecordType::End, 200),
        rec(2, RecordType::Start, 150),
    ]);
    assert_eq!(selector.get_record_by_id(1).map(|r| r.timestamp.secs), Some(100));
    assert_eq!(selector.get_record_by_id(2).map(|r| r.timestamp.secs), Some(150));
    assert!(selector.get_record_by_id(3).is_none());
    let empty = RecordSelector::new(vec![]);
    assert!(empty.is_empty());
    assert_eq!(empty.count(), 0);
    assert!(empty.get_record_by_id(1).is_none());
    assert_eq!(empty.get_all_record_ids(), Vec::<i64>::new());
}

#[test]
fn config_needs_a_token_and_defaults_the_database() {
    let c = Config::from_values(Some("SECRET-REDACTED".to_string()), None, None).unwrap();
    assert_eq!(c.discord_token, "SECRET-REDACTED");
    assert_eq!(c.database_url, "sqlite:attendance.db");
    assert_eq!(c.admin_role_id, None);
    let c = Config::from_values(
        Some("t".to_string()),
        Some("sqlite:other.db".to_string()),
        Some("42".to_string()),
    )
    .unwrap();
    assert_eq!(c.database_url, "sqlite:other.db");
    assert_eq!(c.admin_role_id, Some("42".to_string()));
    assert_eq!(
        Config::from_values(None, Some("x".to_string()), None).err(),
        Some(ConfigError::MissingDiscordToken)
    );
}

#[test]
fn reasons_for_refused_input() {
    assert_eq!(
        InputError::EndNotAfterStart.message(),
        "終了時間は開始時間より後である必要があります"
    );
    assert_eq!(InputError::FutureDate.message(), "未来の日付を指定することはできません");
    assert_eq!(InputError::OverAYearAgo.message(), "1年以上前の日付は指定できません");
    assert_eq!(
        InputError::WorkOver16Hours.message(),
        "勤務時間が16時間を超えています。本当に正しいですか？"
    );
    assert_eq!(
        InputError::WorkOver24Hours.message(),
        "勤務時間が24時間を超えています。正しい時間を入力してください"
    );
    assert_eq!(
        TimeParseError::InvalidFormat.message(),
        "Invalid time format. Use HH:MM (supports 00:00-47:59 for night shifts)"
    );
    assert_eq!(
        ConfigError::MissingDiscordToken.message(),
        "DISCORD_TOKEN environment variable is required"
    );
}

#[test]
fn today_of_the_machine_is_no_future_date() {
    let today = chrono::Local::now().date_naive().to_epoch_days();
    assert_eq!(validate_date_not_future(CalendarDay::new(today - 1)), Ok(()));
    assert_eq!(
        validate_date_not_future(CalendarDay::new(today + 2)),
        Err(InputError::FutureDate)
    );
    assert_eq!(validate_reasonable_past_date(CalendarDay::new(today - 364)), Ok(()));
    assert_eq!(
        validate_reasonable_past_date(CalendarDay::new(today - 367)),
        Err(InputError::OverAYearAgo)
    );
}

#[test]
fn working_hours_agree_with_the_date_library() {
    let seconds: [u32; 8] = [0, 59, 3_599, 3_600, 57_600, 61_199, 64_799, 86_399];
    let nanos: [u32; 4] = [0, 999_999_999, 1_000_000_000, 1_999_999_999];
    let mut times = Vec::new();
    for s in seconds {
        for n in nanos {
            if let Some(c) = chrono::NaiveTime::from_num_seconds_from_midnight_opt(s, n) {
                times.push((TimeOfDay { secs: s, nanos: n }, c));
            }
        }
    }
    assert!(times.iter().any(|(t, _)| t.nanos >= 1_000_000_000));
    for (start, c) in &times {
        for (end, d) in &times {
            let hours = d.signed_duration_since(*c).num_hours();
            let expected = if hours > 24 {
                Err(InputError::WorkOver24Hours)
            } else if hours > 16 {
                Err(InputError::WorkOver16Hours)
            } else {
                Ok(())
            };
            assert_eq!(validate_reasonable_work_hours(*start, *end), expected);
            assert_eq!(validate_time_order(*start, *end).is_ok(), d > c);
        }
    }
    assert_eq!(
        validate_reasonable_work_hours(
            TimeOfDay { secs: 3_599, nanos: 1_000_000_000 },
            TimeOfDay { secs: 64_799, nanos: 0 }
        ),
        Err(InputError::WorkOver16Hours)
    );
    assert_eq!(
        validate_reasonable_work_hours(
            TimeOfDay { secs: 3_599, nanos: 0 },
            TimeOfDay { secs: 64_798, nanos: 999_999_999 }
        ),
        Ok(())
    );
}
