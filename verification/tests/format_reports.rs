use chrono::{NaiveDate, TimeZone};
use kintai::database::models::{AttendanceRecord, RecordType, WorkSession};
use kintai::utils::format::{format_attendance_status, format_work_sessions_summary};
use kintai::utils::time::{
    format_datetime_jst,
    CalendarDay,
    Timestamp,
    MAX_CALENDAR_DAY,
    MIN_CALENDAR_DAY,
};

fn instant(date: NaiveDate, hour: u32, minute: u32) -> Timestamp {
    let jst_offset = chrono::FixedOffset::east_opt(9 * 3600).unwrap();
    let time = chrono::NaiveTime::from_hms_opt(hour, minute, 0).unwrap();
    let datetime = jst_offset.from_local_datetime(&date.and_time(time)).unwrap().to_utc();
    Timestamp::new(datetime.timestamp(), datetime.timestamp_subsec_nanos())
}

fn create_test_record(
    id: i64,
    record_type: &str,
    hour: u32,
    minute: u32,
    is_modified: bool,
) -> AttendanceRecord {
    let date = NaiveDate::from_ymd_opt(2023, 12, 15).unwrap();
    let datetime = instant(date, hour, minute);
    AttendanceRecord {
        id,
        user_id: 1,
        record_type: RecordType::from_name(record_type).unwrap(),
        timestamp: datetime,
        is_modified,
        original_timestamp: None,
        created_at: datetime,
        updated_at: datetime,
    }
}

fn create_test_session(
    id: i64,
    start_hour: u32,
    start_minute: u32,
    end_hour: Option<u32>,
    end_minute: Option<u32>,
    date: NaiveDate,
) -> WorkSession {
    let start_datetime = instant(date, start_hour, start_minute);
    let (end_time, total_minutes, is_completed) =
        if let (Some(eh), Some(em)) = (end_hour, end_minute) {
            let end_datetime = instant(date, eh, em);
            let duration = ((end_datetime.secs - start_datetime.secs) / 60) as i32;
            (Some(end_datetime), Some(duration), true)
        } else {
            (None, None, false)
        };
    WorkSession {
        id,
        user_id: 1,
        start_time: start_datetime,
        end_time,
        total_minutes,
        date: CalendarDay::new(date.to_epoch_days()),
        is_completed,
        created_at: start_datetime,
        updated_at: start_datetime,
    }
}

#[test]
fn test_format_attendance_status_empty() {
    let records = vec![];
    let result = format_attendance_status(&records);
    assert_eq!(result, "今日はまだ勤務記録がありません");
}

#[test]
fn test_format_attendance_status_single_complete_session() {
    let records = vec![
        create_test_record(1, "start", 9, 0, false),
        create_test_record(2, "end", 17, 30, false),
    ];
    let result = format_attendance_status(&records);

    assert!(result.contains("**本日の勤務記録:**"));
    assert!(result.contains("#1 🟢 **開始**: 09:00"));
    assert!(result.contains("#1 🔴 **終了**: 17:30"));
    assert!(result.contains("#1 ⏱️ 勤務時間: 8時間30分"));
    assert!(result.contains("📊 **本日の合計勤務時間**: 8時間30分"));
    assert!(!result.contains("(修正済み)"));
}

#[test]
fn test_format_attendance_status_modified_records() {
    let records = vec![
        create_test_record(1, "start", 9, 0, true),
        create_test_record(2, "end", 17, 30, true),
    ];
    let result = format_attendance_status(&records);

    assert!(result.contains("#1 🟢 **開始**: 09:00 (修正済み)"));
    assert!(result.contains("#1 🔴 **終了**: 17:30 (修正済み)"));
}

#[test]
fn test_format_attendance_status_currently_working() {
    let records = vec![create_test_record(1, "start", 9, 0, false)];
    let result = format_attendance_status(&records);

    assert!(result.contains("#1 🟢 **開始**: 09:00"));
    assert!(result.contains("#1 ⚠️ **現在勤務中**"));
    assert!(!result.contains("📊 **本日の合計勤務時間**"));
}

#[test]
fn test_format_attendance_status_multiple_sessions() {
    let records = vec![
        create_test_record(1, "start", 9, 0, false),
        create_test_record(2, "end", 12, 0, false),
        create_test_record(3, "start", 13, 0, false),
        create_test_record(4, "end", 17, 30, false),
    ];
    let result = format_attendance_status(&records);

    assert!(result.contains("#1 🟢 **開始**: 09:00"));
    assert!(result.contains("#1 🔴 **終了**: 12:00"));
    assert!(result.contains("#1 ⏱️ 勤務時間: 3時間0分"));
    assert!(result.contains("#2 🟢 **開始**: 13:00"));
    assert!(result.contains("#2 🔴 **終了**: 17:30"));
    assert!(result.contains("#2 ⏱️ 勤務時間: 4時間30分"));
    assert!(result.contains("📊 **本日の合計勤務時間**: 7時間30分"));
    assert!(result.contains("🔄 **セッション数**: 2"));
}

#[test]
fn test_format_attendance_status_end_without_start() {
    let records = vec![create_test_record(1, "end", 17, 30, false)];
    let result = format_attendance_status(&records);

    assert!(result.contains("#0 🔴 **終了**: 17:30"));
    assert!(result.contains("#0 ⚠️ 対応する開始記録なし"));
}

#[test]
fn test_format_attendance_status_missing_end() {
    let records = vec![
        create_test_record(1, "start", 9, 0, false),
        create_test_record(2, "start", 13, 0, false),
    ];
    let result = format_attendance_status(&records);

    assert!(result.contains("#1 🟢 **開始**: 09:00"));
    assert!(result.contains("⚠️ 前回の終了記録なし"));
    assert!(result.contains("#2 🟢 **開始**: 13:00"));
    assert!(result.contains("#2 ⚠️ **現在勤務中**"));
}

#[test]
fn test_format_work_sessions_summary_empty() {
    let sessions = vec![];
    let result = format_work_sessions_summary(&sessions);
    assert_eq!(result, "指定期間に勤務記録がありません");
}

#[test]
fn test_format_work_sessions_summary_single_day() {
    let date = NaiveDate::from_ymd_opt(2023, 12, 15).unwrap();
    let sessions = vec![create_test_session(1, 9, 0, Some(17), Some(30), date)];
    let result = format_work_sessions_summary(&sessions);

    assert!(result.contains("📅 **2023-12-15 (Fri)**"));
    assert!(result.contains("🟢 開始: 09:00 → 🔴 終了: 17:30 (8時間30分)"));
    assert!(result.contains("📊 **12/15合計**: 8時間30分"));
    assert!(result.contains("🎯 **総合計勤務時間**: 8時間30分"));
}

#[test]
fn test_format_work_sessions_summary_multiple_days() {
    let date1 = NaiveDate::from_ymd_opt(2023, 12, 15).unwrap();
    let date2 = NaiveDate::from_ymd_opt(2023, 12, 16).unwrap();
    let sessions = vec![
        create_test_session(1, 9, 0, Some(17), Some(0), date1),
        create_test_session(2, 10, 0, Some(18), Some(30), date2),
    ];
    let result = format_work_sessions_summary(&sessions);

    assert!(result.contains("📅 **2023-12-15 (Fri)**"));
    assert!(result.contains("🟢 開始: 09:00 → 🔴 終了: 17:00 (8時間0分)"));
    assert!(result.contains("📊 **12/15合計**: 8時間0分"));

    assert!(result.contains("📅 **2023-12-16 (Sat)**"));
    assert!(result.contains("🟢 開始: 10:00 → 🔴 終了: 18:30 (8時間30分)"));
    assert!(result.contains("📊 **12/16合計**: 8時間30分"));

    assert!(result.contains("🎯 **総合計勤務時間**: 16時間30分"));
}

#[test]
fn test_format_work_sessions_summary_with_incomplete_session() {
    let date = NaiveDate::from_ymd_opt(2023, 12, 15).unwrap();
    let sessions = vec![
        create_test_session(1, 9, 0, Some(12), Some(0), date),
        create_test_session(2, 13, 0, None, None, date),
    ];
    let result = format_work_sessions_summary(&sessions);

    assert!(result.contains("📅 **2023-12-15 (Fri)**"));
    assert!(result.contains("🟢 開始: 09:00 → 🔴 終了: 12:00 (3時間0分)"));
    assert!(result.contains("🟢 開始: 13:00 → ⚠️ **未終了**"));
    assert!(result.contains("📊 **12/15合計**: 3時間0分"));
    assert!(result.contains("🎯 **総合計勤務時間**: 3時間0分"));
}

#[test]
fn test_format_work_sessions_summary_multiple_sessions_same_day() {
    let date = NaiveDate::from_ymd_opt(2023, 12, 15).unwrap();
    let sessions = vec![
        create_test_session(1, 9, 0, Some(12), Some(0), date),
        create_test_session(2, 13, 0, Some(17), Some(30), date),
    ];
    let result = format_work_sessions_summary(&sessions);

    assert!(result.contains("📅 **2023-12-15 (Fri)**"));
    assert!(result.contains("🟢 開始: 09:00 → 🔴 終了: 12:00 (3時間0分)"));
    assert!(result.contains("🟢 開始: 13:00 → 🔴 終了: 17:30 (4時間30分)"));
    assert!(result.contains("📊 **12/15合計**: 7時間30分"));
    assert!(result.contains("🎯 **総合計勤務時間**: 7時間30分"));
}

#[test]
fn status_text_in_full() {
    let records = vec![
        create_test_record(1, "start", 9, 0, false),
        create_test_record(2, "end", 12, 0, true),
        create_test_record(3, "start", 13, 0, false),
    ];
    assert_eq!(
        format_attendance_status(&records),
        "**本日の勤務記録:**\n#1 🟢 **開始**: 09:00 \n#1 🔴 **終了**: 12:00 (修正済み)\n#1 ⏱️ 勤務時間: 3時間0分\n\n#2 🟢 **開始**: 13:00 \n#2 ⚠️ **現在勤務中**\n\n📊 **本日の合計勤務時間**: 3時間0分\n🔄 **セッション数**: 2"
    );
}

#[test]
fn summary_text_in_full() {
    let date1 = NaiveDate::from_ymd_opt(2023, 12, 15).unwrap();
    let date2 = NaiveDate::from_ymd_opt(2023, 12, 16).unwrap();
    let sessions = vec![
        create_test_session(1, 9, 0, Some(9), Some(45), date1),
        create_test_session(2, 10, 0, None, None, date2),
    ];
    assert_eq!(
        format_work_sessions_summary(&sessions),
        "📅 **2023-12-15 (Fri)**\n   🟢 開始: 09:00 → 🔴 終了: 09:45 (45分)\n   📊 **12/15合計**: 45分\n\n📅 **2023-12-16 (Sat)**\n   🟢 開始: 10:00 → ⚠️ **未終了**\n🎯 **総合計勤務時間**: 45分"
    );
}

#[test]
fn date_and_time_in_japan() {
    let date = NaiveDate::from_ymd_opt(2023, 12, 15).unwrap();
    let t = instant(date, 23, 5);
    assert_eq!(format_datetime_jst(t), "2023-12-15 23:05:00 JST");
    let utc = chrono::Utc.with_ymd_and_hms(2023, 12, 15, 15, 0, 7).unwrap();
    let t = Timestamp::new(utc.timestamp(), 0);
    assert_eq!(format_datetime_jst(t), "2023-12-16 00:00:07 JST");
    let jst = chrono::FixedOffset::east_opt(9 * 3600).unwrap();
    assert_eq!(
        format_datetime_jst(t),
        utc.with_timezone(&jst).format("%Y-%m-%d %H:%M:%S JST").to_string()
    );
}

#[test]
fn calendar_range_is_that_of_the_date_type() {
    assert_eq!(NaiveDate::MIN.to_epoch_days(), MIN_CALENDAR_DAY);
    assert_eq!(NaiveDate::MAX.to_epoch_days(), MAX_CALENDAR_DAY);
    assert!(NaiveDate::from_epoch_days(MIN_CALENDAR_DAY - 1).is_none());
    assert!(NaiveDate::from_epoch_days(MAX_CALENDAR_DAY + 1).is_none());
    assert!(CalendarDay::new(MIN_CALENDAR_DAY).in_calendar());
    assert!(CalendarDay::new(MAX_CALENDAR_DAY).in_calendar());
    assert!(!CalendarDay::new(MAX_CALENDAR_DAY + 1).in_calendar());
    assert!(!CalendarDay::new(MIN_CALENDAR_DAY - 1).in_calendar());
}
