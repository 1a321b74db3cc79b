use kintai::utils::format::{format_error_message, format_info_message, format_success_message};
use kintai::utils::time::format_duration_minutes;

#[test]
fn test_format_error_message() {
    let result = format_error_message("テストエラー");
    assert_eq!(result, "❌ **エラー**: テストエラー");
}

#[test]
fn test_format_success_message() {
    let result = format_success_message("テスト成功");
    assert_eq!(result, "✅ テスト成功");
}

#[test]
fn test_format_info_message() {
    let result = format_info_message("テスト情報");
    assert_eq!(result, "ℹ️ テスト情報");
}

#[test]
fn duration_with_hours_and_minutes() {
    assert_eq!(format_duration_minutes(510), "8時間30分");
    assert_eq!(format_duration_minutes(180), "3時間0分");
    assert_eq!(format_duration_minutes(60), "1時間0分");
    assert_eq!(format_duration_minutes(1234567), "20576時間7分");
}

#[test]
fn duration_below_an_hour_has_minutes_only() {
    assert_eq!(format_duration_minutes(59), "59分");
    assert_eq!(format_duration_minutes(0), "0分");
}

#[test]
fn negative_duration_rounds_toward_zero() {
    assert_eq!(format_duration_minutes(-30), "-30分");
    assert_eq!(format_duration_minutes(-90), "-30分");
    assert_eq!(format_duration_minutes(i32::MIN), "-8分");
    assert_eq!(format_duration_minutes(i32::MAX), "35791394時間7分");
}
