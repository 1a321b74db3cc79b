use chrono::{Datelike, NaiveDate};
use kintai::bot::commands::attendance::{end, start, EndDecision, StartDecision};
use kintai::bot::commands::reports::{daily, day_label, monthly, weekly, ReportRange};
use kintai::bot::interactions::status_buttons::{
    find_record, format_history, get_weekday_jp, handle_add_end_modal, handle_add_start_modal,
    handle_confirm_delete_single, handle_delete_record_selected, handle_history_date_selected,
    handle_history_view, handle_status_interaction, handle_status_modal, handle_time_edit_modal,
    plan_new_record, plan_time_edit, same_text, DeleteChoice, ModalRoute, Refusal, Route,
    TimeEdit,
};
use kintai::database::models::{AttendanceRecord, RecordType};
use kintai::utils::record_selector::RecordSelector;
use kintai::utils::record_validator::ValidationError;
use kintai::utils::calendar::{parse_date};
use kintai::utils::text::{read_digits, read_signed};
use kintai::utils::time::{
    combine_date_time_jst,
    day_bounds_jst,
    get_date_from_utc_timestamp,
    CalendarDay,
    TimeOfDay,
    TimeParseError,
    Timestamp,
};

fn day(y: i32, m: u32, d: u32) -> CalendarDay {
    CalendarDay::new(NaiveDate::from_ymd_opt(y, m, d).unwrap().to_epoch_days())
}

fn at(h: u32, m: u32) -> Timestamp {
    combine_date_time_jst(day(2023, 12, 15), TimeOfDay::from_hms_opt(h, m, 0).unwrap())
}

fn rec(id: i64, kind: RecordType, h: u32, m: u32) -> AttendanceRecord {
    AttendanceRecord::new(id, 1, kind, at(h, m))
}

#[test]
fn clocking_in_is_refused_while_at_work() {
    let now = at(10, 0);
    assert_eq!(start(&[], now), StartDecision::Record { timestamp: now });
    let records = vec![rec(1, RecordType::Start, 9, 0)];
    assert_eq!(start(&records, now), StartDecision::AlreadyWorking { since: at(9, 0) });
    let records = vec![rec(1, RecordType::Start, 9, 0), rec(2, RecordType::End, 9, 30)];
    assert_eq!(start(&records, now), StartDecision::Record { timestamp: now });
}

#[test]
fn clocking_out_needs_an_open_clock_in() {
    let now = at(17, 30);
    assert_eq!(end(&[], now), EndDecision::NotWorking);
    let records = vec![rec(1, RecordType::Start, 9, 0), rec(2, RecordType::End, 12, 0)];
    assert_eq!(end(&records, now), EndDecision::NotWorking);
    let records = vec![rec(1, RecordType::Start, 9, 0)];
    assert_eq!(
        end(&records, now),
        EndDecision::Record { timestamp: now, started: at(9, 0), minutes: 510 }
    );
}

#[test]
fn report_periods() {
    let friday = day(2023, 12, 15);
    assert_eq!(daily(friday), ReportRange { start: friday, end: friday });
    assert_eq!(weekly(friday), ReportRange { start: day(2023, 12, 11), end: friday });
    assert_eq!(weekly(day(2023, 12, 11)).start, day(2023, 12, 11));
    assert_eq!(weekly(day(2023, 12, 17)).start, day(2023, 12, 11));
    assert_eq!(monthly(friday), ReportRange { start: day(2023, 12, 1), end: friday });
    assert_eq!(monthly(day(2024, 2, 29)).start, day(2024, 2, 1));
    assert_eq!(monthly(day(2024, 3, 1)).start, day(2024, 3, 1));
    let outside = CalendarDay::new(i32::MAX);
    assert_eq!(monthly(outside).start, outside);
    let first = CalendarDay::new(kintai::utils::time::MIN_CALENDAR_DAY);
    assert!(weekly(first).start.days >= first.days);
    assert_eq!(weekly(friday).describe(), "2023年12月11日 ～ 2023年12月15日");
    assert_eq!(day_label(friday), "2023年12月15日");
}

#[test]
fn weekday_agrees_with_the_calendar() {
    let names = ["月", "火", "水", "木", "金", "土", "日"];
    for offset in -800..800 {
        let d = CalendarDay::new(offset * 13);
        let date = NaiveDate::from_epoch_days(d.days).unwrap();
        let n = date.weekday().num_days_from_monday();
        assert_eq!(d.weekday_from_monday(), n);
        assert_eq!(get_weekday_jp(d), names[n as usize]);
    }
    assert_eq!(get_weekday_jp(day(2023, 12, 15)), "金");
}

#[test]
fn routes_of_buttons_and_menus() {
    let route = handle_status_interaction;
    assert_eq!(route("time_edit:42", "42"), Route::TimeEdit);
    assert_eq!(route("record_add:42", "42"), Route::RecordAdd);
    assert_eq!(route("delete_record:42", "42"), Route::DeleteRecord);
    assert_eq!(route("history_view:42", "42"), Route::HistoryView);
    assert_eq!(route("add_start_record:42", "42"), Route::AddStartRecord);
    assert_eq!(route("add_end_record:42", "42"), Route::AddEndRecord);
    assert_eq!(route("cancel_add:42", "42"), Route::Cancel);
    assert_eq!(route("cancel_delete:42", "42"), Route::Cancel);
    assert_eq!(route("confirm_delete_single:42:7", "42"), Route::ConfirmDeleteSingle);
    assert_eq!(route("confirm_delete_all:42", "42"), Route::ConfirmDeleteAll);
    assert_eq!(route("time_edit:42", "43"), Route::AccessDenied);
    assert_eq!(route("time_edit:", "42"), Route::AccessDenied);
    assert_eq!(route("time_edit:", ""), Route::TimeEdit);
    assert_eq!(route("nonsense:42", "42"), Route::NotImplemented);
    assert_eq!(route("nonsense:42", "1"), Route::AccessDenied);
    assert_eq!(route("edit_record_select", "42"), Route::EditRecordSelected);
    assert_eq!(route("delete_record_select", "42"), Route::DeleteRecordSelected);
    assert_eq!(route("history_date_select", "42"), Route::HistoryDateSelected);
    assert_eq!(route("time_edit", "42"), Route::NotImplemented);
    assert_eq!(route("", "42"), Route::NotImplemented);
    assert_eq!(route(":", ""), Route::NotImplemented);
}

#[test]
fn routes_of_dialogs() {
    assert_eq!(handle_status_modal("time_edit_modal"), ModalRoute::TimeEdit);
    assert_eq!(handle_status_modal("add_start_modal"), ModalRoute::AddStart);
    assert_eq!(handle_status_modal("add_end_modal"), ModalRoute::AddEnd);
    assert_eq!(handle_status_modal("other"), ModalRoute::NotImplemented);
    assert!(same_text("abc", "abc"));
    assert!(!same_text("abc", "abd"));
    assert!(!same_text("abc", "ab"));
    assert!(same_text("", ""));
}

#[test]
fn confirmed_deletion_needs_an_event_of_the_day() {
    let records = vec![rec(7, RecordType::Start, 9, 0), rec(8, RecordType::End, 17, 0)];
    let target = |id| handle_confirm_delete_single(id, &records);
    assert_eq!(target("confirm_delete_single:42:7"), Ok(7));
    assert_eq!(target("confirm_delete_single:42:8:extra"), Ok(8));
    assert_eq!(target("confirm_delete_single:42:+8"), Ok(8));
    assert_eq!(target("confirm_delete_single:42:9"), Err(Refusal::RecordNotFound));
    assert_eq!(target("confirm_delete_single:42:x"), Err(Refusal::InvalidRecordId));
    assert_eq!(target("confirm_delete_single:42:"), Err(Refusal::InvalidRecordId));
    assert_eq!(target("confirm_delete_single:42"), Err(Refusal::MissingRecordId));
    assert_eq!(target("confirm_delete_single"), Err(Refusal::MissingRecordId));
    assert_eq!(find_record(&records, 8), Some(1));
    assert_eq!(find_record(&records, 1), None);
}

#[test]
fn numbers_are_read_as_the_standard_library_reads_them() {
    for text in [
        "0", "7", "-7", "+7", "007", "-0", "9223372036854775807", "-9223372036854775808",
        "9223372036854775808", "-9223372036854775809", "99999999999999999999999", "", "+", "-",
        "+-1", "1 ", " 1", "1x", "٣",
    ] {
        let n = text.chars().count();
        assert_eq!(read_signed(text, 0, n), text.parse::<i64>().ok(), "{:?}", text);
    }
    assert_eq!(read_signed("ab-12cd", 2, 5), Some(-12));
    assert_eq!(read_digits("12345", 0, 5, 1000), Some(1000));
    assert_eq!(read_digits("12345", 1, 3, 1000), Some(23));
    assert_eq!(read_digits("12a", 0, 3, 1000), None);
    assert_eq!(read_digits("12", 1, 1, 1000), None);
}

#[test]
fn adding_an_event_through_the_dialog() {
    let now = at(18, 0);
    let records = vec![rec(1, RecordType::Start, 9, 0), rec(2, RecordType::End, 12, 0)];
    assert_eq!(handle_add_start_modal(now, &records, "13:00"), Ok(at(13, 0)));
    assert_eq!(
        handle_add_end_modal(now, &records, "13:00"),
        Err(Refusal::Rule(ValidationError::BrokenAlternation { position: 3 }))
    );
    assert_eq!(
        handle_add_start_modal(now, &records, "12:00"),
        Err(Refusal::Rule(ValidationError::DuplicateInstant))
    );
    assert_eq!(
        handle_add_start_modal(now, &records, "19:00"),
        Err(Refusal::Rule(ValidationError::FutureTimeToday))
    );
    assert_eq!(
        handle_add_start_modal(now, &records, "soon"),
        Err(Refusal::Time(TimeParseError::InvalidFormat))
    );
    let open = vec![rec(1, RecordType::Start, 9, 0)];
    assert_eq!(handle_add_end_modal(now, &open, " 17:30 "), Ok(at(17, 30)));
    assert_eq!(
        plan_new_record(now, &open, RecordType::End, TimeOfDay::from_hms_opt(17, 30, 0).unwrap()),
        Ok(at(17, 30))
    );
}

#[test]
fn editing_an_event_through_the_dialog() {
    let now = at(18, 0);
    let records = vec![rec(1, RecordType::Start, 9, 0), rec(2, RecordType::End, 12, 0)];
    assert_eq!(
        handle_time_edit_modal(now, &records, "x", "09:30"),
        Err(Refusal::InvalidRecordId)
    );
    assert_eq!(handle_time_edit_modal(now, &records, "x", "bad"), Err(Refusal::InvalidRecordId));
    assert_eq!(
        handle_time_edit_modal(now, &records, "1", "bad"),
        Err(Refusal::Time(TimeParseError::InvalidFormat))
    );
    assert_eq!(
        handle_time_edit_modal(now, &records, "2", "12:30"),
        Err(Refusal::Rule(ValidationError::BrokenAlternation { position: 3 }))
    );
    assert_eq!(
        handle_time_edit_modal(now, &records, "2", "09:00"),
        Err(Refusal::Rule(ValidationError::DuplicateInstant))
    );
    assert_eq!(
        handle_time_edit_modal(now, &records, "99", "12:30"),
        Err(Refusal::RecordNotFound)
    );
    assert_eq!(
        handle_time_edit_modal(now, &[], "7", "00:00"),
        Err(Refusal::RecordNotFound)
    );
    assert_eq!(
        plan_time_edit(now, &[], 7, TimeOfDay::from_hms_opt(0, 0, 0).unwrap()),
        Err(Refusal::RecordNotFound)
    );
    let gap = vec![
        rec(1, RecordType::Start, 9, 0),
        rec(2, RecordType::End, 12, 0),
        rec(3, RecordType::End, 17, 0),
    ];
    assert_eq!(
        handle_time_edit_modal(now, &gap, "1", "13:00"),
        Ok(TimeEdit { record_id: 1, new_timestamp: at(13, 0) })
    );
    let only_out = vec![rec(5, RecordType::End, 12, 0)];
    assert_eq!(
        plan_time_edit(now, &only_out, 6, TimeOfDay::from_hms_opt(13, 0, 0).unwrap()),
        Err(Refusal::RecordNotFound)
    );
    let orphan = vec![rec(5, RecordType::End, 12, 0)];
    assert_eq!(
        plan_time_edit(now, &orphan, 5, TimeOfDay::from_hms_opt(13, 0, 0).unwrap()),
        Err(Refusal::Rule(ValidationError::BrokenAlternation { position: 1 }))
    );
}

#[test]
fn choice_in_the_menu_of_deletions() {
    assert_eq!(handle_delete_record_selected("delete_all"), DeleteChoice::All);
    assert_eq!(handle_delete_record_selected("17"), DeleteChoice::Single);
    assert_eq!(handle_delete_record_selected(""), DeleteChoice::Single);
}

#[test]
fn menu_of_events_to_edit() {
    let mut edited = rec(2, RecordType::End, 17, 30).with_edited_time(at(17, 45), at(18, 0));
    let selector =
        RecordSelector::new(vec![edited, rec(1, RecordType::Start, 9, 0)]);
    let options = selector.create_select_menu().unwrap();
    assert_eq!(options.len(), 2);
    assert_eq!(options[0].label, "09:00 開始");
    assert_eq!(options[0].value, "1");
    assert_eq!(options[0].description, "記録ID: 1");
    assert_eq!(options[1].label, "17:45 終了 (修正済み)");
    assert_eq!(options[1].value, "2");
    assert_eq!(options[1].description, "元の時間: 17:30");
    edited.original_timestamp = None;
    let options = RecordSelector::new(vec![edited]).create_select_menu().unwrap();
    assert_eq!(options[0].description, "修正済みの記録");
    assert!(RecordSelector::new(vec![]).create_select_menu().is_none());
}

#[test]
fn menus_take_twenty_five_entries() {
    let many: Vec<AttendanceRecord> =
        (0..30).map(|i| rec(i, RecordType::Start, 9, i as u32)).collect();
    assert_eq!(RecordSelector::new(many.clone()).create_select_menu().unwrap().len(), 25);
    let options = RecordSelector::new(many.clone()).create_delete_select_menu().unwrap();
    assert_eq!(options.len(), 25);
    assert_eq!(options[24].value, "24");
    let options =
        RecordSelector::new(many[..24].to_vec()).create_delete_select_menu().unwrap();
    assert_eq!(options.len(), 25);
    assert_eq!(options[24].value, "delete_all");
}

#[test]
fn menu_of_events_to_delete() {
    let selector = RecordSelector::new(vec![
        rec(1, RecordType::Start, 9, 0),
        rec(2, RecordType::End, 17, 30).with_edited_time(at(17, 45), at(18, 0)),
    ]);
    let options = selector.create_delete_select_menu().unwrap();
    assert_eq!(options.len(), 3);
    assert_eq!(options[0].label, "09:00 開始");
    assert_eq!(options[1].label, "17:45 終了");
    assert_eq!(options[1].description, "記録ID: 2");
    assert_eq!(options[2].label, "🗑️ 全て削除");
    assert_eq!(options[2].value, "delete_all");
    assert_eq!(options[2].description, "当日のすべての記録を削除します");
    let one = RecordSelector::new(vec![rec(1, RecordType::Start, 9, 0)]);
    assert_eq!(one.create_delete_select_menu().unwrap().len(), 1);
    assert!(RecordSelector::new(vec![]).create_delete_select_menu().is_none());
}

#[test]
fn history_menu_and_text() {
    let days: Vec<CalendarDay> = (0..25).map(|i| CalendarDay::new(19_706 - i)).collect();
    let options = handle_history_view(&days);
    assert_eq!(options.len(), 20);
    assert_eq!(options[0].label, "2023/12/15 (金)");
    assert_eq!(options[0].value, "2023-12-15");
    assert_eq!(options[1].label, "2023/12/14 (木)");
    assert_eq!(handle_history_view(&days[..3]).len(), 3);
    assert_eq!(handle_history_date_selected("2023-12-15"), Some(day(2023, 12, 15)));
    assert_eq!(handle_history_date_selected("2023-13-15"), None);
    assert_eq!(handle_history_date_selected(""), None);
    assert_eq!(parse_date("1970-01-01"), Some(CalendarDay::new(0)));
    assert_eq!(format_history(day(2023, 12, 15), &[]), "📋 2023/12/15 (金) の記録はありません");
    let records = vec![rec(1, RecordType::Start, 9, 0)];
    assert_eq!(
        format_history(day(2023, 12, 15), &records),
        "📋 **2023/12/15 (金) の勤務記録**\n\n**本日の勤務記録:**\n#1 🟢 **開始**: 09:00 \n#1 ⚠️ **現在勤務中**\n\n"
    );
}

#[test]
fn bounds_of_a_day_hold_its_instants() {
    let date = day(2023, 12, 15);
    let (start, end) = day_bounds_jst(date);
    assert_eq!(start, at(0, 0));
    assert_eq!(end.secs - start.secs, 86_400);
    assert_eq!(get_date_from_utc_timestamp(start), date);
    assert_eq!(get_date_from_utc_timestamp(Timestamp::new(end.secs - 1, 999_999_999)), date);
    assert_eq!(get_date_from_utc_timestamp(end), day(2023, 12, 16));
    assert_eq!(get_date_from_utc_timestamp(Timestamp::new(start.secs - 1, 0)), day(2023, 12, 14));
}
