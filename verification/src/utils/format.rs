//! The texts in which a day's events and a period's sessions are shown.

use crate::database::models::{AttendanceRecord, RecordType, WorkSession};
use crate::utils::calendar::{day_text, push_day};
use crate::utils::text::{decimal_text, push_decimal};
use crate::utils::time::{
    calculate_work_duration,
    duration_text,
    format_time_jst,
    push_duration,
    time_text_jst,
    whole_minutes_between,
    CalendarDay,
    Timestamp,
};
use vstd::prelude::*;

verus! {

/// What is known after a part of the day's events was written down.
pub struct StatusScan {
    /// The text so far.
    pub text: Seq<char>,
    /// The clock-in that is open.
    pub open: Option<Timestamp>,
    /// The minutes of the sessions completed so far.
    pub total: int,
    /// The number of clock-ins so far.
    pub count: int,
}

/// The mark behind the time of an edited event.
pub open spec fn modified_mark(record: AttendanceRecord) -> Seq<char> {
    if record.is_modified {
        "(修正済み)"@
    } else {
        ""@
    }
}

/// The scan after one more event. A clock-in opens the next numbered
/// session, with a warning where the one before is still open. A clock-out
/// closes the open session and adds its minutes, or is marked as having no
/// clock-in.
pub open spec fn status_step(scan: StatusScan, record: AttendanceRecord) -> StatusScan {
    match record.record_type {
        RecordType::Start => {
            let warned = if scan.open is Some {
                scan.text + "  ⚠️ 前回の終了記録なし\n"@
            } else {
                scan.text
            };
            StatusScan {
                text: warned + "#"@ + decimal_text(scan.count + 1) + " 🟢 **開始**: "@
                    + time_text_jst(record.timestamp) + " "@ + modified_mark(record) + "\n"@,
                open: Some(record.timestamp),
                total: scan.total,
                count: scan.count + 1,
            }
        },
        RecordType::End => {
            let head = scan.text + "#"@ + decimal_text(scan.count) + " 🔴 **終了**: "@
                + time_text_jst(record.timestamp) + " "@ + modified_mark(record) + "\n"@;
            match scan.open {
                Some(start) => {
                    let minutes = whole_minutes_between(start, record.timestamp) as i32;
                    StatusScan {
                        text: head + "#"@ + decimal_text(scan.count) + " ⏱️ 勤務時間: "@
                            + duration_text(minutes as int) + "\n"@ + "\n"@,
                        open: None,
                        total: scan.total + minutes,
                        count: scan.count,
                    }
                },
                None => StatusScan {
                    text: head + "#"@ + decimal_text(scan.count) + " ⚠️ 対応する開始記録なし\n"@ + "\n"@,
                    open: None,
                    total: scan.total,
                    count: scan.count,
                },
            }
        },
    }
}

/// The scan after all of `records`, from the heading on.
pub open spec fn status_scan(records: Seq<AttendanceRecord>) -> StatusScan
    decreases records.len(),
{
    if records.len() == 0 {
        StatusScan { text: "**本日の勤務記録:**\n"@, open: None, total: 0, count: 0 }
    } else {
        status_step(status_scan(records.drop_last()), records.last())
    }
}

/// The status of a day: its events in their order, numbered by session, then
/// a note where a session is still open, the minutes worked where there are
/// any, and the number of sessions where there is more than one.
pub open spec fn status_text(records: Seq<AttendanceRecord>) -> Seq<char> {
    if records.len() == 0 {
        "今日はまだ勤務記録がありません"@
    } else {
        let scan = status_scan(records);
        let with_open = if scan.open is Some {
            scan.text + "#"@ + decimal_text(scan.count) + " ⚠️ **現在勤務中**\n\n"@
        } else {
            scan.text
        };
        let with_total = if scan.total > 0 {
            with_open + "📊 **本日の合計勤務時間**: "@ + duration_text(scan.total)
        } else {
            with_open
        };
        if scan.count > 1 {
            with_total + "\n🔄 **セッション数**: "@ + decimal_text(scan.count)
        } else {
            with_total
        }
    }
}

/// Writes the status of a day from its events in chronological order.
pub fn format_attendance_status(records: &[AttendanceRecord]) -> (status: String)
    requires
        records@.len() <= i32::MAX,
    ensures
        status@ == status_text(records@),
{
    if records.len() == 0 {
        return String::from_str("今日はまだ勤務記録がありません");
    }
    let mut status = String::from_str("**本日の勤務記録:**\n");
    let mut start_time: Option<Timestamp> = None;
    let mut total_minutes: i64 = 0;
    let mut session_count: i64 = 0;
    let mut i: usize = 0;
    while i < records.len()
        invariant
            i <= records.len() <= i32::MAX,
            status@ == status_scan(records@.subrange(0, i as int)).text,
            start_time == status_scan(records@.subrange(0, i as int)).open,
            total_minutes == status_scan(records@.subrange(0, i as int)).total,
            session_count == status_scan(records@.subrange(0, i as int)).count,
            0 <= session_count <= i,
            -2_147_483_648 * i <= total_minutes <= 2_147_483_647 * i,
        decreases records.len() - i,
    {
        let record = &records[i];
        proof {
            let upto = records@.subrange(0, i as int + 1);
            assert(upto.drop_last() =~= records@.subrange(0, i as int));
            assert(upto.last() == *record);
        }
        let ghost before = status_scan(records@.subrange(0, i as int));
        match record.record_type {
            RecordType::Start => {
                if start_time.is_some() {
                    status.append("  ⚠️ 前回の終了記録なし\n");
                }
                session_count = session_count + 1;
                status.append("#");
                push_decimal(&mut status, session_count);
                status.append(" 🟢 **開始**: ");
                let time = format_time_jst(record.timestamp);
                status.append(time.as_str());
                status.append(" ");
                if record.is_modified {
                    status.append("(修正済み)");
                } else {
                    status.append("");
                }
                status.append("\n");
                start_time = Some(record.timestamp);
            },
            RecordType::End => {
                status.append("#");
                push_decimal(&mut status, session_count);
                status.append(" 🔴 **終了**: ");
                let time = format_time_jst(record.timestamp);
                status.append(time.as_str());
                status.append(" ");
                if record.is_modified {
                    status.append("(修正済み)");
                } else {
                    status.append("");
                }
                status.append("\n");
                status.append("#");
                push_decimal(&mut status, session_count);
                match start_time {
                    Some(start) => {
                        let duration = calculate_work_duration(start, record.timestamp);
                        total_minutes = total_minutes + duration as i64;
                        status.append(" ⏱️ 勤務時間: ");
                        push_duration(&mut status, duration as i64);
                        status.append("\n");
                    },
                    None => {
                        status.append(" ⚠️ 対応する開始記録なし\n");
                    },
                }
                start_time = None;
                status.append("\n");
            },
        }
        assert(status@ == status_step(before, *record).text);
        i = i + 1;
    }
    assert(records@.subrange(0, i as int) =~= records@);
    if start_time.is_some() {
        status.append("#");
        push_decimal(&mut status, session_count);
        status.append(" ⚠️ **現在勤務中**\n\n");
    }
    if total_minutes > 0 {
        status.append("📊 **本日の合計勤務時間**: ");
        push_duration(&mut status, total_minutes);
    }
    if session_count > 1 {
        status.append("\n🔄 **セッション数**: ");
        push_decimal(&mut status, session_count);
    }
    status
}

/// An error message as shown to the user.
pub fn format_error_message(error: &str) -> (text: String)
    ensures
        text@ == "❌ **エラー**: "@ + error@,
{
    let mut text = String::from_str("❌ **エラー**: ");
    text.append(error);
    text
}

/// A message of success as shown to the user.
pub fn format_success_message(message: &str) -> (text: String)
    ensures
        text@ == "✅ "@ + message@,
{
    let mut text = String::from_str("✅ ");
    text.append(message);
    text
}

/// A piece of information as shown to the user.
pub fn format_info_message(message: &str) -> (text: String)
    ensures
        text@ == "ℹ️ "@ + message@,
{
    let mut text = String::from_str("ℹ️ ");
    text.append(message);
    text
}


/// What is known after a part of a period's sessions was written down.
pub struct SummaryScan {
    /// The text so far.
    pub text: Seq<char>,
    /// The day of the sessions last written.
    pub day: Option<CalendarDay>,
    /// The minutes of that day so far.
    pub daily: int,
    /// The minutes of all days so far.
    pub total: int,
}

/// `text` with the line that sums up a day, where the day has minutes.
pub open spec fn with_day_total(text: Seq<char>, day: Option<CalendarDay>, daily: int) -> Seq<
    char,
> {
    match day {
        Some(day) => if daily > 0 {
            text + "   📊 **"@ + day_text(day.days, "%m/%d"@) + "合計**: "@ + duration_text(daily)
                + "\n\n"@
        } else {
            text
        },
        None => text,
    }
}

/// The scan after one more session. A session of another day than the one
/// before closes that day with its total and opens the new day with a
/// heading. The session is written with its start and, where it has them,
/// its end and its minutes, which count toward the day and the period.
pub open spec fn summary_step(scan: SummaryScan, session: WorkSession) -> SummaryScan {
    let new_day = scan.day != Some(session.date);
    let headed = if new_day {
        with_day_total(scan.text, scan.day, scan.daily) + "📅 **"@ + day_text(
            session.date.days,
            "%Y-%m-%d (%a)"@,
        ) + "**\n"@
    } else {
        scan.text
    };
    let daily = if new_day {
        0
    } else {
        scan.daily
    };
    let started = headed + "   🟢 開始: "@ + time_text_jst(session.start_time);
    match session.end_time {
        Some(end) => {
            let ended = started + " → 🔴 終了: "@ + time_text_jst(end);
            match session.total_minutes {
                Some(minutes) => SummaryScan {
                    text: ended + " ("@ + duration_text(minutes as int) + ")"@ + "\n"@,
                    day: Some(session.date),
                    daily: daily + minutes,
                    total: scan.total + minutes,
                },
                None => SummaryScan {
                    text: ended + "\n"@,
                    day: Some(session.date),
                    daily,
                    total: scan.total,
                },
            }
        },
        None => SummaryScan {
            text: started + " → ⚠️ **未終了**\n"@,
            day: Some(session.date),
            daily,
            total: scan.total,
        },
    }
}

/// The scan after all of `sessions`.
pub open spec fn summary_scan(sessions: Seq<WorkSession>) -> SummaryScan
    decreases sessions.len(),
{
    if sessions.len() == 0 {
        SummaryScan { text: Seq::empty(), day: None, daily: 0, total: 0 }
    } else {
        summary_step(summary_scan(sessions.drop_last()), sessions.last())
    }
}

/// The summary of a period: its sessions day by day, each day with a
/// heading and, where it has minutes, a total; then the total of the period,
/// where it has minutes.
pub open spec fn summary_text(sessions: Seq<WorkSession>) -> Seq<char> {
    if sessions.len() == 0 {
        "指定期間に勤務記録がありません"@
    } else {
        let scan = summary_scan(sessions);
        let closed = with_day_total(scan.text, scan.day, scan.daily);
        if scan.total > 0 {
            closed + "🎯 **総合計勤務時間**: "@ + duration_text(scan.total)
        } else {
            closed
        }
    }
}

/// Appends the line that sums up a day, where the day has minutes.
fn push_day_total(out: &mut String, day: Option<CalendarDay>, daily: i64)
    requires
        day matches Some(d) ==> d.wf(),
    ensures
        final(out)@ == with_day_total(old(out)@, day, daily as int),
{
    match day {
        Some(day) => {
            if daily > 0 {
                out.append("   📊 **");
                push_day(out, day, "%m/%d");
                out.append("合計**: ");
                push_duration(out, daily);
                out.append("\n\n");
            }
        },
        None => {},
    }
}

/// Writes the summary of a period from its sessions, ordered by day and by
/// start within a day.
pub fn format_work_sessions_summary(sessions: &[WorkSession]) -> (summary: String)
    requires
        sessions@.len() <= i32::MAX,
        forall|i: int| 0 <= i < sessions@.len() ==> (#[trigger] sessions@[i]).date.wf(),
    ensures
        summary@ == summary_text(sessions@),
{
    if sessions.len() == 0 {
        return String::from_str("指定期間に勤務記録がありません");
    }
    let mut summary = String::new();
    let mut total_minutes: i64 = 0;
    let mut current_date: Option<CalendarDay> = None;
    let mut daily_minutes: i64 = 0;
    let mut i: usize = 0;
    assert(summary@ =~= Seq::<char>::empty());
    while i < sessions.len()
        invariant
            i <= sessions.len() <= i32::MAX,
            forall|k: int| 0 <= k < sessions@.len() ==> (#[trigger] sessions@[k]).date.wf(),
            summary@ == summary_scan(sessions@.subrange(0, i as int)).text,
            current_date == summary_scan(sessions@.subrange(0, i as int)).day,
            daily_minutes == summary_scan(sessions@.subrange(0, i as int)).daily,
            total_minutes == summary_scan(sessions@.subrange(0, i as int)).total,
            current_date matches Some(d) ==> d.wf(),
            -2_147_483_648 * i <= total_minutes <= 2_147_483_647 * i,
            -2_147_483_648 * i <= daily_minutes <= 2_147_483_647 * i,
        decreases sessions.len() - i,
    {
        let session = &sessions[i];
        proof {
            let upto = sessions@.subrange(0, i as int + 1);
            assert(upto.drop_last() =~= sessions@.subrange(0, i as int));
            assert(upto.last() == *session);
            assert(sessions@[i as int].date.wf());
        }
        let ghost before = summary_scan(sessions@.subrange(0, i as int));
        let same_day = match current_date {
            Some(day) => day.days == session.date.days,
            None => false,
        };
        if !same_day {
            push_day_total(&mut summary, current_date, daily_minutes);
            current_date = Some(session.date);
            daily_minutes = 0;
            summary.append("📅 **");
            push_day(&mut summary, session.date, "%Y-%m-%d (%a)");
            summary.append("**\n");
        }
        summary.append("   🟢 開始: ");
        let start = format_time_jst(session.start_time);
        summary.append(start.as_str());
        match session.end_time {
            Some(end_time) => {
                summary.append(" → 🔴 終了: ");
                let end = format_time_jst(end_time);
                summary.append(end.as_str());
                match session.total_minutes {
                    Some(minutes) => {
                        summary.append(" (");
                        push_duration(&mut summary, minutes as i64);
                        summary.append(")");
                        total_minutes = total_minutes + minutes as i64;
                        daily_minutes = daily_minutes + minutes as i64;
                    },
                    None => {},
                }
                summary.append("\n");
            },
            None => {
                summary.append(" → ⚠️ **未終了**\n");
            },
        }
        assert(summary@ == summary_step(before, *session).text);
        i = i + 1;
    }
    assert(sessions@.subrange(0, i as int) =~= sessions@);
    push_day_total(&mut summary, current_date, daily_minutes);
    if total_minutes > 0 {
        summary.append("🎯 **総合計勤務時間**: ");
        push_duration(&mut summary, total_minutes);
    }
    summary
}

} // verus!
