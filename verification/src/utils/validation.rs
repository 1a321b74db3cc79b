//! Checks on what a user types in: times of day, pairs of times, and dates.

use crate::utils::time::{
    leap_correction,
    parse_time_spec,
    parse_time_string,
    parse_time_with_day_info,
    truncated_quotient,
    CalendarDay,
    TimeOfDay,
    TimeParseError,
};
use vstd::prelude::*;

verus! {

/// Why a pair of times or a date was refused.
#[derive(Clone, Copy, Debug, PartialEq, Eq, Structural)]
pub enum InputError {
    /// The end is not after the start.
    EndNotAfterStart,
    /// The work would last more than 24 full hours.
    WorkOver24Hours,
    /// The work would last more than 16 full hours.
    WorkOver16Hours,
    /// The date lies after today.
    FutureDate,
    /// The date lies more than 365 days back.
    OverAYearAgo,
}

/// Full hours from `start_time` to `end_time` on one day, rounded toward
/// zero, a written leap second counted as the `chrono` crate counts it.
pub open spec fn whole_hours_between(start_time: TimeOfDay, end_time: TimeOfDay) -> int {
    truncated_quotient(
        (end_time.secs - start_time.secs + leap_correction(
            start_time.secs as int,
            start_time.nanos as int,
            end_time.secs as int,
            end_time.nanos as int,
        )) * 1_000_000_000 + (end_time.nanos - start_time.nanos),
        3_600_000_000_000,
    )
}

/// The result of the check on working hours.
pub open spec fn work_hours_outcome(start_time: TimeOfDay, end_time: TimeOfDay) -> Result<
    (),
    InputError,
> {
    let hours = whole_hours_between(start_time, end_time);
    if hours > 24 {
        Err(InputError::WorkOver24Hours)
    } else if hours > 16 {
        Err(InputError::WorkOver16Hours)
    } else {
        Ok(())
    }
}

/// The calendar day that the system clock shows in the time zone of the
/// machine, through `chrono::Local::now`. Nothing is stated of it.
#[verifier::external_body]
fn local_today() -> (today: CalendarDay) {
    CalendarDay { days: chrono::Local::now().date_naive().to_epoch_days() }
}

/// Reads a time of day from user input.
pub fn validate_time_format(time_str: &str) -> (outcome: Result<TimeOfDay, TimeParseError>)
    ensures
        outcome == match parse_time_spec(time_str@) {
            Ok((time, _)) => Ok::<TimeOfDay, TimeParseError>(time),
            Err(e) => Err(e),
        },
{
    parse_time_string(time_str)
}

/// Reads a time of day from user input, and whether it belongs to the next
/// day as a night-shift time does.
pub fn validate_time_format_with_day_info(time_str: &str) -> (outcome: Result<
    (TimeOfDay, bool),
    TimeParseError,
>)
    ensures
        outcome == parse_time_spec(time_str@),
{
    parse_time_with_day_info(time_str)
}

/// Checks that the end lies after the start.
pub fn validate_time_order(start_time: TimeOfDay, end_time: TimeOfDay) -> (outcome: Result<
    (),
    InputError,
>)
    ensures
        outcome == if start_time.before(end_time) {
            Ok::<(), InputError>(())
        } else {
            Err(InputError::EndNotAfterStart)
        },
{
    if start_time.is_before(&end_time) {
        Ok(())
    } else {
        Err(InputError::EndNotAfterStart)
    }
}

/// Checks that the work from start to end lasts no more than 16 full hours.
pub fn validate_reasonable_work_hours(start_time: TimeOfDay, end_time: TimeOfDay) -> (outcome:
    Result<(), InputError>)
    ensures
        outcome == work_hours_outcome(start_time, end_time),
{
    let correction: i128 = if end_time.secs > start_time.secs && start_time.nanos
        >= 1_000_000_000 {
        1
    } else if end_time.secs < start_time.secs && end_time.nanos >= 1_000_000_000 {
        -1
    } else {
        0
    };
    let elapsed: i128 = (end_time.secs as i128 - start_time.secs as i128 + correction)
        * 1_000_000_000 + (end_time.nanos as i128 - start_time.nanos as i128);
    let hours: i128 = elapsed / 3_600_000_000_000;
    if hours > 24 {
        return Err(InputError::WorkOver24Hours);
    }
    if hours > 16 {
        return Err(InputError::WorkOver16Hours);
    }
    Ok(())
}

/// Checks that a date does not lie after `today`.
pub fn validate_date_not_future_on(today: CalendarDay, date: CalendarDay) -> (outcome: Result<
    (),
    InputError,
>)
    ensures
        outcome == if date.days > today.days {
            Err::<(), InputError>(InputError::FutureDate)
        } else {
            Ok(())
        },
{
    if date.days > today.days {
        Err(InputError::FutureDate)
    } else {
        Ok(())
    }
}

/// Checks that a date lies no more than 365 days before `today`.
pub fn validate_reasonable_past_date_on(today: CalendarDay, date: CalendarDay) -> (outcome: Result<
    (),
    InputError,
>)
    ensures
        outcome == if today.days - date.days > 365 {
            Err::<(), InputError>(InputError::OverAYearAgo)
        } else {
            Ok(())
        },
{
    let days_ago: i64 = today.days as i64 - date.days as i64;
    if days_ago > 365 {
        Err(InputError::OverAYearAgo)
    } else {
        Ok(())
    }
}

/// Checks that a date does not lie after the day that the system clock
/// shows in the time zone of the machine.
pub fn validate_date_not_future(date: CalendarDay) -> (outcome: Result<(), InputError>)
    ensures
        outcome is Ok || outcome == Err::<(), InputError>(InputError::FutureDate),
        exists|today: CalendarDay|
            outcome is Err <==> date.days > (#[trigger] today.days),
{
    let today = local_today();
    validate_date_not_future_on(today, date)
}

/// Checks that a date lies no more than 365 days before the day that the
/// system clock shows in the time zone of the machine.
pub fn validate_reasonable_past_date(date: CalendarDay) -> (outcome: Result<(), InputError>)
    ensures
        outcome is Ok || outcome == Err::<(), InputError>(InputError::OverAYearAgo),
        exists|today: CalendarDay|
            outcome is Err <==> (#[trigger] today.days) - date.days > 365,
{
    let today = local_today();
    validate_reasonable_past_date_on(today, date)
}


impl InputError {
    /// The reason as told to the user.
    pub open spec fn message_text(self) -> Seq<char> {
        match self {
            InputError::EndNotAfterStart => "終了時間は開始時間より後である必要があります"@,
            InputError::WorkOver24Hours => "勤務時間が24時間を超えています。正しい時間を入力してください"@,
            InputError::WorkOver16Hours => "勤務時間が16時間を超えています。本当に正しいですか？"@,
            InputError::FutureDate => "未来の日付を指定することはできません"@,
            InputError::OverAYearAgo => "1年以上前の日付は指定できません"@,
        }
    }

    /// Writes the reason for the user.
    pub fn message(&self) -> (text: String)
        ensures
            text@ == self.message_text(),
    {
        match self {
            InputError::EndNotAfterStart => String::from_str(
                "終了時間は開始時間より後である必要があります",
            ),
            InputError::WorkOver24Hours => String::from_str(
                "勤務時間が24時間を超えています。正しい時間を入力してください",
            ),
            InputError::WorkOver16Hours => String::from_str(
                "勤務時間が16時間を超えています。本当に正しいですか？",
            ),
            InputError::FutureDate => String::from_str("未来の日付を指定することはできません"),
            InputError::OverAYearAgo => String::from_str("1年以上前の日付は指定できません"),
        }
    }
}

} // verus!
