//! What the proleptic Gregorian calendar of the `chrono` crate knows of a
//! day: how it is written, its day of the month, and the day that a text
//! writes; and the day of the week, which is plain arithmetic.

use crate::utils::time::{CalendarDay, MAX_CALENDAR_DAY, MIN_CALENDAR_DAY};
use vstd::prelude::*;

verus! {

/// What `chrono::NaiveDate::format` writes for the day `days` days after
/// 1970-01-01 under the format `format`.
pub uninterp spec fn day_text(days: i32, format: Seq<char>) -> Seq<char>;

/// The formats under which days are written.
pub open spec fn is_day_format(format: Seq<char>) -> bool {
    ||| format == "%Y-%m-%d (%a)"@
    ||| format == "%Y-%m-%d"@
    ||| format == "%Y/%m/%d"@
    ||| format == "%m/%d"@
    ||| format == "%Y年%m月%d日"@
}

/// Makes the date with `chrono::NaiveDate::from_epoch_days` and writes it
/// with `chrono::NaiveDate::format`. The first gives a date exactly for the
/// days from `NaiveDate::MIN` to `NaiveDate::MAX`, which are the days from
/// `MIN_CALENDAR_DAY` to `MAX_CALENDAR_DAY`. The text is named, not stated.
/// The formats admitted hold only items that the crate knows: writing under
/// another one could fail.
#[verifier::external_body]
fn format_day(day: CalendarDay, format: &str) -> (text: Option<String>)
    requires
        is_day_format(format@),
    ensures
        text is Some <==> day.wf(),
        text matches Some(t) ==> t@ == day_text(day.days, format@),
{
    match chrono::NaiveDate::from_epoch_days(day.days) {
        Some(date) => Some(date.format(format).to_string()),
        None => None,
    }
}

/// Appends a day of the calendar as written under one of the day formats.
pub fn push_day(out: &mut String, day: CalendarDay, format: &str)
    requires
        day.wf(),
        is_day_format(format@),
    ensures
        final(out)@ == old(out)@ + day_text(day.days, format@),
{
    match format_day(day, format) {
        Some(text) => {
            out.append(text.as_str());
        },
        None => {},
    }
}

/// How many days after a Monday a day lies: 0 for a Monday, 6 for a Sunday.
/// The first day of 1970 was a Thursday.
pub open spec fn days_since_monday(days: int) -> int {
    (days + 3) % 7
}

/// The day of the month of the day `days` days after 1970-01-01, as
/// `chrono::Datelike::day` gives it.
pub uninterp spec fn day_of_month(days: i32) -> u32;

/// Makes the date with `chrono::NaiveDate::from_epoch_days`, which gives one
/// exactly for the days of the calendar, and asks `chrono::Datelike::day`
/// for its day of the month: a number from 1 to 31, named and not stated.
#[verifier::external_body]
fn calendar_day_of_month(day: CalendarDay) -> (number: Option<u32>)
    ensures
        number is Some <==> day.wf(),
        number matches Some(n) ==> n == day_of_month(day.days) && 1 <= n <= 31,
{
    match chrono::NaiveDate::from_epoch_days(day.days) {
        Some(date) => Some(chrono::Datelike::day(&date)),
        None => None,
    }
}

impl CalendarDay {
    /// How many days after a Monday the day lies.
    pub fn weekday_from_monday(&self) -> (n: u32)
        ensures
            n == days_since_monday(self.days as int),
            n < 7,
    {
        let r: i64 = (self.days as i64 + 3) % 7;
        if r < 0 {
            (r + 7) as u32
        } else {
            r as u32
        }
    }

    /// The first day of the month of a day of the calendar; any other day
    /// as it is.
    pub fn first_of_month(&self) -> (first: CalendarDay)
        ensures
            self.wf() ==> first.days == self.days - (day_of_month(self.days) - 1),
            !self.wf() ==> first == *self,
    {
        match calendar_day_of_month(*self) {
            Some(number) => CalendarDay { days: self.days - (number as i32 - 1) },
            None => *self,
        }
    }

    /// The Monday of the week of the day, or the day itself where that
    /// Monday lies before the calendar.
    pub fn monday_of_week(&self) -> (monday: CalendarDay)
        ensures
            monday.days == if self.days - days_since_monday(self.days as int) >= MIN_CALENDAR_DAY {
                self.days - days_since_monday(self.days as int)
            } else {
                self.days as int
            },
    {
        let monday: i64 = self.days as i64 - self.weekday_from_monday() as i64;
        if monday >= MIN_CALENDAR_DAY as i64 {
            CalendarDay { days: monday as i32 }
        } else {
            *self
        }
    }
}

/// What `chrono::NaiveDate::parse_from_str` reads from `text` under the
/// format `format`: the date in days after 1970-01-01, or `None` where it
/// reports an error.
pub uninterp spec fn naive_date_from_str(text: Seq<char>, format: Seq<char>) -> Option<i32>;

/// Calls `chrono::NaiveDate::parse_from_str` and counts the days of the date
/// with `chrono::NaiveDate::to_epoch_days`. The date that it reads is named,
/// not stated; stated is only that a `NaiveDate` is a day of the calendar.
#[verifier::external_body]
fn naive_date_parse(text: &str, format: &str) -> (days: Option<i32>)
    ensures
        days == naive_date_from_str(text@, format@),
        days matches Some(d) ==> MIN_CALENDAR_DAY <= d <= MAX_CALENDAR_DAY,
{
    match chrono::NaiveDate::parse_from_str(text, format) {
        Ok(date) => Some(date.to_epoch_days()),
        Err(_) => None,
    }
}

/// The day that a text of the form `YYYY-MM-DD` writes.
pub open spec fn parse_date_spec(text: Seq<char>) -> Option<CalendarDay> {
    match naive_date_from_str(text, "%Y-%m-%d"@) {
        Some(days) => Some(CalendarDay { days }),
        None => None,
    }
}

/// Reads a day of the calendar from a text of the form `YYYY-MM-DD`.
pub fn parse_date(text: &str) -> (day: Option<CalendarDay>)
    ensures
        day == parse_date_spec(text@),
        day matches Some(d) ==> d.wf(),
{
    match naive_date_parse(text, "%Y-%m-%d") {
        Some(days) => Some(CalendarDay { days }),
        None => None,
    }
}

} // verus!
