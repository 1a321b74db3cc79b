//! The periods that the reports cover.

use crate::utils::calendar::{
    day_of_month,
    day_text,
    days_since_monday,
    push_day,
};
use crate::utils::time::{CalendarDay, MIN_CALENDAR_DAY};
use vstd::prelude::*;

verus! {

/// A period of calendar days, both ends included.
#[derive(Clone, Copy, Debug, PartialEq, Eq, Structural)]
pub struct ReportRange {
    pub start: CalendarDay,
    pub end: CalendarDay,
}

/// The period of the daily report: today.
pub fn daily(today: CalendarDay) -> (range: ReportRange)
    ensures
        range == (ReportRange { start: today, end: today }),
{
    ReportRange { start: today, end: today }
}

/// The period of the weekly report: from the Monday of this week to today.
pub fn weekly(today: CalendarDay) -> (range: ReportRange)
    ensures
        range.end == today,
        range.start.days == if today.days - days_since_monday(today.days as int)
            >= MIN_CALENDAR_DAY {
            today.days - days_since_monday(today.days as int)
        } else {
            today.days as int
        },
        range.start.days <= today.days,
        today.days - range.start.days < 7,
{
    ReportRange { start: today.monday_of_week(), end: today }
}

/// The period of the monthly report: from the first of this month to today.
pub fn monthly(today: CalendarDay) -> (range: ReportRange)
    ensures
        range.end == today,
        today.wf() ==> range.start.days == today.days - (day_of_month(today.days) - 1),
        !today.wf() ==> range.start == today,
{
    ReportRange { start: today.first_of_month(), end: today }
}

/// A day as written under a report.
pub open spec fn day_label_text(day: CalendarDay) -> Seq<char> {
    day_text(day.days, "%Y年%m月%d日"@)
}

/// A period as written under a report: its two ends.
pub open spec fn range_text(range: ReportRange) -> Seq<char> {
    day_label_text(range.start) + " ～ "@ + day_label_text(range.end)
}

/// Writes a day for the foot of the daily report.
pub fn day_label(day: CalendarDay) -> (text: String)
    requires
        day.wf(),
    ensures
        text@ == day_label_text(day),
{
    let mut text = String::new();
    push_day(&mut text, day, "%Y年%m月%d日");
    assert(text@ =~= day_label_text(day));
    text
}

impl ReportRange {
    /// Writes the period for the foot of a weekly or monthly report.
    pub fn describe(&self) -> (text: String)
        requires
            self.start.wf(),
            self.end.wf(),
        ensures
            text@ == range_text(*self),
    {
        let mut text = String::new();
        push_day(&mut text, self.start, "%Y年%m月%d日");
        text.append(" ～ ");
        push_day(&mut text, self.end, "%Y年%m月%d日");
        assert(text@ =~= range_text(*self));
        text
    }
}

} // verus!
