//! Instants, calendar days and times of day as plain numbers, the
//! arithmetic between them, and the reading of times that users type in.
//!
//! An instant is counted in seconds and nanoseconds from 1970-01-01T00:00:00
//! UTC, a calendar day in days from 1970-01-01, a time of day in seconds and
//! nanoseconds from midnight. The nanosecond part follows the notation of the
//! `chrono` crate: a value of 1_000_000_000 or more writes a leap second.
//! Durations count a leap second that is written as the crate counts it.

use crate::utils::calendar::{day_text, push_day};
use crate::utils::text::{
    decimal_text,
    push_decimal,
    push_two_digits,
    read_unsigned,
    trim,
    trimmed,
    two_digit_text,
    unsigned_decimal,
};
use vstd::prelude::*;

verus! {

/// Japan Standard Time, in seconds east of UTC.
pub const JST_OFFSET_SECS: i32 = 32_400;

/// Nanoseconds in a minute.
pub const NANOS_PER_MINUTE: i128 = 60_000_000_000;

/// The first day of the calendar: 1 January of the year -262143.
pub const MIN_CALENDAR_DAY: i32 = -96_465_292;

/// The last day of the calendar: 31 December of the year 262142.
pub const MAX_CALENDAR_DAY: i32 = 95_026_236;

/// A point on the UTC time line.
#[derive(Clone, Copy, Debug, PartialEq, Eq, Structural)]
pub struct Timestamp {
    /// Whole seconds since 1970-01-01T00:00:00 UTC.
    pub secs: i64,
    /// Nanoseconds after `secs`.
    pub nanos: u32,
}

/// A time of day without a date.
#[derive(Clone, Copy, Debug, PartialEq, Eq, Structural)]
pub struct TimeOfDay {
    /// Seconds since midnight.
    pub secs: u32,
    /// Nanoseconds after `secs`.
    pub nanos: u32,
}

/// A calendar day, counted in days since 1970-01-01.
#[derive(Clone, Copy, Debug, PartialEq, Eq, Structural)]
pub struct CalendarDay {
    pub days: i32,
}

/// Quotient rounded toward zero, as `/` rounds on machine integers.
pub open spec fn truncated_quotient(a: int, b: int) -> int
    recommends
        b > 0,
{
    if a >= 0 {
        a / b
    } else {
        -((-a) / b)
    }
}

/// The day number of the second `local_secs` of a local time line.
pub open spec fn day_number(local_secs: int) -> int {
    local_secs / 86_400
}

/// The second within its day of the second `local_secs` of a local time line.
pub open spec fn second_of_day(local_secs: int) -> int {
    local_secs % 86_400
}

/// The UTC second at which the local time `time_secs` of day `days + day_offset`
/// is reached in the zone `offset_secs` east of UTC.
pub open spec fn combined_secs(days: int, time_secs: int, day_offset: int, offset_secs: int) -> int {
    (days + day_offset) * 86_400 + time_secs - offset_secs
}

impl Timestamp {
    /// Chronological order: by seconds, then by nanoseconds.
    pub open spec fn before(self, other: Timestamp) -> bool {
        self.secs < other.secs || (self.secs == other.secs && self.nanos < other.nanos)
    }

    /// `self` is `other` or earlier.
    pub open spec fn not_after(self, other: Timestamp) -> bool {
        !other.before(self)
    }

    /// The number of the calendar day that holds this instant in the zone
    /// `offset_secs` east of UTC.
    pub open spec fn day_at(self, offset_secs: int) -> int {
        day_number(self.secs + offset_secs)
    }

    /// Whether that day number fits a `CalendarDay`.
    pub open spec fn has_day_at(self, offset_secs: int) -> bool {
        i32::MIN <= self.day_at(offset_secs) <= i32::MAX
    }

    /// The time of day of this instant in the zone `offset_secs` east of UTC.
    pub open spec fn time_at(self, offset_secs: int) -> TimeOfDay {
        TimeOfDay { secs: second_of_day(self.secs + offset_secs) as u32, nanos: self.nanos }
    }

    pub fn new(secs: i64, nanos: u32) -> (t: Timestamp)
        ensures
            t == (Timestamp { secs, nanos }),
    {
        Timestamp { secs, nanos }
    }

    pub fn is_before(&self, other: &Timestamp) -> (b: bool)
        ensures
            b == self.before(*other),
    {
        self.secs < other.secs || (self.secs == other.secs && self.nanos < other.nanos)
    }

    /// The calendar day of this instant in the zone `offset_secs` east of UTC.
    pub fn day_of(&self, offset_secs: i32) -> (day: CalendarDay)
        requires
            self.has_day_at(offset_secs as int),
        ensures
            day.days == self.day_at(offset_secs as int),
    {
        let local: i128 = self.secs as i128 + offset_secs as i128;
        let q: i128 = local / 86_400;
        let r: i128 = local % 86_400;
        let d: i128 = if r < 0 { q - 1 } else { q };
        CalendarDay { days: d as i32 }
    }

    /// The time of day of this instant in the zone `offset_secs` east of UTC.
    pub fn time_of_day(&self, offset_secs: i32) -> (time: TimeOfDay)
        ensures
            time == self.time_at(offset_secs as int),
            time.secs < 86_400,
    {
        let local: i128 = self.secs as i128 + offset_secs as i128;
        let r: i128 = local % 86_400;
        let s: i128 = if r < 0 { r + 86_400 } else { r };
        TimeOfDay { secs: s as u32, nanos: self.nanos }
    }
}

impl TimeOfDay {
    /// A time that a clock can show: before the end of the day, the nanoseconds
    /// within the leap-second notation.
    pub open spec fn wf(self) -> bool {
        self.secs < 86_400 && self.nanos < 2_000_000_000
    }

    /// Order within a day: by seconds, then by nanoseconds.
    pub open spec fn before(self, other: TimeOfDay) -> bool {
        self.secs < other.secs || (self.secs == other.secs && self.nanos < other.nanos)
    }

    /// The time `hour:min:sec`.
    pub open spec fn hms(hour: int, min: int, sec: int) -> TimeOfDay {
        TimeOfDay { secs: (hour * 3600 + min * 60 + sec) as u32, nanos: 0 }
    }

    /// The time `hour:min:sec`, if a clock can show it.
    pub fn from_hms_opt(hour: u32, min: u32, sec: u32) -> (time: Option<TimeOfDay>)
        ensures
            time is Some <==> hour < 24 && min < 60 && sec < 60,
            time matches Some(t) ==> t == Self::hms(hour as int, min as int, sec as int) && t.wf(),
    {
        if hour < 24 && min < 60 && sec < 60 {
            Some(TimeOfDay { secs: hour * 3600 + min * 60 + sec, nanos: 0 })
        } else {
            None
        }
    }

    pub fn is_before(&self, other: &TimeOfDay) -> (b: bool)
        ensures
            b == self.before(*other),
    {
        self.secs < other.secs || (self.secs == other.secs && self.nanos < other.nanos)
    }

    pub open spec fn spec_hour(self) -> int {
        self.secs as int / 3600
    }

    pub open spec fn spec_minute(self) -> int {
        (self.secs as int / 60) % 60
    }

    pub open spec fn spec_second(self) -> int {
        self.secs as int % 60
    }

    pub fn hour(&self) -> (h: u32)
        ensures
            h == self.spec_hour(),
    {
        self.secs / 3600
    }

    pub fn minute(&self) -> (m: u32)
        ensures
            m == self.spec_minute(),
            m < 60,
    {
        (self.secs / 60) % 60
    }

    pub fn second(&self) -> (s: u32)
        ensures
            s == self.spec_second(),
            s < 60,
    {
        self.secs % 60
    }
}

impl CalendarDay {
    /// A day that the proleptic Gregorian calendar of the `chrono` crate
    /// holds, and so has a year, a month and a day of the month.
    pub open spec fn wf(self) -> bool {
        MIN_CALENDAR_DAY <= self.days <= MAX_CALENDAR_DAY
    }

    /// Whether the calendar holds the day.
    pub fn in_calendar(&self) -> (held: bool)
        ensures
            held == self.wf(),
    {
        MIN_CALENDAR_DAY <= self.days && self.days <= MAX_CALENDAR_DAY
    }

    pub fn new(days: i32) -> (d: CalendarDay)
        ensures
            d.days == days,
    {
        CalendarDay { days }
    }

    /// The day after, unless the count would leave its range.
    pub fn succ_opt(&self) -> (next: Option<CalendarDay>)
        ensures
            next is Some <==> self.days < i32::MAX,
            next matches Some(d) ==> d.days == self.days + 1,
    {
        if self.days < i32::MAX {
            Some(CalendarDay { days: self.days + 1 })
        } else {
            None
        }
    }
}

/// The instant at which the clock of the zone `offset_secs` east of UTC shows
/// `time` on the day `day_offset` days after `date`.
pub open spec fn combine_spec(
    date: CalendarDay,
    time: TimeOfDay,
    day_offset: u32,
    offset_secs: i32,
) -> Timestamp {
    Timestamp {
        secs: combined_secs(
            date.days as int,
            time.secs as int,
            day_offset as int,
            offset_secs as int,
        ) as i64,
        nanos: time.nanos,
    }
}

/// The calendar day that holds `instant` in the zone `offset_secs` east of UTC.
pub open spec fn day_of_spec(instant: Timestamp, offset_secs: i32) -> CalendarDay {
    CalendarDay { days: instant.day_at(offset_secs as int) as i32 }
}

/// Whole minutes from `start` to `end`, rounded toward zero; negative where
/// `end` is the earlier one.
pub open spec fn whole_minutes_between(start: Timestamp, end: Timestamp) -> int {
    truncated_quotient(elapsed_nanos(start, end), 60_000_000_000)
}

/// The second by which the seconds between two times of day are corrected
/// for a leap second that one of them writes, as the `chrono` crate does in
/// `NaiveTime::signed_duration_since`: where the end lies at a later second
/// of its day and the start writes a leap second, that second is still to
/// be counted; where the end lies at an earlier second and writes a leap
/// second, it is counted once too often. The times are given by their
/// second of the day and their nanoseconds.
pub open spec fn leap_correction(
    start_secs: int,
    start_nanos: int,
    end_secs: int,
    end_nanos: int,
) -> int {
    if end_secs > start_secs && start_nanos >= 1_000_000_000 {
        1
    } else if end_secs < start_secs && end_nanos >= 1_000_000_000 {
        -1
    } else {
        0
    }
}

/// Nanoseconds from `start` to `end`: the seconds between them, corrected
/// for a written leap second by their times of day in UTC, and the
/// nanoseconds between them.
pub open spec fn elapsed_nanos(start: Timestamp, end: Timestamp) -> int {
    (end.secs - start.secs + leap_correction(
        second_of_day(start.secs as int),
        start.nanos as int,
        second_of_day(end.secs as int),
        end.nanos as int,
    )) * 1_000_000_000 + (end.nanos - start.nanos)
}

/// Advances `date` by `day_offset` days, and gives the instant at which the
/// clock of the zone `offset_secs` east of UTC shows `time` on that day.
pub fn combine(date: CalendarDay, time: TimeOfDay, day_offset: u32, offset_secs: i32) -> (instant:
    Timestamp)
    ensures
        instant == combine_spec(date, time, day_offset, offset_secs),
        instant.secs == combined_secs(
            date.days as int,
            time.secs as int,
            day_offset as int,
            offset_secs as int,
        ),
        instant.nanos == time.nanos,
{
    let local_day: i64 = date.days as i64 + day_offset as i64;
    let secs: i64 = local_day * 86_400 + time.secs as i64 - offset_secs as i64;
    Timestamp { secs, nanos: time.nanos }
}

/// The instant at which a clock in Japan shows `time` on `date`.
pub fn combine_date_time_jst(date: CalendarDay, time: TimeOfDay) -> (instant: Timestamp)
    ensures
        instant == combine_spec(date, time, 0, JST_OFFSET_SECS),
{
    combine(date, time, 0, JST_OFFSET_SECS)
}

/// As `combine_date_time_jst`, on the day after `date` where `is_next_day` is set:
/// a night-shift time belongs to the next calendar day.
pub fn combine_date_time_jst_with_day_offset(
    date: CalendarDay,
    time: TimeOfDay,
    is_next_day: bool,
) -> (instant: Timestamp)
    ensures
        instant == combine_spec(date, time, if is_next_day { 1u32 } else { 0u32 }, JST_OFFSET_SECS),
{
    let day_offset: u32 = if is_next_day { 1 } else { 0 };
    combine(date, time, day_offset, JST_OFFSET_SECS)
}

/// The calendar day in Japan that holds `timestamp`. Every grouping of
/// events and sessions by day goes through this function.
pub fn get_date_from_utc_timestamp(timestamp: Timestamp) -> (date: CalendarDay)
    requires
        timestamp.has_day_at(JST_OFFSET_SECS as int),
    ensures
        date == day_of_spec(timestamp, JST_OFFSET_SECS),
        date.days == timestamp.day_at(JST_OFFSET_SECS as int),
{
    timestamp.day_of(JST_OFFSET_SECS)
}

/// Whole minutes worked from `start` to `end`, cut to 32 bits.
pub fn calculate_work_duration(start: Timestamp, end: Timestamp) -> (minutes: i32)
    ensures
        minutes == whole_minutes_between(start, end) as i32,
{
    let start_second: u32 = start.time_of_day(0).secs;
    let end_second: u32 = end.time_of_day(0).secs;
    let correction: i128 = if end_second > start_second && start.nanos >= 1_000_000_000 {
        1
    } else if end_second < start_second && end.nanos >= 1_000_000_000 {
        -1
    } else {
        0
    };
    let elapsed: i128 = (end.secs as i128 - start.secs as i128 + correction) * 1_000_000_000 + (
    end.nanos as i128 - start.nanos as i128);
    let whole: i128 = elapsed / NANOS_PER_MINUTE;
    #[verifier::truncate]
    (whole as i32)
}

/// Day and time survive the way through an instant: the instant of `time` on
/// `date` lies on `date`, and combining its day with `time` again gives the
/// same instant.
pub proof fn lemma_combine_day_round_trip(date: CalendarDay, time: TimeOfDay, offset_secs: i32)
    requires
        time.wf(),
    ensures
        day_of_spec(combine_spec(date, time, 0, offset_secs), offset_secs) == date,
        combine_spec(date, time, 0, offset_secs).time_at(offset_secs as int) == time,
        combine_spec(
            day_of_spec(combine_spec(date, time, 0, offset_secs), offset_secs),
            time,
            0,
            offset_secs,
        ) == combine_spec(date, time, 0, offset_secs),
{
    let local: int = date.days * 86_400 + time.secs;
    assert(combine_spec(date, time, 0, offset_secs).secs == local - offset_secs);
    assert(local / 86_400 == date.days && local % 86_400 == time.secs) by (nonlinear_arith)
        requires
            local == date.days * 86_400 + time.secs,
            0 <= time.secs < 86_400,
    ;
}

/// A night-shift time belongs to the day after: an instant combined with a
/// day offset of one lies on the next calendar day.
pub proof fn lemma_combine_next_day(date: CalendarDay, time: TimeOfDay, offset_secs: i32)
    requires
        time.wf(),
        date.days < i32::MAX,
    ensures
        day_of_spec(combine_spec(date, time, 1, offset_secs), offset_secs).days == date.days + 1,
        combine_spec(date, time, 1, offset_secs) == combine_spec(
            CalendarDay { days: (date.days + 1) as i32 },
            time,
            0,
            offset_secs,
        ),
{
    let local: int = (date.days + 1) * 86_400 + time.secs;
    assert(combine_spec(date, time, 1, offset_secs).secs == local - offset_secs);
    assert(local / 86_400 == date.days + 1) by (nonlinear_arith)
        requires
            local == (date.days + 1) * 86_400 + time.secs,
            0 <= time.secs < 86_400,
    ;
}

/// Between instants in chronological order no negative time passes, and the
/// minutes between them are exact where they fit 32 bits.
pub proof fn lemma_minutes_of_ordered(start: Timestamp, end: Timestamp)
    requires
        start.not_after(end),
    ensures
        whole_minutes_between(start, end) >= 0,
        whole_minutes_between(start, end) <= i32::MAX ==> (whole_minutes_between(start, end) as i32)
            == whole_minutes_between(start, end),
{
    let elapsed = elapsed_nanos(start, end);
    let correction = leap_correction(
        second_of_day(start.secs as int),
        start.nanos as int,
        second_of_day(end.secs as int),
        end.nanos as int,
    );
    if end.secs == start.secs {
        assert(correction == 0);
        assert(elapsed >= 0);
    } else {
        assert(elapsed >= -4_294_967_295) by (nonlinear_arith)
            requires
                elapsed == (end.secs - start.secs + correction) * 1_000_000_000 + (end.nanos
                    - start.nanos),
                end.secs > start.secs,
                -1 <= correction,
                0 <= start.nanos <= 4_294_967_295,
                0 <= end.nanos,
        ;
    }
    if elapsed >= 0 {
        assert(elapsed / 60_000_000_000 >= 0) by (nonlinear_arith)
            requires
                elapsed >= 0,
        ;
    } else {
        assert((-elapsed) / 60_000_000_000 == 0) by (nonlinear_arith)
            requires
                0 < -elapsed < 60_000_000_000,
        ;
    }
}

/// Midnight, the start of a day.
pub open spec fn midnight() -> TimeOfDay {
    TimeOfDay { secs: 0, nanos: 0 }
}

/// The instants between which a calendar day in Japan lies: its first
/// instant, and the first instant of the day after. The store is asked for
/// the events of a day by these bounds.
pub fn day_bounds_jst(date: CalendarDay) -> (bounds: (Timestamp, Timestamp))
    ensures
        bounds.0 == combine_spec(date, midnight(), 0, JST_OFFSET_SECS),
        bounds.1 == combine_spec(date, midnight(), 1, JST_OFFSET_SECS),
        bounds.1.secs == bounds.0.secs + 86_400,
{
    let start = combine(date, TimeOfDay { secs: 0, nanos: 0 }, 0, JST_OFFSET_SECS);
    let end = combine(date, TimeOfDay { secs: 0, nanos: 0 }, 1, JST_OFFSET_SECS);
    (start, end)
}

/// The bounds of a day hold exactly the instants of that day: an instant is
/// at or after the first bound and before the second exactly when its
/// calendar day in the zone is the day. So asking the store by the bounds
/// and asking an instant for its day never disagree.
pub proof fn lemma_day_bounds_hold_the_day(date: CalendarDay, instant: Timestamp, offset_secs: i32)
    ensures
        (combine_spec(date, midnight(), 0, offset_secs).not_after(instant) && instant.before(
            combine_spec(date, midnight(), 1, offset_secs),
        )) <==> instant.day_at(offset_secs as int) == date.days,
{
    let start = combine_spec(date, midnight(), 0, offset_secs);
    let end = combine_spec(date, midnight(), 1, offset_secs);
    let local = instant.secs + offset_secs;
    assert(start.secs == date.days * 86_400 - offset_secs);
    assert(end.secs == (date.days + 1) * 86_400 - offset_secs);
    assert(start.nanos == 0 && end.nanos == 0);
    assert((date.days * 86_400 <= local < (date.days + 1) * 86_400) <==> local / 86_400
        == date.days) by (nonlinear_arith);
}

/// The input is no time of day in any of the accepted forms.
#[derive(Clone, Copy, Debug, PartialEq, Eq, Structural)]
pub enum TimeParseError {
    InvalidFormat,
}

impl TimeParseError {
    /// The error as told to the user.
    pub open spec fn message_text(self) -> Seq<char> {
        "Invalid time format. Use HH:MM (supports 00:00-47:59 for night shifts)"@
    }

    /// The error as told to the user.
    pub fn message(&self) -> (text: String)
        ensures
            text@ == self.message_text(),
    {
        String::from_str("Invalid time format. Use HH:MM (supports 00:00-47:59 for night shifts)")
    }
}

/// What `chrono::NaiveTime::parse_from_str` reads from `text` under the format
/// `format`: the seconds since midnight and the nanoseconds of the time, or
/// `None` where it reports an error.
pub uninterp spec fn naive_time_from_str(text: Seq<char>, format: Seq<char>) -> Option<(u32, u32)>;

/// Calls `chrono::NaiveTime::parse_from_str`. The time that it reads is named,
/// not stated; stated is only that a `NaiveTime` lies within a day and writes
/// at most a leap second.
#[verifier::external_body]
fn naive_time_parse(text: &str, format: &str) -> (time: Option<(u32, u32)>)
    ensures
        time == naive_time_from_str(text@, format@),
        time matches Some((secs, nanos)) ==> secs < 86_400 && nanos < 2_000_000_000,
{
    match chrono::NaiveTime::parse_from_str(text, format) {
        Ok(t) => Some(
            (chrono::Timelike::num_seconds_from_midnight(&t), chrono::Timelike::nanosecond(&t)),
        ),
        Err(_) => None,
    }
}

/// Reads the system clock through `chrono::Utc::now`, which fails on a clock
/// set before 1970 and gives no instant after the last day of its calendar.
#[verifier::external_body]
fn clock_now() -> (now: Timestamp)
    ensures
        0 <= now.secs <= 8_210_266_876_799,
{
    let now = chrono::Utc::now();
    Timestamp { secs: now.timestamp(), nanos: now.timestamp_subsec_nanos() }
}

/// Whether the first `:` of `s` stands at `i`.
pub open spec fn first_colon_at(s: Seq<char>, i: int) -> bool {
    &&& 0 <= i < s.len()
    &&& s[i] == ':'
    &&& forall|j: int| 0 <= j < i ==> #[trigger] s[j] != ':'
}

/// The time that the night-shift form writes: hours from 24 to 47 and minutes
/// below 60 around the first `:`, meaning the hour less 24 on the next day.
pub open spec fn night_shift_time(s: Seq<char>) -> Option<TimeOfDay> {
    if exists|i: int| first_colon_at(s, i) {
        let i = choose|i: int| first_colon_at(s, i);
        match (
            unsigned_decimal(s.subrange(0, i)),
            unsigned_decimal(s.subrange(i + 1, s.len() as int)),
        ) {
            (Some(hour), Some(min)) => if 24 <= hour < 48 && min < 60 {
                Some(TimeOfDay::hms(hour - 24, min as int, 0))
            } else {
                None
            },
            _ => None,
        }
    } else {
        None
    }
}

/// The outcome for an input `text`, already trimmed, that read as `hm` in the
/// form `HH:MM` and as `hms` in the form `HH:MM:SS`: the first of the two that
/// reads, on the same day; else the night-shift form, on the next day; else
/// an error.
pub open spec fn time_input_outcome(
    hm: Option<(u32, u32)>,
    hms: Option<(u32, u32)>,
    text: Seq<char>,
) -> Result<(TimeOfDay, bool), TimeParseError> {
    match hm {
        Some((secs, nanos)) => Ok((TimeOfDay { secs, nanos }, false)),
        None => match hms {
            Some((secs, nanos)) => Ok((TimeOfDay { secs, nanos }, false)),
            None => match night_shift_time(text) {
                Some(time) => Ok((time, true)),
                None => Err(TimeParseError::InvalidFormat),
            },
        },
    }
}

/// What `parse_time_with_day_info` returns on `input`.
pub open spec fn parse_time_spec(input: Seq<char>) -> Result<(TimeOfDay, bool), TimeParseError> {
    let text = trimmed(input);
    time_input_outcome(
        naive_time_from_str(text, "%H:%M"@),
        naive_time_from_str(text, "%H:%M:%S"@),
        text,
    )
}

/// Reads the night-shift form from a trimmed input.
fn read_night_shift(text: &str) -> (time: Option<TimeOfDay>)
    ensures
        time == night_shift_time(text@),
{
    let n: usize = text.unicode_len();
    let mut colon: usize = 0;
    while colon < n && text.get_char(colon) != ':'
        invariant
            colon <= n,
            n == text@.len(),
            forall|j: int| 0 <= j < colon ==> #[trigger] text@[j] != ':',
        decreases n - colon,
    {
        colon = colon + 1;
    }
    if colon == n {
        assert forall|i: int| !first_colon_at(text@, i) by {
            if first_colon_at(text@, i) {
                assert(text@[i] != ':');
            }
        }
        return None;
    }
    proof {
        assert(first_colon_at(text@, colon as int));
        let chosen = choose|i: int| first_colon_at(text@, i);
        if chosen < colon {
            assert(text@[chosen] != ':');
        }
        if colon < chosen {
            assert(text@[colon as int] != ':');
        }
        assert(chosen == colon);
    }
    let hour = read_unsigned(text, 0, colon);
    let min = read_unsigned(text, colon + 1, n);
    match (hour, min) {
        (Some(hour), Some(min)) => {
            if hour >= 24 && hour < 48 && min < 60 {
                Some(TimeOfDay { secs: (hour - 24) * 3600 + min * 60, nanos: 0 })
            } else {
                None
            }
        },
        _ => None,
    }
}

/// Decides on a trimmed input `text` from what the two clock forms read of it:
/// `hm` for `HH:MM`, `hms` for `HH:MM:SS`.
pub fn resolve_time_input(hm: Option<(u32, u32)>, hms: Option<(u32, u32)>, text: &str) -> (outcome:
    Result<(TimeOfDay, bool), TimeParseError>)
    ensures
        outcome == time_input_outcome(hm, hms, text@),
{
    if let Some((secs, nanos)) = hm {
        return Ok((TimeOfDay { secs, nanos }, false));
    }
    if let Some((secs, nanos)) = hms {
        return Ok((TimeOfDay { secs, nanos }, false));
    }
    match read_night_shift(text) {
        Some(time) => Ok((time, true)),
        None => Err(TimeParseError::InvalidFormat),
    }
}

/// Reads a time of day from user input, and whether it belongs to the next
/// day. White space around the input is ignored. `HH:MM` and `HH:MM:SS` give
/// a time on the same day. Hours from 24 to 47 with minutes below 60 give the
/// time 24 hours earlier on the next day. Anything else is an error.
pub fn parse_time_with_day_info(time_str: &str) -> (outcome: Result<
    (TimeOfDay, bool),
    TimeParseError,
>)
    ensures
        outcome == parse_time_spec(time_str@),
        outcome matches Ok((time, _)) ==> time.wf(),
{
    let text = trim(time_str);
    let hm = naive_time_parse(text, "%H:%M");
    let hms = if hm.is_none() {
        naive_time_parse(text, "%H:%M:%S")
    } else {
        None
    };
    let outcome = resolve_time_input(hm, hms, text);
    outcome
}

/// Reads a time of day from user input as `parse_time_with_day_info` does, and
/// drops the day.
pub fn parse_time_string(time_str: &str) -> (outcome: Result<TimeOfDay, TimeParseError>)
    ensures
        outcome == match parse_time_spec(time_str@) {
            Ok((time, _)) => Ok::<TimeOfDay, TimeParseError>(time),
            Err(e) => Err(e),
        },
{
    match parse_time_with_day_info(time_str) {
        Ok((time, _)) => Ok(time),
        Err(e) => Err(e),
    }
}

/// What holds of every instant that the system clock shows: it lies in or
/// after 1970 and on a day of the calendar in UTC. In Japan, nine hours
/// ahead, its day is a day of the calendar or, in the last nine hours of
/// the calendar, the day after its last.
pub open spec fn shown_by_clock(now: Timestamp) -> bool {
    0 <= now.secs <= 8_210_266_876_799
}

/// The instant that the system clock shows.
pub fn get_current_datetime_jst() -> (now: Timestamp)
    ensures
        shown_by_clock(now),
        now.has_day_at(JST_OFFSET_SECS as int),
        day_of_spec(now, 0).wf(),
        0 <= day_of_spec(now, JST_OFFSET_SECS).days <= MAX_CALENDAR_DAY + 1,
{
    clock_now()
}

/// The calendar day in Japan at the instant that the system clock shows.
pub fn get_current_date_jst() -> (today: CalendarDay)
    ensures
        exists|now: Timestamp|
            shown_by_clock(now) && today == #[trigger] day_of_spec(now, JST_OFFSET_SECS),
        0 <= today.days <= MAX_CALENDAR_DAY + 1,
{
    let now = clock_now();
    get_date_from_utc_timestamp(now)
}

/// A duration as hours and minutes, or as minutes alone where it holds no
/// full hour. Hours and minutes are the quotient and the rest of a division
/// by 60 that rounds toward zero.
pub open spec fn duration_text(minutes: int) -> Seq<char> {
    let hours = truncated_quotient(minutes, 60);
    let mins = minutes - hours * 60;
    if hours > 0 {
        decimal_text(hours) + "時間"@ + decimal_text(mins) + "分"@
    } else {
        decimal_text(mins) + "分"@
    }
}

/// Appends a duration in minutes as hours and minutes.
pub fn push_duration(out: &mut String, minutes: i64)
    ensures
        final(out)@ == old(out)@ + duration_text(minutes as int),
{
    let hours: i64 = minutes / 60;
    let mins: i64 = minutes % 60;
    if hours > 0 {
        push_decimal(out, hours);
        out.append("時間");
    }
    push_decimal(out, mins);
    out.append("分");
    assert(final(out)@ =~= old(out)@ + duration_text(minutes as int));
}

/// Writes a duration in minutes as hours and minutes.
pub fn format_duration_minutes(minutes: i32) -> (text: String)
    ensures
        text@ == duration_text(minutes as int),
{
    let mut text = String::new();
    push_duration(&mut text, minutes as i64);
    assert(text@ =~= duration_text(minutes as int));
    text
}

/// The time of day in Japan, as hours and minutes with two digits each.
pub open spec fn time_text_jst(datetime: Timestamp) -> Seq<char> {
    let time = datetime.time_at(JST_OFFSET_SECS as int);
    two_digit_text(time.spec_hour()) + seq![':'] + two_digit_text(time.spec_minute())
}

/// Writes the time of day in Japan of an instant as `HH:MM`.
pub fn format_time_jst(datetime: Timestamp) -> (text: String)
    ensures
        text@ == time_text_jst(datetime),
{
    let time = datetime.time_of_day(JST_OFFSET_SECS);
    let mut text = String::new();
    push_two_digits(&mut text, time.hour());
    proof {
        reveal_strlit(":");
    }
    text.append(":");
    push_two_digits(&mut text, time.minute());
    assert(text@ =~= time_text_jst(datetime));
    text
}

/// The time of day in UTC, as hours and minutes with two digits each.
pub open spec fn time_text_utc(datetime: Timestamp) -> Seq<char> {
    let time = datetime.time_at(0);
    two_digit_text(time.spec_hour()) + seq![':'] + two_digit_text(time.spec_minute())
}

/// Appends the time of day in UTC of an instant as `HH:MM`.
pub fn push_time_utc(out: &mut String, datetime: Timestamp)
    ensures
        final(out)@ == old(out)@ + time_text_utc(datetime),
{
    let time = datetime.time_of_day(0);
    push_two_digits(out, time.hour());
    proof {
        reveal_strlit(":");
    }
    out.append(":");
    push_two_digits(out, time.minute());
    assert(final(out)@ =~= old(out)@ + time_text_utc(datetime));
}

/// The second that a clock shows for a time of day: 60 in a leap second.
pub open spec fn shown_second(time: TimeOfDay) -> int {
    if time.nanos >= 1_000_000_000 {
        time.spec_second() + 1
    } else {
        time.spec_second()
    }
}

/// Date and time in Japan as `YYYY-MM-DD HH:MM:SS JST`.
pub open spec fn datetime_text_jst(datetime: Timestamp) -> Seq<char> {
    let time = datetime.time_at(JST_OFFSET_SECS as int);
    day_text(day_of_spec(datetime, JST_OFFSET_SECS).days, "%Y-%m-%d"@) + " "@ + two_digit_text(
        time.spec_hour(),
    ) + ":"@ + two_digit_text(time.spec_minute()) + ":"@ + two_digit_text(shown_second(time))
        + " JST"@
}

/// Writes date and time in Japan of an instant whose day there the calendar holds.
pub fn format_datetime_jst(datetime: Timestamp) -> (text: String)
    requires
        datetime.has_day_at(JST_OFFSET_SECS as int),
        day_of_spec(datetime, JST_OFFSET_SECS).wf(),
    ensures
        text@ == datetime_text_jst(datetime),
{
    let day = datetime.day_of(JST_OFFSET_SECS);
    let time = datetime.time_of_day(JST_OFFSET_SECS);
    let second: u32 = if time.nanos >= 1_000_000_000 {
        time.second() + 1
    } else {
        time.second()
    };
    let mut text = String::new();
    push_day(&mut text, day, "%Y-%m-%d");
    text.append(" ");
    push_two_digits(&mut text, time.hour());
    text.append(":");
    push_two_digits(&mut text, time.minute());
    text.append(":");
    push_two_digits(&mut text, second);
    text.append(" JST");
    assert(text@ =~= datetime_text_jst(datetime));
    text
}

} // verus!
