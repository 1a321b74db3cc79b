//! The rules that a new or edited clock event has to meet before it is
//! accepted into a user's day.
//!
//! Three checks run in order and the first failure is reported: the instant
//! is reasonable against the clock, no other event has the same instant, and
//! with the event in its place the day alternates between clocking in and
//! clocking out, starting with clocking in.

use crate::database::models::{AttendanceRecord, RecordType};
use crate::utils::chronology::{
    in_time_order,
    insert_by_time,
    insert_in_time_order,
    lemma_insert_in_order,
    lemma_insert_position,
    lemma_sorted_by_time,
    lemma_sorting_keeps_time_order,
    sort_by_time,
    sorted_by_time,
    Timed,
};
use crate::utils::text::{decimal_text, push_digits};
use crate::utils::time::{
    get_current_datetime_jst,
    push_time_utc,
    shown_by_clock,
    time_text_utc,
    CalendarDay,
    TimeOfDay,
    Timestamp,
    JST_OFFSET_SECS,
};
use vstd::prelude::*;

verus! {

/// Why an event was refused.
#[derive(Clone, Copy, Debug, PartialEq, Eq, Structural)]
pub enum ValidationError {
    /// The day lies after today.
    FutureDate,
    /// The day is today and the time of day lies after the present one.
    FutureTimeToday,
    /// The day lies more than seven days back.
    TooFarInPast,
    /// The time of day lies in the small hours that the policy refuses.
    ImplausibleHour,
    /// Another event has the same instant.
    DuplicateInstant,
    /// With the event in its place, the event at `position` (counted from 1)
    /// is the first that does not alternate: a clock-out at the start of the
    /// day, or an event of the same kind as the one before it.
    BrokenAlternation { position: usize },
}

/// What is configurable in the check against the clock. A time that was
/// typed in as a night-shift time is checked like any other.
#[derive(Clone, Copy, Debug, PartialEq, Eq, Structural)]
pub struct TimePolicy {
    /// Refuse times of day from 02:00 up to but not including 05:00.
    pub reject_small_hours: bool,
}

/// An event as the order check sees it.
#[derive(Clone, Copy, Debug, PartialEq, Eq, Structural)]
pub struct TimelineEntry {
    pub timestamp: Timestamp,
    pub record_type: RecordType,
}

/// The entry of a stored event.
pub open spec fn entry_of(record: AttendanceRecord) -> TimelineEntry {
    TimelineEntry { timestamp: record.timestamp, record_type: record.record_type }
}

/// The entries of stored events, in their order.
pub open spec fn entries_of(records: Seq<AttendanceRecord>) -> Seq<TimelineEntry> {
    Seq::new(records.len(), |i: int| entry_of(records[i]))
}

impl Timed for TimelineEntry {
    open spec fn instant(&self) -> Timestamp {
        self.timestamp
    }

    fn time(&self) -> (t: Timestamp) {
        self.timestamp
    }
}

/// The day as it would stand with the candidate in it: the stored events in
/// chronological order, the candidate behind those that are not later.
pub open spec fn timeline(
    existing: Seq<AttendanceRecord>,
    new_record_type: RecordType,
    new_timestamp: Timestamp,
) -> Seq<TimelineEntry> {
    insert_by_time(
        entries_of(sorted_by_time(existing)),
        TimelineEntry { timestamp: new_timestamp, record_type: new_record_type },
    )
}

/// The kind that alternation asks for at `index` (counted from 0): clocking
/// in first, then clocking out, and so on in turn.
pub open spec fn expected_kind(index: int) -> RecordType {
    if index % 2 == 0 {
        RecordType::Start
    } else {
        RecordType::End
    }
}

/// The entries alternate between clocking in and clocking out, starting with
/// clocking in.
pub open spec fn alternates(line: Seq<TimelineEntry>) -> bool {
    forall|i: int| 0 <= i < line.len() ==> (#[trigger] line[i]).record_type == expected_kind(i)
}

/// The entry at `index` is the first that breaks the alternation.
pub open spec fn first_break_at(line: Seq<TimelineEntry>, index: int) -> bool {
    &&& 0 <= index < line.len()
    &&& line[index].record_type != expected_kind(index)
    &&& forall|j: int| 0 <= j < index ==> (#[trigger] line[j]).record_type == expected_kind(j)
}

/// The result of the order check on a day as it would stand.
pub open spec fn sequence_outcome(line: Seq<TimelineEntry>) -> Result<(), ValidationError> {
    if alternates(line) {
        Ok(())
    } else {
        Err(
            ValidationError::BrokenAlternation {
                position: ((choose|index: int| first_break_at(line, index)) + 1) as usize,
            },
        )
    }
}

/// Whether a stored event other than the excluded one has the instant.
pub open spec fn has_duplicate(
    existing: Seq<AttendanceRecord>,
    new_timestamp: Timestamp,
    exclude_record_id: Option<i64>,
) -> bool {
    exists|i: int|
        0 <= i < existing.len() && (#[trigger] existing[i]).timestamp == new_timestamp
            && exclude_record_id != Some(existing[i].id)
}

/// Whether a time of day lies in the small hours, from 02:00 up to but not
/// including 05:00.
pub open spec fn in_small_hours(time: TimeOfDay) -> bool {
    7_200 <= time.secs < 18_000
}

/// The result of the check against the clock at the instant `now`, days and
/// times of day taken in Japan. In this order: a day after today is refused;
/// today, a time of day after the present one; a day more than seven days
/// back; under the policy, a time of day in the small hours.
pub open spec fn reasonable_time_outcome(
    now: Timestamp,
    policy: TimePolicy,
    new_time: TimeOfDay,
    new_date: CalendarDay,
) -> Result<(), ValidationError> {
    let today = now.day_at(JST_OFFSET_SECS as int);
    let current_time = now.time_at(JST_OFFSET_SECS as int);
    if new_date.days > today {
        Err(ValidationError::FutureDate)
    } else if new_date.days == today && current_time.before(new_time) {
        Err(ValidationError::FutureTimeToday)
    } else if today - new_date.days > 7 {
        Err(ValidationError::TooFarInPast)
    } else if policy.reject_small_hours && in_small_hours(new_time) {
        Err(ValidationError::ImplausibleHour)
    } else {
        Ok(())
    }
}

/// The result of the three checks in order at the instant `now`.
pub open spec fn new_record_outcome(
    now: Timestamp,
    policy: TimePolicy,
    existing: Seq<AttendanceRecord>,
    new_record_type: RecordType,
    new_timestamp: Timestamp,
    new_date: CalendarDay,
    exclude_record_id: Option<i64>,
) -> Result<(), ValidationError> {
    let new_time = new_timestamp.time_at(JST_OFFSET_SECS as int);
    match reasonable_time_outcome(now, policy, new_time, new_date) {
        Err(e) => Err(e),
        Ok(_) => if has_duplicate(existing, new_timestamp, exclude_record_id) {
            Err(ValidationError::DuplicateInstant)
        } else {
            sequence_outcome(timeline(existing, new_record_type, new_timestamp))
        },
    }
}

/// The entries of events in time order are in time order.
pub proof fn lemma_entries_in_order(records: Seq<AttendanceRecord>)
    requires
        in_time_order(records),
    ensures
        in_time_order(entries_of(records)),
{
    let entries = entries_of(records);
    assert forall|i: int, j: int| 0 <= i < j < entries.len() implies !(#[trigger] entries[j]).instant().before(
        (#[trigger] entries[i]).instant(),
    ) by {
        assert(entries[i].instant() == records[i].instant());
        assert(entries[j].instant() == records[j].instant());
    }
}

/// The day as it would stand is in time order, and holds the entries of the
/// stored events and the candidate, nothing else.
pub proof fn lemma_timeline_is_in_order(
    existing: Seq<AttendanceRecord>,
    new_record_type: RecordType,
    new_timestamp: Timestamp,
)
    ensures
        in_time_order(timeline(existing, new_record_type, new_timestamp)),
        timeline(existing, new_record_type, new_timestamp).len() == existing.len() + 1,
        timeline(existing, new_record_type, new_timestamp).to_multiset() == entries_of(
            sorted_by_time(existing),
        ).to_multiset().insert(
            TimelineEntry { timestamp: new_timestamp, record_type: new_record_type },
        ),
        sorted_by_time(existing).to_multiset() == existing.to_multiset(),
{
    lemma_sorted_by_time(existing);
    lemma_entries_in_order(sorted_by_time(existing));
    lemma_insert_in_order(
        entries_of(sorted_by_time(existing)),
        TimelineEntry { timestamp: new_timestamp, record_type: new_record_type },
    );
}

/// The entries of the stored events in chronological order.
fn sorted_entries(records: &[AttendanceRecord]) -> (line: Vec<TimelineEntry>)
    ensures
        line@ == entries_of(sorted_by_time(records@)),
{
    let sorted = sort_by_time(records);
    let mut line: Vec<TimelineEntry> = Vec::new();
    let mut i: usize = 0;
    while i < sorted.len()
        invariant
            i <= sorted.len(),
            line@.len() == i,
            forall|k: int| 0 <= k < i ==> line@[k] == entry_of(#[trigger] sorted@[k]),
        decreases sorted.len() - i,
    {
        line.push(
            TimelineEntry { timestamp: sorted[i].timestamp, record_type: sorted[i].record_type },
        );
        i = i + 1;
    }
    assert(line@ =~= entries_of(sorted@));
    line
}

pub struct RecordValidator;

impl RecordValidator {
    /// The policy in force where none is given: no time of day is refused
    /// for its hour.
    pub fn default_policy() -> (policy: TimePolicy)
        ensures
            policy == (TimePolicy { reject_small_hours: false }),
    {
        TimePolicy { reject_small_hours: false }
    }

    /// Checks that a day as it would stand alternates between clocking in
    /// and clocking out, starting with clocking in. Where it does not, the
    /// error gives the place, counted from 1, of the first event that is out
    /// of turn.
    pub fn validate_sequence(records: &[TimelineEntry]) -> (outcome: Result<(), ValidationError>)
        ensures
            outcome == sequence_outcome(records@),
            outcome is Ok <==> alternates(records@),
            outcome matches Err(e) ==> e matches ValidationError::BrokenAlternation { position }
                && first_break_at(records@, position - 1),
    {
        let mut i: usize = 0;
        while i < records.len()
            invariant
                i <= records.len(),
                forall|j: int| 0 <= j < i ==> (#[trigger] records@[j]).record_type == expected_kind(j),
            decreases records.len() - i,
        {
            let expected = if i % 2 == 0 {
                RecordType::Start
            } else {
                RecordType::End
            };
            if records[i].record_type != expected {
                proof {
                    assert(first_break_at(records@, i as int));
                    assert(!alternates(records@));
                    let chosen = choose|index: int| first_break_at(records@, index);
                    if chosen < i {
                        assert(records@[chosen].record_type == expected_kind(chosen));
                    }
                    if i < chosen {
                        assert(records@[i as int].record_type == expected_kind(i as int));
                    }
                }
                return Err(ValidationError::BrokenAlternation { position: i + 1 });
            }
            i = i + 1;
        }
        Ok(())
    }

    /// Checks the order of the day with the candidate in it. The stored
    /// events are taken in chronological order, the candidate is put in at
    /// its instant, behind any stored event of the same instant, and the
    /// resulting day has to alternate.
    pub fn validate_record_order(
        existing_records: &[AttendanceRecord],
        new_record_type: RecordType,
        new_timestamp: Timestamp,
    ) -> (outcome: Result<(), ValidationError>)
        ensures
            outcome == sequence_outcome(timeline(existing_records@, new_record_type, new_timestamp)),
    {
        let mut all_records = sorted_entries(existing_records);
        insert_in_time_order(
            &mut all_records,
            TimelineEntry { timestamp: new_timestamp, record_type: new_record_type },
        );
        Self::validate_sequence(all_records.as_slice())
    }

    /// Checks that no stored event has the instant of the candidate. The
    /// event with the id `exclude_record_id` is left out: it is the one
    /// being edited.
    pub fn validate_no_duplicate_time(
        existing_records: &[AttendanceRecord],
        new_timestamp: Timestamp,
        exclude_record_id: Option<i64>,
    ) -> (outcome: Result<(), ValidationError>)
        ensures
            outcome == if has_duplicate(existing_records@, new_timestamp, exclude_record_id) {
                Err::<(), ValidationError>(ValidationError::DuplicateInstant)
            } else {
                Ok(())
            },
    {
        let mut i: usize = 0;
        while i < existing_records.len()
            invariant
                i <= existing_records.len(),
                forall|j: int|
                    0 <= j < i ==> !((#[trigger] existing_records@[j]).timestamp == new_timestamp
                        && exclude_record_id != Some(existing_records@[j].id)),
            decreases existing_records.len() - i,
        {
            let record = &existing_records[i];
            let excluded = match exclude_record_id {
                Some(exclude_id) => record.id == exclude_id,
                None => false,
            };
            if !excluded && record.timestamp == new_timestamp {
                assert(has_duplicate(existing_records@, new_timestamp, exclude_record_id));
                return Err(ValidationError::DuplicateInstant);
            }
            i = i + 1;
        }
        Ok(())
    }

    /// Checks a time of day on a calendar day against the clock at the
    /// instant `now`, under a policy.
    pub fn validate_reasonable_time_at(
        now: Timestamp,
        policy: TimePolicy,
        new_time: TimeOfDay,
        new_date: CalendarDay,
    ) -> (outcome: Result<(), ValidationError>)
        requires
            now.has_day_at(JST_OFFSET_SECS as int),
        ensures
            outcome == reasonable_time_outcome(now, policy, new_time, new_date),
    {
        let today = now.day_of(JST_OFFSET_SECS);
        if new_date.days > today.days {
            return Err(ValidationError::FutureDate);
        }
        if new_date.days == today.days {
            let current_time = now.time_of_day(JST_OFFSET_SECS);
            if current_time.is_before(&new_time) {
                return Err(ValidationError::FutureTimeToday);
            }
        }
        let days_ago: i64 = today.days as i64 - new_date.days as i64;
        if days_ago > 7 {
            return Err(ValidationError::TooFarInPast);
        }
        if policy.reject_small_hours && new_time.secs >= 7_200 && new_time.secs < 18_000 {
            return Err(ValidationError::ImplausibleHour);
        }
        Ok(())
    }

    /// Checks a time of day on a calendar day against the system clock,
    /// under the default policy.
    pub fn validate_reasonable_time(new_time: TimeOfDay, new_date: CalendarDay) -> (outcome: Result<
        (),
        ValidationError,
    >)
        ensures
            exists|now: Timestamp|
                shown_by_clock(now) && outcome == #[trigger] reasonable_time_outcome(
                    now,
                    TimePolicy { reject_small_hours: false },
                    new_time,
                    new_date,
                ),
    {
        let now = get_current_datetime_jst();
        Self::validate_reasonable_time_at(now, Self::default_policy(), new_time, new_date)
    }

    /// Runs the three checks in order at the instant `now`, under a policy:
    /// against the clock, for a duplicate instant, for the order of the day.
    /// The first failure is the result.
    pub fn validate_new_record_at(
        now: Timestamp,
        policy: TimePolicy,
        existing_records: &[AttendanceRecord],
        new_record_type: RecordType,
        new_timestamp: Timestamp,
        new_date: CalendarDay,
        exclude_record_id: Option<i64>,
    ) -> (outcome: Result<(), ValidationError>)
        requires
            now.has_day_at(JST_OFFSET_SECS as int),
        ensures
            outcome == new_record_outcome(
                now,
                policy,
                existing_records@,
                new_record_type,
                new_timestamp,
                new_date,
                exclude_record_id,
            ),
    {
        let new_time_jst = new_timestamp.time_of_day(JST_OFFSET_SECS);
        match Self::validate_reasonable_time_at(now, policy, new_time_jst, new_date) {
            Err(e) => {
                return Err(e);
            },
            Ok(_) => {},
        }
        match Self::validate_no_duplicate_time(existing_records, new_timestamp, exclude_record_id) {
            Err(e) => {
                return Err(e);
            },
            Ok(_) => {},
        }
        Self::validate_record_order(existing_records, new_record_type, new_timestamp)
    }

    /// Runs the three checks in order against the system clock, under the
    /// default policy.
    pub fn validate_new_record(
        existing_records: &[AttendanceRecord],
        new_record_type: RecordType,
        new_timestamp: Timestamp,
        new_date: CalendarDay,
        exclude_record_id: Option<i64>,
    ) -> (outcome: Result<(), ValidationError>)
        ensures
            exists|now: Timestamp|
                shown_by_clock(now) && outcome == #[trigger] new_record_outcome(
                    now,
                    TimePolicy { reject_small_hours: false },
                    existing_records@,
                    new_record_type,
                    new_timestamp,
                    new_date,
                    exclude_record_id,
                ),
    {
        let now = get_current_datetime_jst();
        Self::validate_new_record_at(
            now,
            Self::default_policy(),
            existing_records,
            new_record_type,
            new_timestamp,
            new_date,
            exclude_record_id,
        )
    }
}


/// The day as it would stand, for stored events that are in chronological
/// order already: the stored events with the candidate put in at `place`,
/// the number of stored events that are not later than the candidate.
pub proof fn lemma_timeline_of_ordered_day(
    existing: Seq<AttendanceRecord>,
    new_record_type: RecordType,
    new_timestamp: Timestamp,
    place: int,
)
    requires
        in_time_order(existing),
        0 <= place <= existing.len(),
        forall|j: int| 0 <= j < place ==> !new_timestamp.before((#[trigger] existing[j]).timestamp),
        forall|j: int|
            place <= j < existing.len() ==> new_timestamp.before((#[trigger] existing[j]).timestamp),
    ensures
        timeline(existing, new_record_type, new_timestamp) == entries_of(existing).insert(
            place,
            TimelineEntry { timestamp: new_timestamp, record_type: new_record_type },
        ),
{
    let entries = entries_of(existing);
    let candidate = TimelineEntry { timestamp: new_timestamp, record_type: new_record_type };
    lemma_sorting_keeps_time_order(existing);
    assert forall|j: int| place <= j < entries.len() implies candidate.timestamp.before(
        (#[trigger] entries[j]).timestamp,
    ) by {
        assert(entries[j].timestamp == existing[j].timestamp);
    }
    if place > 0 {
        assert(entries[place - 1].timestamp == existing[place - 1].timestamp);
    }
    lemma_insert_position(entries, candidate, place);
}

/// The first event out of turn is the only one: the order check reports the
/// place `index + 1` exactly when the event at `index` is the first break.
pub proof fn lemma_first_break_is_reported(line: Seq<TimelineEntry>, index: int)
    requires
        first_break_at(line, index),
        line.len() <= usize::MAX,
    ensures
        sequence_outcome(line) == Err::<(), ValidationError>(
            ValidationError::BrokenAlternation { position: (index + 1) as usize },
        ),
{
    assert(!alternates(line));
    let chosen = choose|i: int| first_break_at(line, i);
    if chosen < index {
        assert(line[chosen].record_type == expected_kind(chosen));
    }
    if index < chosen {
        assert(line[index].record_type == expected_kind(index));
    }
}

/// A candidate of the same kind as the event right before its place is
/// refused by the order check, and the error names the candidate's own place.
/// Stated of a day that is in order and alternates: `place` is the number of
/// stored events that are not later than the candidate.
pub proof fn lemma_repeated_kind_is_refused(
    existing: Seq<AttendanceRecord>,
    new_record_type: RecordType,
    new_timestamp: Timestamp,
    place: int,
)
    requires
        in_time_order(existing),
        alternates(entries_of(existing)),
        existing.len() < usize::MAX,
        0 < place <= existing.len(),
        forall|j: int| 0 <= j < place ==> !new_timestamp.before((#[trigger] existing[j]).timestamp),
        forall|j: int|
            place <= j < existing.len() ==> new_timestamp.before((#[trigger] existing[j]).timestamp),
        existing[place - 1].record_type == new_record_type,
    ensures
        sequence_outcome(timeline(existing, new_record_type, new_timestamp)) == Err::<
            (),
            ValidationError,
        >(ValidationError::BrokenAlternation { position: (place + 1) as usize }),
{
    let entries = entries_of(existing);
    let candidate = TimelineEntry { timestamp: new_timestamp, record_type: new_record_type };
    lemma_timeline_of_ordered_day(existing, new_record_type, new_timestamp, place);
    let line = entries.insert(place, candidate);
    assert(entries[place - 1].record_type == expected_kind(place - 1));
    assert(line[place] == candidate);
    assert forall|j: int| 0 <= j < place implies (#[trigger] line[j]).record_type == expected_kind(
        j,
    ) by {
        assert(line[j] == entries[j]);
    }
    assert(first_break_at(line, place));
    lemma_first_break_is_reported(line, place);
}

/// Clocking in again while a clock-in is open is refused, and the error names
/// the place of the second clock-in. Stated of a day that is in order,
/// alternates and ends with an open clock-in, and of a candidate that is
/// later than every stored event and passes the check against the clock.
pub proof fn lemma_clock_in_after_open_clock_in(
    now: Timestamp,
    policy: TimePolicy,
    existing: Seq<AttendanceRecord>,
    new_timestamp: Timestamp,
    new_date: CalendarDay,
    exclude_record_id: Option<i64>,
)
    requires
        in_time_order(existing),
        alternates(entries_of(existing)),
        existing.len() < usize::MAX,
        existing.len() % 2 == 1,
        forall|j: int|
            0 <= j < existing.len() ==> (#[trigger] existing[j]).timestamp.before(new_timestamp),
        reasonable_time_outcome(
            now,
            policy,
            new_timestamp.time_at(JST_OFFSET_SECS as int),
            new_date,
        ) is Ok,
    ensures
        existing.last().record_type == RecordType::Start,
        new_record_outcome(
            now,
            policy,
            existing,
            RecordType::Start,
            new_timestamp,
            new_date,
            exclude_record_id,
        ) == Err::<(), ValidationError>(
            ValidationError::BrokenAlternation { position: (existing.len() + 1) as usize },
        ),
{
    let entries = entries_of(existing);
    let n = existing.len() as int;
    assert(entries[n - 1].record_type == expected_kind(n - 1));
    assert(existing[n - 1].record_type == RecordType::Start);
    assert(!has_duplicate(existing, new_timestamp, exclude_record_id)) by {
        if has_duplicate(existing, new_timestamp, exclude_record_id) {
            let i = choose|i: int|
                0 <= i < existing.len() && (#[trigger] existing[i]).timestamp == new_timestamp
                    && exclude_record_id != Some(existing[i].id);
            assert(existing[i].timestamp.before(new_timestamp));
        }
    }
    assert forall|j: int| 0 <= j < n implies !new_timestamp.before(
        (#[trigger] existing[j]).timestamp,
    ) by {
        assert(existing[j].timestamp.before(new_timestamp));
    }
    lemma_repeated_kind_is_refused(existing, RecordType::Start, new_timestamp, n);
}

/// An instant that a stored event already has is refused as a duplicate,
/// unless that event is the one being edited. Stated of a candidate that
/// passes the check against the clock.
pub proof fn lemma_duplicate_instant_is_refused(
    now: Timestamp,
    policy: TimePolicy,
    existing: Seq<AttendanceRecord>,
    new_record_type: RecordType,
    new_timestamp: Timestamp,
    new_date: CalendarDay,
    exclude_record_id: Option<i64>,
    index: int,
)
    requires
        0 <= index < existing.len(),
        existing[index].timestamp == new_timestamp,
        exclude_record_id != Some(existing[index].id),
        reasonable_time_outcome(
            now,
            policy,
            new_timestamp.time_at(JST_OFFSET_SECS as int),
            new_date,
        ) is Ok,
    ensures
        has_duplicate(existing, new_timestamp, exclude_record_id),
        new_record_outcome(
            now,
            policy,
            existing,
            new_record_type,
            new_timestamp,
            new_date,
            exclude_record_id,
        ) == Err::<(), ValidationError>(ValidationError::DuplicateInstant),
{
}

/// The event being edited is no duplicate of itself: where every stored
/// event with the candidate's instant has the excluded id, the duplicate
/// check passes and no duplicate is reported.
pub proof fn lemma_edited_event_is_no_duplicate(
    now: Timestamp,
    policy: TimePolicy,
    existing: Seq<AttendanceRecord>,
    new_record_type: RecordType,
    new_timestamp: Timestamp,
    new_date: CalendarDay,
    exclude_id: i64,
)
    requires
        forall|i: int|
            0 <= i < existing.len() && (#[trigger] existing[i]).timestamp == new_timestamp
                ==> existing[i].id == exclude_id,
    ensures
        !has_duplicate(existing, new_timestamp, Some(exclude_id)),
        new_record_outcome(
            now,
            policy,
            existing,
            new_record_type,
            new_timestamp,
            new_date,
            Some(exclude_id),
        ) != Err::<(), ValidationError>(ValidationError::DuplicateInstant),
{
    let line = timeline(existing, new_record_type, new_timestamp);
    assert(sequence_outcome(line) != Err::<(), ValidationError>(ValidationError::DuplicateInstant));
}


impl ValidationError {
    /// The reason as told to the user who proposed an event at
    /// `new_timestamp`. A duplicate is told with the time of day in UTC, a
    /// broken alternation with the place and the kind of the event that is
    /// out of turn.
    pub open spec fn message_text(self, new_timestamp: Timestamp) -> Seq<char> {
        match self {
            ValidationError::FutureDate => "未来の日付には記録できません"@,
            ValidationError::FutureTimeToday => "未来の時刻には記録できません"@,
            ValidationError::TooFarInPast => "7日以上前の記録は追加できません"@,
            ValidationError::ImplausibleHour => "午前2時から5時までの時刻は記録できません"@,
            ValidationError::DuplicateInstant => "同じ時刻の記録が既に存在します: "@ + time_text_utc(
                new_timestamp,
            ),
            ValidationError::BrokenAlternation { position } => if position <= 1 {
                "不正な順序: 開始記録なしに終了記録があります"@
            } else if position % 2 == 0 {
                "不正な順序: 位置"@ + decimal_text(position as int) + "で開始記録が連続しています"@
            } else {
                "不正な順序: 位置"@ + decimal_text(position as int) + "で終了記録が連続しています"@
            },
        }
    }

    /// Writes the reason for the user.
    pub fn message(&self, new_timestamp: Timestamp) -> (text: String)
        ensures
            text@ == self.message_text(new_timestamp),
    {
        match self {
            ValidationError::FutureDate => String::from_str("未来の日付には記録できません"),
            ValidationError::FutureTimeToday => String::from_str("未来の時刻には記録できません"),
            ValidationError::TooFarInPast => String::from_str("7日以上前の記録は追加できません"),
            ValidationError::ImplausibleHour => String::from_str(
                "午前2時から5時までの時刻は記録できません",
            ),
            ValidationError::DuplicateInstant => {
                let mut text = String::from_str("同じ時刻の記録が既に存在します: ");
                push_time_utc(&mut text, new_timestamp);
                text
            },
            ValidationError::BrokenAlternation { position } => {
                let position: usize = *position;
                if position <= 1 {
                    String::from_str("不正な順序: 開始記録なしに終了記録があります")
                } else {
                    let mut text = String::from_str("不正な順序: 位置");
                    push_digits(&mut text, position as u64);
                    if position % 2 == 0 {
                        text.append("で開始記録が連続しています");
                    } else {
                        text.append("で終了記録が連続しています");
                    }
                    text
                }
            },
        }
    }
}

} // verus!
