//! What the buttons, menus and dialogs under a status message decide.

use crate::database::models::{AttendanceRecord, RecordType};
use crate::utils::record_validator::{new_record_outcome, RecordValidator, TimePolicy, ValidationError};
use crate::utils::format::{format_attendance_status, status_text};
use crate::utils::record_selector::{MenuOption, MenuOptionText};
use crate::utils::calendar::{
    day_text,
    days_since_monday,
    parse_date,
    parse_date_spec,
    push_day,
};
use crate::utils::text::{read_signed, signed_decimal};
use crate::utils::time::{
    combine_date_time_jst,
    combine_spec,
    day_of_spec,
    get_date_from_utc_timestamp,
    parse_time_spec,
    parse_time_string,
    CalendarDay,
    TimeOfDay,
    TimeParseError,
    Timestamp,
    JST_OFFSET_SECS,
};
use vstd::prelude::*;

verus! {

/// The name of a day of the week, by the days that it lies after a Monday.
pub open spec fn weekday_name(since_monday: int) -> Seq<char> {
    if since_monday == 0 {
        "月"@
    } else if since_monday == 1 {
        "火"@
    } else if since_monday == 2 {
        "水"@
    } else if since_monday == 3 {
        "木"@
    } else if since_monday == 4 {
        "金"@
    } else if since_monday == 5 {
        "土"@
    } else {
        "日"@
    }
}

/// The name of the day of the week of a calendar day.
pub fn get_weekday_jp(date: CalendarDay) -> (name: &'static str)
    ensures
        name@ == weekday_name(days_since_monday(date.days as int)),
{
    let n = date.weekday_from_monday();
    if n == 0 {
        "月"
    } else if n == 1 {
        "火"
    } else if n == 2 {
        "水"
    } else if n == 3 {
        "木"
    } else if n == 4 {
        "金"
    } else if n == 5 {
        "土"
    } else {
        "日"
    }
}


/// Where an interaction with a button or a menu leads.
#[derive(Clone, Copy, Debug, PartialEq, Eq, Structural)]
pub enum Route {
    /// Choose an event to edit its time.
    TimeEdit,
    /// Choose the kind of event to add.
    RecordAdd,
    /// Choose an event to delete.
    DeleteRecord,
    /// Choose a day to look at.
    HistoryView,
    /// Ask for the time of a clock-in to add.
    AddStartRecord,
    /// Ask for the time of a clock-out to add.
    AddEndRecord,
    /// Drop what was begun.
    Cancel,
    /// Delete the one event that was chosen.
    ConfirmDeleteSingle,
    /// Delete all events of the day.
    ConfirmDeleteAll,
    /// An event was chosen for an edit.
    EditRecordSelected,
    /// An event, or all of them, was chosen for deletion.
    DeleteRecordSelected,
    /// A day was chosen to look at.
    HistoryDateSelected,
    /// The status message belongs to another user.
    AccessDenied,
    /// Nothing is known under this id.
    NotImplemented,
}

/// Where a filled-in dialog leads.
#[derive(Clone, Copy, Debug, PartialEq, Eq, Structural)]
pub enum ModalRoute {
    TimeEdit,
    AddStart,
    AddEnd,
    NotImplemented,
}

/// Why a request made through a dialog or a button is not carried out.
#[derive(Clone, Copy, Debug, PartialEq, Eq, Structural)]
pub enum Refusal {
    /// The id of the event is no number.
    InvalidRecordId,
    /// No id of an event was given.
    MissingRecordId,
    /// The user's day holds no event with the id.
    RecordNotFound,
    /// The time typed in is no time.
    Time(TimeParseError),
    /// The event breaks a rule.
    Rule(ValidationError),
}

/// Where the field that holds position `from` ends: at the first `:` at or
/// after `from`, or at the end of `s`.
pub open spec fn field_end(s: Seq<char>, from: int) -> int
    decreases s.len() - from,
{
    if from >= s.len() {
        s.len() as int
    } else if s[from] == ':' {
        from
    } else {
        field_end(s, from + 1)
    }
}

/// Where field `k` of `s` starts, the fields being parted by `:` and counted
/// from 0; beyond the end of `s` where it has no such field.
pub open spec fn field_start(s: Seq<char>, k: nat) -> int
    decreases k,
{
    if k == 0 {
        0
    } else {
        let prev = field_start(s, (k - 1) as nat);
        if prev > s.len() {
            prev
        } else {
            field_end(s, prev) + 1
        }
    }
}

/// Field `k` of `s`, the fields being parted by `:` and counted from 0.
pub open spec fn field(s: Seq<char>, k: nat) -> Option<Seq<char>> {
    let start = field_start(s, k);
    if 0 <= start <= s.len() {
        Some(s.subrange(start, field_end(s, start)))
    } else {
        None
    }
}

/// The route of a button by the name of its action.
pub open spec fn action_route(action: Seq<char>) -> Route {
    if action == "time_edit"@ {
        Route::TimeEdit
    } else if action == "record_add"@ {
        Route::RecordAdd
    } else if action == "delete_record"@ {
        Route::DeleteRecord
    } else if action == "history_view"@ {
        Route::HistoryView
    } else if action == "add_start_record"@ {
        Route::AddStartRecord
    } else if action == "add_end_record"@ {
        Route::AddEndRecord
    } else if action == "cancel_add"@ {
        Route::Cancel
    } else if action == "confirm_delete_single"@ {
        Route::ConfirmDeleteSingle
    } else if action == "confirm_delete_all"@ {
        Route::ConfirmDeleteAll
    } else if action == "cancel_delete"@ {
        Route::Cancel
    } else {
        Route::NotImplemented
    }
}

/// The route of a menu by its id.
pub open spec fn menu_route(custom_id: Seq<char>) -> Route {
    if custom_id == "edit_record_select"@ {
        Route::EditRecordSelected
    } else if custom_id == "delete_record_select"@ {
        Route::DeleteRecordSelected
    } else if custom_id == "history_date_select"@ {
        Route::HistoryDateSelected
    } else {
        Route::NotImplemented
    }
}

/// The route of an interaction. An id of two fields or more names an action
/// and the user to whom the status message belongs: only that user may act.
/// An id of one field is that of a menu.
pub open spec fn route_of(custom_id: Seq<char>, user_id: Seq<char>) -> Route {
    match field(custom_id, 1) {
        Some(owner) => if owner == user_id {
            action_route(field(custom_id, 0)->0)
        } else {
            Route::AccessDenied
        },
        None => menu_route(custom_id),
    }
}

/// The route of a dialog by its id.
pub open spec fn modal_route_of(custom_id: Seq<char>) -> ModalRoute {
    if custom_id == "time_edit_modal"@ {
        ModalRoute::TimeEdit
    } else if custom_id == "add_start_modal"@ {
        ModalRoute::AddStart
    } else if custom_id == "add_end_modal"@ {
        ModalRoute::AddEnd
    } else {
        ModalRoute::NotImplemented
    }
}

/// Whether two texts are the same.
pub fn same_text(a: &str, b: &str) -> (same: bool)
    ensures
        same == (a@ == b@),
{
    let n = a.unicode_len();
    if n != b.unicode_len() {
        return false;
    }
    let mut i: usize = 0;
    while i < n
        invariant
            i <= n,
            n == a@.len(),
            n == b@.len(),
            forall|j: int| 0 <= j < i ==> a@[j] == b@[j],
        decreases n - i,
    {
        if a.get_char(i) != b.get_char(i) {
            return false;
        }
        i = i + 1;
    }
    assert(a@ =~= b@);
    true
}

/// Finds the end of the field that holds position `from`.
fn find_field_end(text: &str, from: usize) -> (end: usize)
    requires
        from <= text@.len(),
    ensures
        end == field_end(text@, from as int),
        from <= end <= text@.len(),
{
    let n = text.unicode_len();
    let mut i: usize = from;
    while i < n && text.get_char(i) != ':'
        invariant
            from <= i <= n,
            n == text@.len(),
            field_end(text@, from as int) == field_end(text@, i as int),
        decreases n - i,
    {
        i = i + 1;
    }
    i
}

/// Finds the route of an interaction with the button or menu `custom_id`
/// by the user `user_id`.
pub fn handle_status_interaction(custom_id: &str, user_id: &str) -> (route: Route)
    ensures
        route == route_of(custom_id@, user_id@),
{
    let n = custom_id.unicode_len();
    let first_end = find_field_end(custom_id, 0);
    assert(field_start(custom_id@, 1) == first_end + 1) by {
        assert(field_start(custom_id@, 0) == 0);
    }
    if first_end < n {
        let second_end = find_field_end(custom_id, first_end + 1);
        let owner = custom_id.substring_char(first_end + 1, second_end);
        if !same_text(owner, user_id) {
            return Route::AccessDenied;
        }
        let action = custom_id.substring_char(0, first_end);
        if same_text(action, "time_edit") {
            Route::TimeEdit
        } else if same_text(action, "record_add") {
            Route::RecordAdd
        } else if same_text(action, "delete_record") {
            Route::DeleteRecord
        } else if same_text(action, "history_view") {
            Route::HistoryView
        } else if same_text(action, "add_start_record") {
            Route::AddStartRecord
        } else if same_text(action, "add_end_record") {
            Route::AddEndRecord
        } else if same_text(action, "cancel_add") {
            Route::Cancel
        } else if same_text(action, "confirm_delete_single") {
            Route::ConfirmDeleteSingle
        } else if same_text(action, "confirm_delete_all") {
            Route::ConfirmDeleteAll
        } else if same_text(action, "cancel_delete") {
            Route::Cancel
        } else {
            Route::NotImplemented
        }
    } else {
        if same_text(custom_id, "edit_record_select") {
            Route::EditRecordSelected
        } else if same_text(custom_id, "delete_record_select") {
            Route::DeleteRecordSelected
        } else if same_text(custom_id, "history_date_select") {
            Route::HistoryDateSelected
        } else {
            Route::NotImplemented
        }
    }
}

/// Finds the route of the filled-in dialog `custom_id`.
pub fn handle_status_modal(custom_id: &str) -> (route: ModalRoute)
    ensures
        route == modal_route_of(custom_id@),
{
    if same_text(custom_id, "time_edit_modal") {
        ModalRoute::TimeEdit
    } else if same_text(custom_id, "add_start_modal") {
        ModalRoute::AddStart
    } else if same_text(custom_id, "add_end_modal") {
        ModalRoute::AddEnd
    } else {
        ModalRoute::NotImplemented
    }
}

/// Whether one of the events has the id.
pub open spec fn holds_id(records: Seq<AttendanceRecord>, id: i64) -> bool {
    exists|i: int| 0 <= i < records.len() && (#[trigger] records[i]).id == id
}

/// The event to delete under the button `custom_id`, whose third field is
/// the id of the event, among the events of the user's day.
pub open spec fn delete_target(custom_id: Seq<char>, today_records: Seq<AttendanceRecord>) -> Result<
    i64,
    Refusal,
> {
    match field(custom_id, 2) {
        None => Err(Refusal::MissingRecordId),
        Some(text) => match signed_decimal(text) {
            None => Err(Refusal::InvalidRecordId),
            Some(id) => if holds_id(today_records, id) {
                Ok(id)
            } else {
                Err(Refusal::RecordNotFound)
            },
        },
    }
}

/// Finds the first of the events that has the id.
pub fn find_record(records: &[AttendanceRecord], id: i64) -> (found: Option<usize>)
    ensures
        found is Some <==> holds_id(records@, id),
        found matches Some(i) ==> i < records@.len() && records@[i as int].id == id && forall|
            j: int,
        |
            0 <= j < i ==> (#[trigger] records@[j]).id != id,
{
    let mut i: usize = 0;
    while i < records.len()
        invariant
            i <= records.len(),
            forall|j: int| 0 <= j < i ==> (#[trigger] records@[j]).id != id,
        decreases records.len() - i,
    {
        if records[i].id == id {
            return Some(i);
        }
        i = i + 1;
    }
    None
}

/// Decides which event the confirmed deletion under the button `custom_id`
/// removes: the id has to be given, to be a number, and to be that of an
/// event of the user's day.
pub fn handle_confirm_delete_single(custom_id: &str, today_records: &[AttendanceRecord]) -> (target:
    Result<i64, Refusal>)
    ensures
        target == delete_target(custom_id@, today_records@),
{
    let n = custom_id.unicode_len();
    let first_end = find_field_end(custom_id, 0);
    assert(field_start(custom_id@, 1) == first_end + 1) by {
        assert(field_start(custom_id@, 0) == 0);
    }
    if first_end >= n {
        assert(field_start(custom_id@, 2) > n);
        return Err(Refusal::MissingRecordId);
    }
    let second_end = find_field_end(custom_id, first_end + 1);
    assert(field_start(custom_id@, 2) == second_end + 1);
    if second_end >= n {
        return Err(Refusal::MissingRecordId);
    }
    let third_end = find_field_end(custom_id, second_end + 1);
    match read_signed(custom_id, second_end + 1, third_end) {
        None => Err(Refusal::InvalidRecordId),
        Some(id) => match find_record(today_records, id) {
            Some(_) => Ok(id),
            None => Err(Refusal::RecordNotFound),
        },
    }
}

/// The instant of a new event of kind `kind` at the time of day `time`
/// today, or the rule that it breaks. Today is the day in Japan at the
/// instant `now`.
pub open spec fn new_record_plan(
    now: Timestamp,
    existing: Seq<AttendanceRecord>,
    kind: RecordType,
    time: TimeOfDay,
) -> Result<Timestamp, Refusal> {
    let today = day_of_spec(now, JST_OFFSET_SECS);
    let instant = combine_spec(today, time, 0, JST_OFFSET_SECS);
    match new_record_outcome(
        now,
        TimePolicy { reject_small_hours: false },
        existing,
        kind,
        instant,
        today,
        None,
    ) {
        Ok(_) => Ok(instant),
        Err(e) => Err(Refusal::Rule(e)),
    }
}

/// What becomes of a request to add an event of kind `kind` at the time
/// that reads as `parsed`.
pub open spec fn add_record_plan(
    now: Timestamp,
    existing: Seq<AttendanceRecord>,
    kind: RecordType,
    parsed: Result<(TimeOfDay, bool), TimeParseError>,
) -> Result<Timestamp, Refusal> {
    match parsed {
        Err(e) => Err(Refusal::Time(e)),
        Ok((time, _)) => new_record_plan(now, existing, kind, time),
    }
}

/// Decides on a new event of kind `kind` at the time of day `time` today:
/// gives its instant where the rules admit it.
pub fn plan_new_record(
    now: Timestamp,
    existing_records: &[AttendanceRecord],
    kind: RecordType,
    time: TimeOfDay,
) -> (plan: Result<Timestamp, Refusal>)
    requires
        now.has_day_at(JST_OFFSET_SECS as int),
    ensures
        plan == new_record_plan(now, existing_records@, kind, time),
{
    let current_date = get_date_from_utc_timestamp(now);
    let new_datetime = combine_date_time_jst(current_date, time);
    match RecordValidator::validate_new_record_at(
        now,
        RecordValidator::default_policy(),
        existing_records,
        kind,
        new_datetime,
        current_date,
        None,
    ) {
        Ok(_) => Ok(new_datetime),
        Err(e) => Err(Refusal::Rule(e)),
    }
}

/// Decides on the dialog that adds a clock-in at the time typed in.
pub fn handle_add_start_modal(
    now: Timestamp,
    existing_records: &[AttendanceRecord],
    time_input: &str,
) -> (plan: Result<Timestamp, Refusal>)
    requires
        now.has_day_at(JST_OFFSET_SECS as int),
    ensures
        plan == add_record_plan(
            now,
            existing_records@,
            RecordType::Start,
            parse_time_spec(time_input@),
        ),
{
    match parse_time_string(time_input) {
        Err(e) => Err(Refusal::Time(e)),
        Ok(time) => plan_new_record(now, existing_records, RecordType::Start, time),
    }
}

/// Decides on the dialog that adds a clock-out at the time typed in.
pub fn handle_add_end_modal(
    now: Timestamp,
    existing_records: &[AttendanceRecord],
    time_input: &str,
) -> (plan: Result<Timestamp, Refusal>)
    requires
        now.has_day_at(JST_OFFSET_SECS as int),
    ensures
        plan == add_record_plan(
            now,
            existing_records@,
            RecordType::End,
            parse_time_spec(time_input@),
        ),
{
    match parse_time_string(time_input) {
        Err(e) => Err(Refusal::Time(e)),
        Ok(time) => plan_new_record(now, existing_records, RecordType::End, time),
    }
}

/// An edit that the rules admit: the event `record_id` gets the instant
/// `new_timestamp`.
#[derive(Clone, Copy, Debug, PartialEq, Eq, Structural)]
pub struct TimeEdit {
    pub record_id: i64,
    pub new_timestamp: Timestamp,
}

/// The first of the events that has the id.
pub open spec fn first_record_with(records: Seq<AttendanceRecord>, id: i64) -> Option<
    AttendanceRecord,
> {
    if holds_id(records, id) {
        Some(
            records[choose|i: int|
                0 <= i < records.len() && records[i].id == id && forall|j: int|
                    0 <= j < i ==> (#[trigger] records[j]).id != id],
        )
    } else {
        None
    }
}

/// What becomes of an edit of the event `record_id` to the time of day
/// `time` today. The user's day has to hold the event, and the new instant
/// has to pass the rules as an event of its kind, the event itself left out
/// of the search for a duplicate. An event that the day does not hold is
/// not edited.
pub open spec fn time_edit_plan(
    now: Timestamp,
    existing: Seq<AttendanceRecord>,
    record_id: i64,
    time: TimeOfDay,
) -> Result<TimeEdit, Refusal> {
    let today = day_of_spec(now, JST_OFFSET_SECS);
    let instant = combine_spec(today, time, 0, JST_OFFSET_SECS);
    let edit = TimeEdit { record_id, new_timestamp: instant };
    match first_record_with(existing, record_id) {
        Some(record) => match new_record_outcome(
            now,
            TimePolicy { reject_small_hours: false },
            existing,
            record.record_type,
            instant,
            today,
            Some(record_id),
        ) {
            Ok(_) => Ok(edit),
            Err(e) => Err(Refusal::Rule(e)),
        },
        None => Err(Refusal::RecordNotFound),
    }
}

/// What becomes of the dialog that edits the time of an event, the id
/// reading as `record_id` and the time as `parsed`: the id is looked at
/// first, then the time, then the rules.
pub open spec fn time_edit_outcome(
    now: Timestamp,
    existing: Seq<AttendanceRecord>,
    record_id: Option<i64>,
    parsed: Result<(TimeOfDay, bool), TimeParseError>,
) -> Result<TimeEdit, Refusal> {
    match record_id {
        None => Err(Refusal::InvalidRecordId),
        Some(id) => match parsed {
            Err(e) => Err(Refusal::Time(e)),
            Ok((time, _)) => time_edit_plan(now, existing, id, time),
        },
    }
}

/// Decides on an edit of the event `record_id` to the time of day `time`
/// today.
pub fn plan_time_edit(
    now: Timestamp,
    existing_records: &[AttendanceRecord],
    record_id: i64,
    time: TimeOfDay,
) -> (plan: Result<TimeEdit, Refusal>)
    requires
        now.has_day_at(JST_OFFSET_SECS as int),
    ensures
        plan == time_edit_plan(now, existing_records@, record_id, time),
{
    let current_date = get_date_from_utc_timestamp(now);
    let new_datetime = combine_date_time_jst(current_date, time);
    let edit = TimeEdit { record_id, new_timestamp: new_datetime };
    match find_record(existing_records, record_id) {
        Some(index) => {
            let record = &existing_records[index];
            proof {
                let chosen = choose|i: int|
                    0 <= i < existing_records@.len() && existing_records@[i].id == record_id
                        && forall|j: int|
                        0 <= j < i ==> (#[trigger] existing_records@[j]).id != record_id;
                if chosen < index {
                    assert(existing_records@[chosen].id != record_id);
                }
                if index < chosen {
                    assert(existing_records@[index as int].id != record_id);
                }
            }
            match RecordValidator::validate_new_record_at(
                now,
                RecordValidator::default_policy(),
                existing_records,
                record.record_type,
                new_datetime,
                current_date,
                Some(record_id),
            ) {
                Ok(_) => Ok(edit),
                Err(e) => Err(Refusal::Rule(e)),
            }
        },
        None => Err(Refusal::RecordNotFound),
    }
}

/// Decides on the dialog that edits the time of an event, from the id and
/// the time as typed in.
pub fn handle_time_edit_modal(
    now: Timestamp,
    existing_records: &[AttendanceRecord],
    record_id_input: &str,
    time_input: &str,
) -> (plan: Result<TimeEdit, Refusal>)
    requires
        now.has_day_at(JST_OFFSET_SECS as int),
    ensures
        plan == time_edit_outcome(
            now,
            existing_records@,
            signed_decimal(record_id_input@),
            parse_time_spec(time_input@),
        ),
{
    let n = record_id_input.unicode_len();
    assert(record_id_input@.subrange(0, n as int) =~= record_id_input@);
    let record_id = match read_signed(record_id_input, 0, n) {
        Some(id) => id,
        None => {
            return Err(Refusal::InvalidRecordId);
        },
    };
    match parse_time_string(time_input) {
        Err(e) => Err(Refusal::Time(e)),
        Ok(time) => plan_time_edit(now, existing_records, record_id, time),
    }
}

/// What the user chose in the menu of deletions.
#[derive(Clone, Copy, Debug, PartialEq, Eq, Structural)]
pub enum DeleteChoice {
    /// All events of the day.
    All,
    /// One event.
    Single,
}

/// Reads the choice made in the menu of deletions: all events under the
/// value `delete_all`, else the one event that the value names.
pub fn handle_delete_record_selected(selected_value: &str) -> (choice: DeleteChoice)
    ensures
        choice == if selected_value@ == "delete_all"@ {
            DeleteChoice::All
        } else {
            DeleteChoice::Single
        },
{
    if same_text(selected_value, "delete_all") {
        DeleteChoice::All
    } else {
        DeleteChoice::Single
    }
}


/// The most days that the menu of the history offers.
pub const MAX_HISTORY_DAYS: usize = 20;

/// A day as shown in the history: the date and the day of the week.
pub open spec fn history_day_text(day: CalendarDay) -> Seq<char> {
    day_text(day.days, "%Y/%m/%d"@) + " ("@ + weekday_name(days_since_monday(day.days as int))
        + ")"@
}

/// The entry under which a day is offered in the menu of the history.
pub open spec fn history_option(day: CalendarDay) -> MenuOptionText {
    MenuOptionText {
        label: history_day_text(day),
        value: day_text(day.days, "%Y-%m-%d"@),
        description: Seq::empty(),
    }
}

/// Appends a day as shown in the history.
fn push_history_day(out: &mut String, day: CalendarDay)
    requires
        day.wf(),
    ensures
        final(out)@ == old(out)@ + history_day_text(day),
{
    push_day(out, day, "%Y/%m/%d");
    out.append(" (");
    out.append(get_weekday_jp(day));
    out.append(")");
    assert(final(out)@ =~= old(out)@ + history_day_text(day));
}

/// The entries of the menu from which the user picks a day of the history:
/// one for each of the days, the first 20 at most.
pub fn handle_history_view(available_dates: &[CalendarDay]) -> (options: Vec<MenuOption>)
    requires
        forall|i: int| 0 <= i < available_dates@.len() ==> (#[trigger] available_dates@[i]).wf(),
    ensures
        options@.len() == if available_dates@.len() < 20 {
            available_dates@.len()
        } else {
            20
        },
        forall|i: int|
            0 <= i < options@.len() ==> (#[trigger] options@[i])@ == history_option(
                available_dates@[i],
            ),
{
    let count: usize = if available_dates.len() < MAX_HISTORY_DAYS {
        available_dates.len()
    } else {
        MAX_HISTORY_DAYS
    };
    let mut options: Vec<MenuOption> = Vec::new();
    let mut i: usize = 0;
    while i < count
        invariant
            i <= count <= available_dates.len(),
            forall|k: int|
                0 <= k < available_dates@.len() ==> (#[trigger] available_dates@[k]).wf(),
            options@.len() == i,
            forall|k: int|
                0 <= k < i ==> (#[trigger] options@[k])@ == history_option(available_dates@[k]),
        decreases count - i,
    {
        let day = available_dates[i];
        let mut label = String::new();
        push_history_day(&mut label, day);
        assert(label@ =~= history_day_text(day));
        let mut value = String::new();
        push_day(&mut value, day, "%Y-%m-%d");
        assert(value@ =~= day_text(day.days, "%Y-%m-%d"@));
        let description = String::new();
        assert(description@ =~= Seq::<char>::empty());
        options.push(MenuOption { label, value, description });
        i = i + 1;
    }
    options
}

/// What is shown for a day of the history: a note where the day has no
/// events, else a heading and the status of the day.
pub open spec fn history_text(day: CalendarDay, records: Seq<AttendanceRecord>) -> Seq<char> {
    if records.len() == 0 {
        "📋 "@ + history_day_text(day) + " の記録はありません"@
    } else {
        "📋 **"@ + history_day_text(day) + " の勤務記録**\n\n"@ + status_text(records)
    }
}

/// Writes what is shown for a day of the history.
pub fn format_history(day: CalendarDay, records: &[AttendanceRecord]) -> (text: String)
    requires
        day.wf(),
        records@.len() <= i32::MAX,
    ensures
        text@ == history_text(day, records@),
{
    if records.len() == 0 {
        let mut text = String::from_str("📋 ");
        push_history_day(&mut text, day);
        text.append(" の記録はありません");
        text
    } else {
        let mut text = String::from_str("📋 **");
        push_history_day(&mut text, day);
        text.append(" の勤務記録**\n\n");
        let status = format_attendance_status(records);
        text.append(status.as_str());
        text
    }
}

/// Reads the day that the user picked in the menu of the history.
pub fn handle_history_date_selected(selected_value: &str) -> (day: Option<CalendarDay>)
    ensures
        day == parse_date_spec(selected_value@),
        day matches Some(d) ==> d.wf(),
{
    parse_date(selected_value)
}

} // verus!
