//! The events of a day laid out for the user to pick one.

use crate::database::models::{AttendanceRecord, RecordType};
use crate::utils::chronology::{sort_by_time, sorted_by_time};
use crate::utils::text::{decimal_text, push_decimal};
use crate::utils::time::{format_time_jst, time_text_jst};
use vstd::prelude::*;

verus! {

/// The first of the events that has the id.
pub open spec fn first_with_id(records: Seq<AttendanceRecord>, id: i64) -> Option<
    AttendanceRecord,
>
    decreases records.len(),
{
    if records.len() == 0 {
        None
    } else if records.first().id == id {
        Some(records.first())
    } else {
        first_with_id(records.drop_first(), id)
    }
}

/// The events of a day in chronological order.
pub struct RecordSelector {
    records: Vec<AttendanceRecord>,
}

impl View for RecordSelector {
    type V = Seq<AttendanceRecord>;

    closed spec fn view(&self) -> Seq<AttendanceRecord> {
        self.records@
    }
}

impl RecordSelector {
    /// Takes the events and puts them in chronological order.
    pub fn new(records: Vec<AttendanceRecord>) -> (selector: RecordSelector)
        ensures
            selector@ == sorted_by_time(records@),
    {
        RecordSelector { records: sort_by_time(records.as_slice()) }
    }

    /// The first event with the id.
    pub fn get_record_by_id(&self, id: i64) -> (found: Option<&AttendanceRecord>)
        ensures
            found is Some <==> first_with_id(self@, id) is Some,
            found matches Some(record) ==> Some(*record) == first_with_id(self@, id),
    {
        let mut i: usize = 0;
        assert(self@.subrange(0, self@.len() as int) =~= self@);
        while i < self.records.len()
            invariant
                i <= self.records.len(),
                first_with_id(self@, id) == first_with_id(
                    self@.subrange(i as int, self@.len() as int),
                    id,
                ),
            decreases self.records.len() - i,
        {
            let ghost rest = self@.subrange(i as int, self@.len() as int);
            assert(rest.first() == self@[i as int]);
            assert(rest.drop_first() =~= self@.subrange(i as int + 1, self@.len() as int));
            if self.records[i].id == id {
                return Some(&self.records[i]);
            }
            i = i + 1;
        }
        None
    }

    /// The ids of the events, in chronological order.
    pub fn get_all_record_ids(&self) -> (ids: Vec<i64>)
        ensures
            ids@.len() == self@.len(),
            forall|i: int| 0 <= i < ids@.len() ==> ids@[i] == (#[trigger] self@[i]).id,
    {
        let mut ids: Vec<i64> = Vec::new();
        let mut i: usize = 0;
        while i < self.records.len()
            invariant
                i <= self.records.len(),
                ids@.len() == i,
                forall|k: int| 0 <= k < i ==> ids@[k] == (#[trigger] self@[k]).id,
            decreases self.records.len() - i,
        {
            ids.push(self.records[i].id);
            i = i + 1;
        }
        ids
    }

    /// The number of events.
    pub fn count(&self) -> (n: usize)
        ensures
            n == self@.len(),
    {
        self.records.len()
    }

    pub fn is_empty(&self) -> (empty: bool)
        ensures
            empty == (self@.len() == 0),
    {
        self.records.len() == 0
    }

    /// The events in chronological order.
    pub fn records(&self) -> (records: &Vec<AttendanceRecord>)
        ensures
            records@ == self@,
    {
        &self.records
    }
}


/// One entry of a menu.
#[derive(Clone, Debug)]
pub struct MenuOption {
    /// What the user reads.
    pub label: String,
    /// What comes back when the user picks the entry.
    pub value: String,
    /// The smaller print under the label.
    pub description: String,
}

/// The texts of an entry of a menu.
pub struct MenuOptionText {
    pub label: Seq<char>,
    pub value: Seq<char>,
    pub description: Seq<char>,
}

impl View for MenuOption {
    type V = MenuOptionText;

    open spec fn view(&self) -> MenuOptionText {
        MenuOptionText {
            label: self.label@,
            value: self.value@,
            description: self.description@,
        }
    }
}

/// The most entries that a menu of the chat platform takes.
pub const MAX_MENU_OPTIONS: usize = 25;

/// The word for a kind of event.
pub open spec fn kind_label(kind: RecordType) -> Seq<char> {
    match kind {
        RecordType::Start => "開始"@,
        RecordType::End => "終了"@,
    }
}

/// The entry under which an event is offered for an edit: its time in
/// Japan and its kind, marked where it was edited before; below, the
/// original time of an edited event, or the id of one never edited.
pub open spec fn edit_option(record: AttendanceRecord) -> MenuOptionText {
    MenuOptionText {
        label: time_text_jst(record.timestamp) + " "@ + kind_label(record.record_type) + (
        if record.is_modified {
            " (修正済み)"@
        } else {
            ""@
        }),
        value: decimal_text(record.id as int),
        description: if record.is_modified {
            match record.original_timestamp {
                Some(original) => "元の時間: "@ + time_text_jst(original),
                None => "修正済みの記録"@,
            }
        } else {
            "記録ID: "@ + decimal_text(record.id as int)
        },
    }
}

/// The entry under which an event is offered for deletion.
pub open spec fn delete_option(record: AttendanceRecord) -> MenuOptionText {
    MenuOptionText {
        label: time_text_jst(record.timestamp) + " "@ + kind_label(record.record_type),
        value: decimal_text(record.id as int),
        description: "記録ID: "@ + decimal_text(record.id as int),
    }
}

/// The entry that offers all events of the day for deletion.
pub open spec fn delete_all_option() -> MenuOptionText {
    MenuOptionText {
        label: "🗑️ 全て削除"@,
        value: "delete_all"@,
        description: "当日のすべての記録を削除します"@,
    }
}

/// The entries of the menu of deletions before it is cut to size: one for
/// each event, then the one for all events where there is more than one.
pub open spec fn delete_options(records: Seq<AttendanceRecord>) -> Seq<MenuOptionText> {
    let single = Seq::new(records.len(), |i: int| delete_option(records[i]));
    if records.len() > 1 {
        single.push(delete_all_option())
    } else {
        single
    }
}

/// The word for a kind of event.
fn kind_word(kind: RecordType) -> (word: &'static str)
    ensures
        word@ == kind_label(kind),
{
    match kind {
        RecordType::Start => "開始",
        RecordType::End => "終了",
    }
}

/// Makes the entry under which an event is offered for an edit.
fn make_edit_option(record: &AttendanceRecord) -> (option: MenuOption)
    ensures
        option@ == edit_option(*record),
{
    let mut label = format_time_jst(record.timestamp);
    label.append(" ");
    label.append(kind_word(record.record_type));
    if record.is_modified {
        label.append(" (修正済み)");
    } else {
        label.append("");
    }
    let mut value = String::new();
    push_decimal(&mut value, record.id);
    assert(value@ =~= decimal_text(record.id as int));
    let description = if record.is_modified {
        match record.original_timestamp {
            Some(original) => {
                let mut text = String::from_str("元の時間: ");
                let time = format_time_jst(original);
                text.append(time.as_str());
                text
            },
            None => String::from_str("修正済みの記録"),
        }
    } else {
        let mut text = String::from_str("記録ID: ");
        push_decimal(&mut text, record.id);
        text
    };
    MenuOption { label, value, description }
}

/// Makes the entry under which an event is offered for deletion.
fn make_delete_option(record: &AttendanceRecord) -> (option: MenuOption)
    ensures
        option@ == delete_option(*record),
{
    let mut label = format_time_jst(record.timestamp);
    label.append(" ");
    label.append(kind_word(record.record_type));
    let mut value = String::new();
    push_decimal(&mut value, record.id);
    assert(value@ =~= decimal_text(record.id as int));
    let mut description = String::from_str("記録ID: ");
    push_decimal(&mut description, record.id);
    MenuOption { label, value, description }
}

impl RecordSelector {
    /// The entries of the menu from which the user picks an event to edit:
    /// one for each event in chronological order, the first 25 at most. No
    /// menu where there is no event.
    pub fn create_select_menu(&self) -> (menu: Option<Vec<MenuOption>>)
        ensures
            menu is Some <==> self@.len() > 0,
            menu matches Some(options) ==> {
                &&& options@.len() == if self@.len() < 25 {
                    self@.len()
                } else {
                    25
                }
                &&& forall|i: int|
                    0 <= i < options@.len() ==> (#[trigger] options@[i])@ == edit_option(self@[i])
            },
    {
        if self.records.len() == 0 {
            return None;
        }
        let count: usize = if self.records.len() < MAX_MENU_OPTIONS {
            self.records.len()
        } else {
            MAX_MENU_OPTIONS
        };
        let mut options: Vec<MenuOption> = Vec::new();
        let mut i: usize = 0;
        while i < count
            invariant
                i <= count <= self.records.len(),
                options@.len() == i,
                forall|k: int|
                    0 <= k < i ==> (#[trigger] options@[k])@ == edit_option(self.records@[k]),
            decreases count - i,
        {
            options.push(make_edit_option(&self.records[i]));
            i = i + 1;
        }
        Some(options)
    }

    /// The entries of the menu from which the user picks what to delete:
    /// one for each event in chronological order, then one for all events
    /// where there is more than one; of these the first 25 at most. No menu
    /// where there is no event.
    pub fn create_delete_select_menu(&self) -> (menu: Option<Vec<MenuOption>>)
        ensures
            menu is Some <==> self@.len() > 0,
            menu matches Some(options) ==> {
                &&& options@.len() == if delete_options(self@).len() < 25 {
                    delete_options(self@).len()
                } else {
                    25
                }
                &&& forall|i: int|
                    0 <= i < options@.len() ==> (#[trigger] options@[i])@ == delete_options(
                        self@,
                    )[i]
            },
    {
        let n = self.records.len();
        if n == 0 {
            return None;
        }
        let count: usize = if n < MAX_MENU_OPTIONS {
            n
        } else {
            MAX_MENU_OPTIONS
        };
        let mut options: Vec<MenuOption> = Vec::new();
        let mut i: usize = 0;
        while i < count
            invariant
                i <= count <= n,
                n == self.records.len(),
                options@.len() == i,
                forall|k: int|
                    0 <= k < i ==> (#[trigger] options@[k])@ == delete_option(self.records@[k]),
            decreases count - i,
        {
            options.push(make_delete_option(&self.records[i]));
            i = i + 1;
        }
        if n > 1 && options.len() < MAX_MENU_OPTIONS {
            options.push(
                MenuOption {
                    label: String::from_str("🗑️ 全て削除"),
                    value: String::from_str("delete_all"),
                    description: String::from_str("当日のすべての記録を削除します"),
                },
            );
        }
        Some(options)
    }
}

} // verus!
