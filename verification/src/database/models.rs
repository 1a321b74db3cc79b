//! The records that the store keeps: users, clock events and the work
//! sessions derived from the events.

use crate::utils::session_manager::SessionData;
use crate::utils::time::{whole_minutes_between, CalendarDay, Timestamp};
use vstd::prelude::*;

verus! {

/// The two kinds of clock event.
#[derive(Clone, Copy, Debug, PartialEq, Eq, Structural)]
pub enum RecordType {
    /// Clocking in.
    Start,
    /// Clocking out.
    End,
}

impl RecordType {
    /// The name under which the store keeps the kind.
    pub open spec fn name(self) -> Seq<char> {
        match self {
            RecordType::Start => "start"@,
            RecordType::End => "end"@,
        }
    }

    /// The other kind.
    pub open spec fn other(self) -> RecordType {
        match self {
            RecordType::Start => RecordType::End,
            RecordType::End => RecordType::Start,
        }
    }

    pub fn as_str(&self) -> (name: &'static str)
        ensures
            name@ == self.name(),
    {
        match self {
            RecordType::Start => "start",
            RecordType::End => "end",
        }
    }

    /// The kind that the store keeps under `name`, if it is one of the two names.
    pub fn from_name(name: &str) -> (kind: Option<RecordType>)
        ensures
            kind is Some <==> name@ == "start"@ || name@ == "end"@,
            kind matches Some(k) ==> k.name() == name@,
    {
        proof {
            reveal_strlit("start");
            reveal_strlit("end");
        }
        let n: usize = name.unicode_len();
        if n == 5 && name.get_char(0) == 's' && name.get_char(1) == 't' && name.get_char(2) == 'a'
            && name.get_char(3) == 'r' && name.get_char(4) == 't' {
            assert(name@ =~= "start"@);
            Some(RecordType::Start)
        } else if n == 3 && name.get_char(0) == 'e' && name.get_char(1) == 'n' && name.get_char(2)
            == 'd' {
            assert(name@ =~= "end"@);
            Some(RecordType::End)
        } else {
            None
        }
    }
}

/// A person who clocks in and out.
#[derive(Clone, Debug)]
pub struct User {
    pub id: i64,
    pub discord_id: String,
    pub username: String,
    pub created_at: Timestamp,
}

/// One clock event: a user clocked in or out at an instant.
#[derive(Clone, Copy, Debug, PartialEq, Eq, Structural)]
pub struct AttendanceRecord {
    pub id: i64,
    pub user_id: i64,
    pub record_type: RecordType,
    pub timestamp: Timestamp,
    /// Whether the instant was edited after the event was recorded.
    pub is_modified: bool,
    /// The instant as first recorded; kept from the first edit on.
    pub original_timestamp: Option<Timestamp>,
    pub created_at: Timestamp,
    pub updated_at: Timestamp,
}

impl AttendanceRecord {
    /// An original instant is kept only for an edited event.
    pub open spec fn wf(self) -> bool {
        self.original_timestamp is Some ==> self.is_modified
    }

    /// The event as first recorded.
    pub fn new(id: i64, user_id: i64, record_type: RecordType, timestamp: Timestamp) -> (record:
        AttendanceRecord)
        ensures
            record == (AttendanceRecord {
                id,
                user_id,
                record_type,
                timestamp,
                is_modified: false,
                original_timestamp: None,
                created_at: timestamp,
                updated_at: timestamp,
            }),
            record.wf(),
    {
        AttendanceRecord {
            id,
            user_id,
            record_type,
            timestamp,
            is_modified: false,
            original_timestamp: None,
            created_at: timestamp,
            updated_at: timestamp,
        }
    }

    /// The event after an edit of its instant at the instant `now`. The event
    /// is marked as modified. The first edit keeps the instant that it
    /// replaces; later edits leave what the first one kept.
    pub open spec fn edited(self, new_timestamp: Timestamp, now: Timestamp) -> AttendanceRecord {
        AttendanceRecord {
            timestamp: new_timestamp,
            is_modified: true,
            original_timestamp: if self.is_modified {
                self.original_timestamp
            } else {
                Some(self.timestamp)
            },
            updated_at: now,
            ..self
        }
    }

    /// Edits the instant of the event at the instant `now`.
    pub fn with_edited_time(&self, new_timestamp: Timestamp, now: Timestamp) -> (record:
        AttendanceRecord)
        ensures
            record == self.edited(new_timestamp, now),
            record.wf(),
    {
        let original_timestamp = if self.is_modified {
            self.original_timestamp
        } else {
            Some(self.timestamp)
        };
        AttendanceRecord {
            id: self.id,
            user_id: self.user_id,
            record_type: self.record_type,
            timestamp: new_timestamp,
            is_modified: true,
            original_timestamp,
            created_at: self.created_at,
            updated_at: now,
        }
    }
}

/// A stretch of work: from a clock-in to the clock-out that closes it, or
/// still open.
#[derive(Clone, Copy, Debug, PartialEq, Eq, Structural)]
pub struct WorkSession {
    pub id: i64,
    pub user_id: i64,
    pub start_time: Timestamp,
    pub end_time: Option<Timestamp>,
    /// Whole minutes from start to end.
    pub total_minutes: Option<i32>,
    /// The calendar day under which the session is filed.
    pub date: CalendarDay,
    pub is_completed: bool,
    pub created_at: Timestamp,
    pub updated_at: Timestamp,
}

impl WorkSession {
    /// A session is completed exactly when it has an end, and then its
    /// minutes are those from its start to its end.
    pub open spec fn wf(self) -> bool {
        &&& self.is_completed <==> self.end_time is Some
        &&& self.total_minutes is Some <==> self.end_time is Some
        &&& self.end_time matches Some(end) ==> self.total_minutes == Some(
            whole_minutes_between(self.start_time, end) as i32,
        )
    }

    /// The session as stored under `id` for the user on the day `date`, at
    /// the instant `stored_at`.
    pub fn from_session(
        id: i64,
        user_id: i64,
        session: SessionData,
        date: CalendarDay,
        stored_at: Timestamp,
    ) -> (stored: WorkSession)
        ensures
            stored == (WorkSession {
                id,
                user_id,
                start_time: session.start_time,
                end_time: session.end_time,
                total_minutes: session.total_minutes,
                date,
                is_completed: session.is_completed,
                created_at: stored_at,
                updated_at: stored_at,
            }),
            session.wf() ==> stored.wf(),
    {
        WorkSession {
            id,
            user_id,
            start_time: session.start_time,
            end_time: session.end_time,
            total_minutes: session.total_minutes,
            date,
            is_completed: session.is_completed,
            created_at: stored_at,
            updated_at: stored_at,
        }
    }
}

} // verus!
