//! Work sessions rebuilt from the clock events of a user's day, and the
//! steps by which the stored sessions of the day are replaced.
//!
//! Sessions are derived data. Whenever the events of a day change, the
//! sessions of that day are deleted and built again from all its events.

use crate::database::models::{AttendanceRecord, RecordType};
use crate::utils::chronology::in_time_order;
use crate::utils::record_validator::{alternates, entries_of, expected_kind};
use crate::utils::time::{
    calculate_work_duration,
    lemma_minutes_of_ordered,
    whole_minutes_between,
    CalendarDay,
    Timestamp,
    JST_OFFSET_SECS,
};
use vstd::prelude::*;

verus! {

/// A session as rebuilt from the events, before it is stored.
#[derive(Clone, Copy, Debug, PartialEq, Eq, Structural)]
pub struct SessionData {
    pub start_time: Timestamp,
    pub end_time: Option<Timestamp>,
    /// Whole minutes from start to end, cut to 32 bits.
    pub total_minutes: Option<i32>,
    pub is_completed: bool,
}

impl SessionData {
    /// A session is completed exactly when it has an end, and then its
    /// minutes are those from its start to its end.
    pub open spec fn wf(self) -> bool {
        &&& self.is_completed <==> self.end_time is Some
        &&& self.total_minutes is Some <==> self.end_time is Some
        &&& self.end_time matches Some(end) ==> self.total_minutes == Some(
            whole_minutes_between(self.start_time, end) as i32,
        )
    }

    /// The session from a clock-in at `start` to the clock-out at `end`.
    pub open spec fn closed(start: Timestamp, end: Timestamp) -> SessionData {
        SessionData {
            start_time: start,
            end_time: Some(end),
            total_minutes: Some(whole_minutes_between(start, end) as i32),
            is_completed: true,
        }
    }

    /// The session of a clock-in at `start` that no clock-out has closed.
    pub open spec fn open(start: Timestamp) -> SessionData {
        SessionData { start_time: start, end_time: None, total_minutes: None, is_completed: false }
    }
}

/// What is wrong with an event that the reconstruction passes over.
#[derive(Clone, Copy, Debug, PartialEq, Eq, Structural)]
pub enum AnomalyKind {
    /// A clock-in while the clock-in before it is still open. The earlier
    /// one gives no session.
    DuplicateStart,
    /// A clock-out with no open clock-in before it. It gives no session.
    OrphanEnd,
}

/// An event that the reconstruction passes over, for the operators to see.
#[derive(Clone, Copy, Debug, PartialEq, Eq, Structural)]
pub struct Anomaly {
    pub kind: AnomalyKind,
    pub user_id: i64,
    pub record_id: i64,
}

/// The completed sessions of a day: one for each clock-out that comes right
/// after a clock-in, from that clock-in to that clock-out.
pub open spec fn completed_sessions(records: Seq<AttendanceRecord>) -> Seq<SessionData>
    decreases records.len(),
{
    if records.len() < 2 {
        Seq::empty()
    } else {
        let earlier = completed_sessions(records.drop_last());
        let start = records[records.len() - 2];
        let end = records[records.len() - 1];
        if start.record_type == RecordType::Start && end.record_type == RecordType::End {
            earlier.push(SessionData::closed(start.timestamp, end.timestamp))
        } else {
            earlier
        }
    }
}

/// The clock-in that is open at the end of the day: that of the last event,
/// where it is a clock-in.
pub open spec fn open_start(records: Seq<AttendanceRecord>) -> Option<Timestamp> {
    if records.len() > 0 && records.last().record_type == RecordType::Start {
        Some(records.last().timestamp)
    } else {
        None
    }
}

/// The sessions of a day: the completed ones in the order of their events,
/// then the open one, if a clock-in is open at the end.
pub open spec fn sessions_of(records: Seq<AttendanceRecord>) -> Seq<SessionData> {
    match open_start(records) {
        Some(start) => completed_sessions(records).push(SessionData::open(start)),
        None => completed_sessions(records),
    }
}

/// Whether the event at `index` is passed over, and why.
pub open spec fn anomaly_at(records: Seq<AttendanceRecord>, index: int) -> Option<Anomaly> {
    let record = records[index];
    let after_start = index > 0 && records[index - 1].record_type == RecordType::Start;
    match record.record_type {
        RecordType::Start => if after_start {
            Some(
                Anomaly {
                    kind: AnomalyKind::DuplicateStart,
                    user_id: record.user_id,
                    record_id: record.id,
                },
            )
        } else {
            None
        },
        RecordType::End => if after_start {
            None
        } else {
            Some(
                Anomaly { kind: AnomalyKind::OrphanEnd, user_id: record.user_id, record_id: record.id },
            )
        },
    }
}

/// The anomalies of a day, in the order of their events.
pub open spec fn anomalies_of(records: Seq<AttendanceRecord>) -> Seq<Anomaly>
    decreases records.len(),
{
    if records.len() == 0 {
        Seq::empty()
    } else {
        let earlier = anomalies_of(records.drop_last());
        match anomaly_at(records, records.len() - 1) {
            Some(anomaly) => earlier.push(anomaly),
            None => earlier,
        }
    }
}

/// Rebuilds the sessions of a day from its events in chronological order.
///
/// A clock-out right after a clock-in completes a session. A clock-in while
/// another is open replaces it, and a clock-out with no clock-in open is
/// passed over. A clock-in that is open at the end gives the one open
/// session, the last of the day. Every list of events gives a result.
pub fn build_sessions_from_records(records: &[AttendanceRecord]) -> (sessions: Vec<SessionData>)
    ensures
        sessions@ == sessions_of(records@),
        forall|i: int| 0 <= i < sessions.len() ==> (#[trigger] sessions[i]).wf(),
        forall|i: int| 0 <= i < sessions.len() - 1 ==> (#[trigger] sessions[i]).is_completed,
{
    let mut sessions: Vec<SessionData> = Vec::new();
    let mut current_start: Option<Timestamp> = None;
    let mut i: usize = 0;
    while i < records.len()
        invariant
            i <= records.len(),
            sessions@ == completed_sessions(records@.subrange(0, i as int)),
            current_start == open_start(records@.subrange(0, i as int)),
            forall|k: int|
                0 <= k < sessions.len() ==> (#[trigger] sessions[k]).wf() && sessions[k].is_completed,
        decreases records.len() - i,
    {
        let record = &records[i];
        proof {
            let before = records@.subrange(0, i as int);
            let upto = records@.subrange(0, i as int + 1);
            assert(upto.drop_last() =~= before);
            assert(upto.last() == *record);
            if i > 0 {
                assert(before.last() == records@[i as int - 1]);
                assert(upto[upto.len() - 2] == records@[i as int - 1]);
            }
        }
        match record.record_type {
            RecordType::Start => {
                current_start = Some(record.timestamp);
            },
            RecordType::End => {
                match current_start {
                    Some(start_time) => {
                        let total_minutes = calculate_work_duration(start_time, record.timestamp);
                        sessions.push(
                            SessionData {
                                start_time,
                                end_time: Some(record.timestamp),
                                total_minutes: Some(total_minutes),
                                is_completed: true,
                            },
                        );
                    },
                    None => {},
                }
                current_start = None;
            },
        }
        i = i + 1;
    }
    assert(records@.subrange(0, i as int) =~= records@);
    match current_start {
        Some(start_time) => {
            sessions.push(
                SessionData {
                    start_time,
                    end_time: None,
                    total_minutes: None,
                    is_completed: false,
                },
            );
        },
        None => {},
    }
    sessions
}

/// Lists the events of a day that the reconstruction passes over: each is
/// for a warning to the operators, none is an error.
pub fn find_anomalies(records: &[AttendanceRecord]) -> (anomalies: Vec<Anomaly>)
    ensures
        anomalies@ == anomalies_of(records@),
{
    let mut anomalies: Vec<Anomaly> = Vec::new();
    let mut start_open: bool = false;
    let mut i: usize = 0;
    while i < records.len()
        invariant
            i <= records.len(),
            anomalies@ == anomalies_of(records@.subrange(0, i as int)),
            start_open == (i > 0 && records@[i as int - 1].record_type == RecordType::Start),
        decreases records.len() - i,
    {
        let record = &records[i];
        proof {
            let upto = records@.subrange(0, i as int + 1);
            assert(upto.drop_last() =~= records@.subrange(0, i as int));
            assert(upto[i as int] == *record);
            if i > 0 {
                assert(upto[i as int - 1] == records@[i as int - 1]);
            }
            assert(anomaly_at(upto, i as int) == anomaly_at(records@, i as int));
        }
        match record.record_type {
            RecordType::Start => {
                if start_open {
                    anomalies.push(
                        Anomaly {
                            kind: AnomalyKind::DuplicateStart,
                            user_id: record.user_id,
                            record_id: record.id,
                        },
                    );
                }
                start_open = true;
            },
            RecordType::End => {
                if !start_open {
                    anomalies.push(
                        Anomaly {
                            kind: AnomalyKind::OrphanEnd,
                            user_id: record.user_id,
                            record_id: record.id,
                        },
                    );
                }
                start_open = false;
            },
        }
        i = i + 1;
    }
    assert(records@.subrange(0, i as int) =~= records@);
    anomalies
}


/// Every completed session spans two neighbouring events: a clock-in and the
/// clock-out right after it.
pub proof fn lemma_completed_from_neighbours(records: Seq<AttendanceRecord>, k: int)
    requires
        0 <= k < completed_sessions(records).len(),
    ensures
        exists|i: int|
            1 <= i < records.len() && records[i - 1].record_type == RecordType::Start
                && records[i].record_type == RecordType::End && completed_sessions(records)[k]
                == #[trigger] SessionData::closed(records[i - 1].timestamp, records[i].timestamp),
    decreases records.len(),
{
    if records.len() >= 2 {
        let front = records.drop_last();
        let earlier = completed_sessions(front);
        if k < earlier.len() {
            lemma_completed_from_neighbours(front, k);
            let i = choose|i: int|
                1 <= i < front.len() && front[i - 1].record_type == RecordType::Start
                    && front[i].record_type == RecordType::End && earlier[k]
                    == #[trigger] SessionData::closed(front[i - 1].timestamp, front[i].timestamp);
            assert(front[i - 1] == records[i - 1] && front[i] == records[i]);
            assert(completed_sessions(records)[k] == SessionData::closed(
                records[i - 1].timestamp,
                records[i].timestamp,
            ));
        } else {
            let i = records.len() - 1;
            assert(completed_sessions(records)[k] == SessionData::closed(
                records[i - 1].timestamp,
                records[i].timestamp,
            ));
        }
    }
}

/// Of the sessions of a day only the last can be open: all others are
/// completed, and each session is well formed.
pub proof fn lemma_only_last_session_open(records: Seq<AttendanceRecord>)
    ensures
        forall|k: int|
            0 <= k < completed_sessions(records).len() ==> (#[trigger] completed_sessions(
                records,
            )[k]).is_completed,
        forall|k: int|
            0 <= k < sessions_of(records).len() - 1 ==> (#[trigger] sessions_of(
                records,
            )[k]).is_completed,
        forall|k: int| 0 <= k < sessions_of(records).len() ==> (#[trigger] sessions_of(records)[k]).wf(),
{
    assert forall|k: int| 0 <= k < completed_sessions(records).len() implies (
    #[trigger] completed_sessions(records)[k]).is_completed && completed_sessions(records)[k].wf() by {
        lemma_completed_from_neighbours(records, k);
    }
    assert forall|k: int| 0 <= k < sessions_of(records).len() implies (#[trigger] sessions_of(
        records,
    )[k]).wf() by {
        if k < completed_sessions(records).len() {
            assert(sessions_of(records)[k] == completed_sessions(records)[k]);
        }
    }
    assert forall|k: int| 0 <= k < sessions_of(records).len() - 1 implies (#[trigger] sessions_of(
        records,
    )[k]).is_completed by {
        assert(sessions_of(records)[k] == completed_sessions(records)[k]);
    }
}

/// A day that alternates between clocking in and clocking out, starting with
/// clocking in, gives one completed session for each pair of events, from
/// the clock-in to the clock-out of the pair, and nothing else but, where
/// the number of events is odd, the open session of the last clock-in.
pub proof fn lemma_sessions_of_alternating_day(records: Seq<AttendanceRecord>)
    requires
        alternates(entries_of(records)),
    ensures
        completed_sessions(records).len() == records.len() / 2,
        forall|k: int|
            0 <= k < records.len() / 2 ==> #[trigger] completed_sessions(records)[k]
                == SessionData::closed(records[2 * k].timestamp, records[2 * k + 1].timestamp),
        records.len() % 2 == 0 ==> sessions_of(records) == completed_sessions(records),
        records.len() % 2 == 1 ==> sessions_of(records) == completed_sessions(records).push(
            SessionData::open(records.last().timestamp),
        ),
        sessions_of(records).len() == (records.len() + 1) / 2,
        forall|k: int|
            0 <= k < records.len() / 2 ==> (#[trigger] sessions_of(records)[k]).is_completed,
        records.len() % 2 == 1 ==> !sessions_of(records).last().is_completed,
    decreases records.len(),
{
    let n = records.len() as int;
    let entries = entries_of(records);
    if n >= 1 {
        assert(entries[n - 1].record_type == expected_kind(n - 1));
        assert(records.last() == records[n - 1]);
    }
    if n >= 2 {
        let front = records.drop_last();
        let front_entries = entries_of(front);
        assert forall|i: int| 0 <= i < front_entries.len() implies (#[trigger] front_entries[i]).record_type
            == expected_kind(i) by {
            assert(front_entries[i] == entries[i]);
        }
        lemma_sessions_of_alternating_day(front);
        assert(entries[n - 2].record_type == expected_kind(n - 2));
        let earlier = completed_sessions(front);
        assert forall|k: int| 0 <= k < n / 2 implies #[trigger] completed_sessions(records)[k]
            == SessionData::closed(records[2 * k].timestamp, records[2 * k + 1].timestamp) by {
            if k < earlier.len() {
                assert(completed_sessions(records)[k] == earlier[k]);
                assert(front[2 * k] == records[2 * k] && front[2 * k + 1] == records[2 * k + 1]);
            }
        }
    }
}

/// In a day whose events are in chronological order, a completed session
/// does not end before it starts: its minutes are not negative, and they are
/// the whole minutes from its start to its end wherever those fit 32 bits.
pub proof fn lemma_completed_session_minutes(records: Seq<AttendanceRecord>, k: int)
    requires
        in_time_order(records),
        0 <= k < sessions_of(records).len(),
        sessions_of(records)[k].is_completed,
    ensures
        sessions_of(records)[k].end_time is Some,
        sessions_of(records)[k].start_time.not_after(sessions_of(records)[k].end_time->0),
        whole_minutes_between(
            sessions_of(records)[k].start_time,
            sessions_of(records)[k].end_time->0,
        ) >= 0,
        whole_minutes_between(
            sessions_of(records)[k].start_time,
            sessions_of(records)[k].end_time->0,
        ) <= i32::MAX ==> sessions_of(records)[k].total_minutes->0 == whole_minutes_between(
            sessions_of(records)[k].start_time,
            sessions_of(records)[k].end_time->0,
        ),
{
    let session = sessions_of(records)[k];
    assert(k < completed_sessions(records).len());
    assert(session == completed_sessions(records)[k]);
    lemma_completed_from_neighbours(records, k);
    let i = choose|i: int|
        1 <= i < records.len() && records[i - 1].record_type == RecordType::Start
            && records[i].record_type == RecordType::End && completed_sessions(records)[k]
            == #[trigger] SessionData::closed(records[i - 1].timestamp, records[i].timestamp);
    assert(!records[i].timestamp.before(records[i - 1].timestamp));
    lemma_minutes_of_ordered(records[i - 1].timestamp, records[i].timestamp);
}


/// How far the replacement of a day's sessions has come.
#[derive(Clone, Copy, Debug, PartialEq, Eq, Structural)]
pub enum RecalcState {
    /// Nothing was asked of the store yet.
    Idle,
    /// The store was asked to delete the sessions of the day.
    Deleting,
    /// The store was asked for the events of the day.
    Fetching,
    /// The store was asked to insert a session.
    Inserting,
    /// All sessions are in place and the work was committed.
    Done,
    /// The store failed or answered out of turn, and the work was rolled back.
    Failed,
}

/// What the store reports back.
#[derive(Clone, Debug)]
pub enum RecalcEvent {
    /// The sessions of the day are deleted.
    SessionsDeleted,
    /// The events of the day, in chronological order.
    RecordsFetched(Vec<AttendanceRecord>),
    /// The session last handed over is inserted.
    SessionInserted,
    /// The last request failed.
    StoreFailed,
}

/// What is asked of the store next. The requests from the first to `Commit`
/// or `Rollback` form one unit of work: the store makes all of it visible or
/// none, and keeps other recalculations of the same user and day out
/// meanwhile.
#[derive(Clone, Copy, Debug, PartialEq, Eq, Structural)]
pub enum RecalcAction {
    /// Delete the stored sessions of the user and day.
    DeleteSessions,
    /// Fetch the events of the user and day in chronological order.
    FetchRecords,
    /// Insert this session for the user and day.
    InsertSession(SessionData),
    /// Make the unit of work visible.
    Commit,
    /// Undo the unit of work: the sessions that were stored before stay.
    Rollback,
    /// Nothing: the recalculation has ended.
    Nothing,
}

/// The recalculation of the sessions of one user and day.
pub struct SessionManager {
    pub user_id: i64,
    pub date: CalendarDay,
    pub state: RecalcState,
    /// The rebuilt sessions, once the events are fetched.
    pub sessions: Vec<SessionData>,
    /// How many of the sessions were handed to the store.
    pub handed_over: usize,
}

/// The events that an event of the store carries.
pub open spec fn fetched_records(event: RecalcEvent) -> Seq<AttendanceRecord> {
    match event {
        RecalcEvent::RecordsFetched(records) => records@,
        _ => Seq::empty(),
    }
}

/// The request that hands over the next of `sessions` after `handed_over`
/// of them, or the commit after the last.
pub open spec fn next_request(sessions: Seq<SessionData>, handed_over: int) -> RecalcAction {
    if 0 <= handed_over < sessions.len() {
        RecalcAction::InsertSession(sessions[handed_over])
    } else {
        RecalcAction::Commit
    }
}

/// The state after `next_request`.
pub open spec fn next_state(sessions: Seq<SessionData>, handed_over: int) -> RecalcState {
    if 0 <= handed_over < sessions.len() {
        RecalcState::Inserting
    } else {
        RecalcState::Done
    }
}

impl SessionManager {
    /// Between steps the sessions handed over are among the rebuilt ones.
    pub open spec fn wf(self) -> bool {
        &&& self.handed_over <= self.sessions@.len()
        &&& self.state == RecalcState::Inserting ==> self.handed_over >= 1
    }

    /// A recalculation for the user and day, with nothing asked yet.
    pub fn new(user_id: i64, date: CalendarDay) -> (manager: SessionManager)
        ensures
            manager.user_id == user_id,
            manager.date == date,
            manager.state == RecalcState::Idle,
            manager.sessions@.len() == 0,
            manager.handed_over == 0,
            manager.wf(),
    {
        SessionManager {
            user_id,
            date,
            state: RecalcState::Idle,
            sessions: Vec::new(),
            handed_over: 0,
        }
    }

    /// Starts the recalculation, after an event of the user and day was
    /// created, edited or deleted: the first request is to delete the stored
    /// sessions. A recalculation that is under way is rolled back; one that
    /// has ended stays as it is.
    pub fn trigger_recalculation(&mut self) -> (action: RecalcAction)
        requires
            old(self).wf(),
        ensures
            final(self).wf(),
            final(self).user_id == old(self).user_id,
            final(self).date == old(self).date,
            final(self).sessions@ == old(self).sessions@,
            final(self).handed_over == old(self).handed_over,
            match old(self).state {
                RecalcState::Idle => {
                    &&& action == RecalcAction::DeleteSessions
                    &&& final(self).state == RecalcState::Deleting
                },
                RecalcState::Done | RecalcState::Failed => {
                    &&& action == RecalcAction::Nothing
                    &&& final(self).state == old(self).state
                },
                _ => {
                    &&& action == RecalcAction::Rollback
                    &&& final(self).state == RecalcState::Failed
                },
            },
    {
        match self.state {
            RecalcState::Idle => {
                self.state = RecalcState::Deleting;
                RecalcAction::DeleteSessions
            },
            RecalcState::Done | RecalcState::Failed => RecalcAction::Nothing,
            _ => {
                self.state = RecalcState::Failed;
                RecalcAction::Rollback
            },
        }
    }

    /// Takes the store's answer to the last request and gives the next one.
    ///
    /// After the deletion the events are fetched; from the events the
    /// sessions are rebuilt and handed over one by one in their order; after
    /// the last the work is committed. A failure, or an answer that does not
    /// fit the last request, rolls the work back. Once ended, nothing more is
    /// asked.
    pub fn recalculate_sessions(&mut self, event: RecalcEvent) -> (action: RecalcAction)
        requires
            old(self).wf(),
        ensures
            final(self).wf(),
            final(self).user_id == old(self).user_id,
            final(self).date == old(self).date,
            action == RecalcAction::Commit ==> final(self).state == RecalcState::Done,
            action == RecalcAction::Commit ==> final(self).handed_over == final(self).sessions@.len(),
            match (old(self).state, event) {
                (RecalcState::Done, _) | (RecalcState::Failed, _) => {
                    &&& action == RecalcAction::Nothing
                    &&& final(self).state == old(self).state
                    &&& final(self).sessions@ == old(self).sessions@
                    &&& final(self).handed_over == old(self).handed_over
                },
                (RecalcState::Deleting, RecalcEvent::SessionsDeleted) => {
                    &&& action == RecalcAction::FetchRecords
                    &&& final(self).state == RecalcState::Fetching
                    &&& final(self).sessions@ == old(self).sessions@
                    &&& final(self).handed_over == old(self).handed_over
                },
                (RecalcState::Fetching, RecalcEvent::RecordsFetched(records)) => {
                    &&& final(self).sessions@ == sessions_of(records@)
                    &&& action == next_request(sessions_of(records@), 0)
                    &&& final(self).state == next_state(sessions_of(records@), 0)
                    &&& final(self).handed_over == if sessions_of(records@).len() > 0 {
                        1int
                    } else {
                        0int
                    }
                },
                (RecalcState::Inserting, RecalcEvent::SessionInserted) => {
                    &&& final(self).sessions@ == old(self).sessions@
                    &&& action == next_request(old(self).sessions@, old(self).handed_over as int)
                    &&& final(self).state == next_state(
                        old(self).sessions@,
                        old(self).handed_over as int,
                    )
                    &&& final(self).handed_over == if old(self).handed_over < old(
                        self,
                    ).sessions@.len() {
                        old(self).handed_over + 1
                    } else {
                        old(self).handed_over as int
                    }
                },
                _ => {
                    &&& action == RecalcAction::Rollback
                    &&& final(self).state == RecalcState::Failed
                    &&& final(self).sessions@ == old(self).sessions@
                    &&& final(self).handed_over == old(self).handed_over
                },
            },
    {
        match self.state {
            RecalcState::Done | RecalcState::Failed => {
                return RecalcAction::Nothing;
            },
            _ => {},
        }
        match event {
            RecalcEvent::SessionsDeleted => {
                if self.state == RecalcState::Deleting {
                    self.state = RecalcState::Fetching;
                    return RecalcAction::FetchRecords;
                }
            },
            RecalcEvent::RecordsFetched(records) => {
                if self.state == RecalcState::Fetching {
                    self.sessions = build_sessions_from_records(records.as_slice());
                    self.handed_over = 0;
                    return self.hand_over_next();
                }
            },
            RecalcEvent::SessionInserted => {
                if self.state == RecalcState::Inserting {
                    return self.hand_over_next();
                }
            },
            RecalcEvent::StoreFailed => {},
        }
        self.state = RecalcState::Failed;
        RecalcAction::Rollback
    }

    /// Hands over the next session, or commits after the last.
    fn hand_over_next(&mut self) -> (action: RecalcAction)
        requires
            old(self).handed_over <= old(self).sessions@.len(),
        ensures
            final(self).user_id == old(self).user_id,
            final(self).date == old(self).date,
            final(self).sessions@ == old(self).sessions@,
            action == next_request(old(self).sessions@, old(self).handed_over as int),
            final(self).state == next_state(old(self).sessions@, old(self).handed_over as int),
            final(self).handed_over == if old(self).handed_over < old(self).sessions@.len() {
                old(self).handed_over + 1
            } else {
                old(self).handed_over as int
            },
            final(self).wf(),
    {
        if self.handed_over < self.sessions.len() {
            let session = self.sessions[self.handed_over];
            self.handed_over = self.handed_over + 1;
            self.state = RecalcState::Inserting;
            RecalcAction::InsertSession(session)
        } else {
            self.state = RecalcState::Done;
            RecalcAction::Commit
        }
    }
}

/// The calendar days in Japan whose sessions an edit of an event's instant
/// affects: the day of the new instant, and the day of the old one where
/// that is another day.
pub fn days_affected_by_edit(old_timestamp: Timestamp, new_timestamp: Timestamp) -> (days: (
    CalendarDay,
    Option<CalendarDay>,
))
    requires
        old_timestamp.has_day_at(JST_OFFSET_SECS as int),
        new_timestamp.has_day_at(JST_OFFSET_SECS as int),
    ensures
        days.0.days == new_timestamp.day_at(JST_OFFSET_SECS as int),
        days.1 is Some <==> old_timestamp.day_at(JST_OFFSET_SECS as int) != new_timestamp.day_at(
            JST_OFFSET_SECS as int,
        ),
        days.1 matches Some(day) ==> day.days == old_timestamp.day_at(JST_OFFSET_SECS as int),
{
    let new_day = new_timestamp.day_of(JST_OFFSET_SECS);
    let old_day = old_timestamp.day_of(JST_OFFSET_SECS);
    if old_day.days != new_day.days {
        (new_day, Some(old_day))
    } else {
        (new_day, None)
    }
}

} // verus!
