//! Clocking in and out at the present instant.

use crate::database::models::{AttendanceRecord, RecordType};
use crate::utils::time::{
    calculate_work_duration,
    whole_minutes_between,
    Timestamp,
};
use vstd::prelude::*;

verus! {

/// What becomes of a request to clock in.
#[derive(Clone, Copy, Debug, PartialEq, Eq, Structural)]
pub enum StartDecision {
    /// The user is at work since the clock-in at `since`: nothing is recorded.
    AlreadyWorking { since: Timestamp },
    /// A clock-in at `timestamp` is to be recorded.
    Record { timestamp: Timestamp },
}

/// What becomes of a request to clock out.
#[derive(Clone, Copy, Debug, PartialEq, Eq, Structural)]
pub enum EndDecision {
    /// The user is not at work: nothing is recorded.
    NotWorking,
    /// A clock-out at `timestamp` is to be recorded. It closes the clock-in
    /// at `started`, after `minutes` whole minutes of work.
    Record { timestamp: Timestamp, started: Timestamp, minutes: i32 },
}

/// The clock-in that is open at the end of the day's events: that of the
/// last event, where it is a clock-in.
pub open spec fn open_clock_in(today_records: Seq<AttendanceRecord>) -> Option<Timestamp> {
    if today_records.len() > 0 && today_records.last().record_type == RecordType::Start {
        Some(today_records.last().timestamp)
    } else {
        None
    }
}

/// Decides on a request to clock in at the instant `now`, from the events
/// of the user's day in chronological order: it is refused while a
/// clock-in is open.
pub fn start(today_records: &[AttendanceRecord], now: Timestamp) -> (decision: StartDecision)
    ensures
        decision == match open_clock_in(today_records@) {
            Some(since) => StartDecision::AlreadyWorking { since },
            None => StartDecision::Record { timestamp: now },
        },
{
    let n = today_records.len();
    if n > 0 && today_records[n - 1].record_type == RecordType::Start {
        StartDecision::AlreadyWorking { since: today_records[n - 1].timestamp }
    } else {
        StartDecision::Record { timestamp: now }
    }
}

/// Decides on a request to clock out at the instant `now`, from the events
/// of the user's day in chronological order: it is refused unless a
/// clock-in is open.
pub fn end(today_records: &[AttendanceRecord], now: Timestamp) -> (decision: EndDecision)
    ensures
        decision == match open_clock_in(today_records@) {
            Some(started) => EndDecision::Record {
                timestamp: now,
                started,
                minutes: whole_minutes_between(started, now) as i32,
            },
            None => EndDecision::NotWorking,
        },
{
    let n = today_records.len();
    if n > 0 && today_records[n - 1].record_type == RecordType::Start {
        let started = today_records[n - 1].timestamp;
        EndDecision::Record {
            timestamp: now,
            started,
            minutes: calculate_work_duration(started, now),
        }
    } else {
        EndDecision::NotWorking
    }
}

} // verus!
