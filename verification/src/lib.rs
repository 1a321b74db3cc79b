//! Attendance tracking core: clock events, the rules that admit them, and the
//! work sessions derived from them.
//!
//! Every day is a calendar day at a fixed offset from UTC (Japan Standard
//! Time, UTC+9, in the named helpers). A user's events of one such day are
//! the unit that is validated and from which the sessions are rebuilt.

pub mod bot;
pub mod config;
pub mod database;
pub mod utils;
