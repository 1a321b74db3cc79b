//! Time handling, validation and session reconstruction.

pub mod calendar;
pub mod chronology;
pub mod text;
pub mod time;
pub mod record_validator;
pub mod session_manager;
pub mod format;
pub mod validation;
pub mod record_selector;
