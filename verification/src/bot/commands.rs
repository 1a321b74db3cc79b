//! The decisions of the slash commands.

pub mod attendance;
pub mod reports;
