//! What the commands and interactions of the chat bot decide, apart from
//! the talking to the chat platform and to the store.

pub mod commands;
pub mod interactions;
