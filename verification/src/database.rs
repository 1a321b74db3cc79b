//! The records that the store keeps.

pub mod models;
