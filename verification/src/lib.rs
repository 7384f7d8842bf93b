//! Verified core of an autonomous agent: its state, its self-describing tools,
//! and the search over its memory notes.

pub mod json;
pub mod text;
pub mod timestamp;
pub mod store;
pub mod agenda;
pub mod goals;
pub mod config;
pub mod context;
pub mod memory_tools;
pub mod tools;
