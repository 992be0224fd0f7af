//! Command-to-message translation for a task-scheduler client.
//!
//! Given one fully parsed user command, produce exactly one well-formed
//! protocol message for the daemon, or fail with a typed, local error
//! before any I/O happens. The surrounding program supplies the one
//! environmental fact translation depends on (the current working
//! directory) and owns parsing, transport and serialization.

pub mod command;
pub mod environment;
pub mod message;
pub mod translate;
