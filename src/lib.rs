//! Parsing of single timewarrior log lines into interval records.
//!
//! A line reads `<kind> <start> [ "#" <tags> | "-" <end> [ "#" <tags> ] ]`, with dates
//! in the form `YYYYMMDDTHHMMSSZ`. Tags are whitespace-separated words; double quotes
//! group words that contain spaces.

pub mod laws;
pub mod line;
pub mod text;
pub mod timestamp;

pub use line::{FailureKind, LineModel, TimeWarriorLine, TimeWarriorLineError};
pub use timestamp::{CalendarDate, UtcDateTime};
