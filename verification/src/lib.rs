//! Structured access logging for a remote-access server.
//!
//! The library models the pure core of the logging facility: the typed
//! access events, the fixed one-line text rendering of each event with a
//! second-precision timestamp, the daily-rotating log file path, and the
//! decision rule that turns a write outcome into at most one diagnostic
//! message. File I/O, the environment lookup of the base directory and
//! the diagnostic channel itself sit outside the library, which hands
//! them plain strings.

pub mod content;
pub mod event;
pub mod outcome;
pub mod path;
pub mod render;
pub mod time;
