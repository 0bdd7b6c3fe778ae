//! Verified core of `met`, an exporter for Matrix rooms.
//!
//! The library holds the decisions and data layout of the exporter: where files
//! go, how timeline events are sorted and formatted, how the export cache is kept,
//! how the media rate limit counts, and the state machines of the user interface.
//! The network client, the file system and the window toolkit stay outside.
pub mod cli;
pub mod ui;
pub mod utils;
