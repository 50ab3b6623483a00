//! Decision logic for a command-line bridge to the native file/folder
//! picker dialog: flag parsing, dialog configuration, translation of a
//! dialog session's outcome into a result, and rendering of the one-line
//! structured report that callers consume.

pub mod args;
pub mod json;
pub mod laws;
pub mod outcome;
pub mod request;
pub mod utf16;
