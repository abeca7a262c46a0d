//! Encodes a log event as one line of compact JSON.
//!
//! The line holds a single object with the fields `time`, `message`,
//! `module_path`, `file`, `line`, `level`, `target`, `thread` and `mdc`, in
//! that order, followed by one newline.

pub mod encoder;
pub mod json;
pub mod mdc;
pub mod shape;
pub mod time;
