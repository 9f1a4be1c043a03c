//! Classification of raw media-server log lines into structured events,
//! and their rendering as single-line JSON records.
//!
//! A line passes through three steps. Its severity prefix (`[ERR] `,
//! `[WARN] `) is read and removed ([`message::Message::extract_level`]). What
//! remains is matched against the conference grammar, `[CONFERENCE <object>] `,
//! and otherwise read as a core line that may start with `[<handle>]`
//! ([`message::Message::extract_source_with_tags`]). The message text that is
//! left is trimmed.
//!
//! Tag errors are strict: a tag object that is not valid JSON, a known tag
//! of the wrong kind, or a handle number too large for `usize` makes the
//! producer `Unknown`, with a diagnostic, and the message is everything after
//! the severity prefix.
//!
//! Times are split into whole seconds rounded toward negative infinity and
//! non-negative nanoseconds, so that every `i64` has a well-defined instant.

pub mod conference;
pub mod encode;
pub mod level;
pub mod message;
pub mod tags;
pub mod text;
pub mod timestamp;
