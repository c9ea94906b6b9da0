//! A validating decoder for a date-keyed personal event log.
//!
//! The log is a structured-text document with a table of named highlights
//! (shape and colour) and a table of consecutive calendar days, each tagged
//! with its weekday and an optional highlight reference.  Decoding either
//! yields a fully checked [`log::Log`] or one structured [`error::ParseError`].

pub mod colour;
pub mod data;
pub mod date;
pub mod day;
pub mod error;
pub mod highlight;
pub mod laws;
pub mod log;
pub mod strutil;
pub mod tree;
