//! The data the API sends and receives, as passive records of plain values.
//!
//! Timestamps are carried as their ISO 8601 text and URLs as their text: the
//! library reads neither, it only passes them through.

use vstd::prelude::*;

pub mod misc;
pub mod project;
pub mod search;
pub mod tag;
pub mod user;
pub mod version;

verus! {

/// An ISO 8601 UTC datetime, carried as its text.
pub type UtcTime = String;

/// An unsigned count.
pub type Int = usize;

/// A base 62 number stored as a string.
pub type ID = String;

} // verus!
