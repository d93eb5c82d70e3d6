//! What can go wrong inside the journal.

use vstd::prelude::*;

verus! {

/// The failures the journal itself detects. Failures of the file system
/// never reach this crate: whoever opens, reads and writes the file reports
/// them.
#[derive(Debug)]
pub enum JournalError {
    /// The file is not empty and is not one JSON array either.
    Syntax(serde_json::Error),
    /// The file is a JSON array, but its element at `index`, counted from
    /// zero, lacks a string under `"text"` or an integer under
    /// `"created_at"` that fits in 64 signed bits.
    NotAnEntry { index: usize },
    /// No entry has the ordinal `position`: it is zero or beyond the last
    /// entry.
    InvalidPosition { position: usize },
}

} // verus!
