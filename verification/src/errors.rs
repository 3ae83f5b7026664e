//! Per-entry failures raised while scanning.
//!
//! An error never halts a scan: it is rendered as one line and routed to
//! the error output, while traversal continues with the next entry.

use vstd::prelude::*;

verus! {

/// A tagged per-entry failure with a human-readable cause.
///
/// The variants mirror the places a scan can fail: reading a file's
/// metadata, computing elapsed time against a clock that is behind the
/// timestamp, and the two traversal front ends.  The surrounding program
/// converts the concrete failures it meets into these variants; the
/// engine only carries and renders them.
#[derive(Debug)]
pub enum AmbleError {
    IoError(String),
    SystemTimeError(String),
    WalkDirError(String),
    IgnoreError(String),
    UnexpectedResult(String),
}

impl AmbleError {
    /// The one-line rendering of this error: its tag, a colon, and the cause.
    pub open spec fn message_spec(&self) -> Seq<char> {
        match self {
            AmbleError::IoError(s) => "IoError: "@ + s@,
            AmbleError::SystemTimeError(s) => "SystemTimeError: "@ + s@,
            AmbleError::WalkDirError(s) => "WalkDir: "@ + s@,
            AmbleError::IgnoreError(s) => "IgnoreError: "@ + s@,
            AmbleError::UnexpectedResult(s) => "UnexpectedResult: "@ + s@,
        }
    }

    /// Render the error as the single line sent to the error output.
    pub fn message(&self) -> (r: String)
        ensures
            r@ == self.message_spec(),
    {
        match self {
            AmbleError::IoError(s) => String::from_str("IoError: ").concat(s.as_str()),
            AmbleError::SystemTimeError(s) => String::from_str("SystemTimeError: ").concat(
                s.as_str(),
            ),
            AmbleError::WalkDirError(s) => String::from_str("WalkDir: ").concat(s.as_str()),
            AmbleError::IgnoreError(s) => String::from_str("IgnoreError: ").concat(s.as_str()),
            AmbleError::UnexpectedResult(s) => String::from_str("UnexpectedResult: ").concat(
                s.as_str(),
            ),
        }
    }
}

impl Clone for AmbleError {
    /// A clone carries the same tag and the same cause.
    fn clone(&self) -> (r: Self)
        ensures
            r == *self,
    {
        match self {
            AmbleError::IoError(s) => AmbleError::IoError(s.clone()),
            AmbleError::SystemTimeError(s) => AmbleError::SystemTimeError(s.clone()),
            AmbleError::WalkDirError(s) => AmbleError::WalkDirError(s.clone()),
            AmbleError::IgnoreError(s) => AmbleError::IgnoreError(s.clone()),
            AmbleError::UnexpectedResult(s) => AmbleError::UnexpectedResult(s.clone()),
        }
    }
}

} // verus!
