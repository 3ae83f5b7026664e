//! The resolved, immutable configuration a scan runs under.

use vstd::prelude::*;
use crate::constants::{MAX_DAYS_MICRO, MIN_DAYS_MICRO};

verus! {

/// A fully resolved scan configuration, built once (normally through
/// [`crate::syncwalk::SyncSearch`] or [`crate::asyncwalk::AsyncSearch`])
/// and read-only for the duration of a scan.
///
/// The caller resolves everything before the scan starts: the root is
/// assumed to exist, the threshold lies in its admissible range (see
/// [`ScanConfig::wf`]), and platform support for creation timestamps has
/// been folded into [`ScanConfig::create_supported`].  The engine never
/// re-validates these.
pub struct ScanConfig {
    /// The root path of the scan, as the first component of every
    /// reported path.
    pub start_dir: String,
    /// The age threshold, in millionths of a day.
    pub days_micro: u64,
    /// Evaluate the access-time predicate.
    pub access: bool,
    /// Evaluate the creation-time predicate (where the platform supports it).
    pub create: bool,
    /// Evaluate the modification-time predicate.
    pub modify: bool,
    /// Exclude files whose base name starts with `'.'`.
    pub ignore_hidden: bool,
    /// Base names pruned from traversal (directories) or excluded from
    /// evaluation (files).  Matched by exact, case-sensitive equality.
    pub skip: Vec<String>,
    /// Whether the platform exposes file-creation metadata.  Where it
    /// does not, the creation-time predicate is disabled regardless of
    /// [`ScanConfig::create`] and never contributes a match or an error.
    pub create_supported: bool,
    /// Worker-count override for a parallel traversal; `None` means the
    /// platform default.  The engine itself does not schedule workers.
    pub threads: Option<u8>,
}

impl ScanConfig {
    /// The precondition every scan runs under: the threshold is positive
    /// and small enough for the window computation to stay in `u64`.
    pub open spec fn wf(&self) -> bool {
        MIN_DAYS_MICRO <= self.days_micro <= MAX_DAYS_MICRO
    }

    /// Whether the creation-time predicate is effectively enabled.
    pub open spec fn create_enabled(&self) -> bool {
        self.create && self.create_supported
    }

    /// Whether any predicate is requested at all.  A scan with none
    /// requested reports nothing rather than failing.
    pub open spec fn any_criteria(&self) -> bool {
        self.access || self.create || self.modify
    }
}

} // verus!
