//! The sequential walker: a single-threaded, depth-first search that
//! emits matches in visitation order.
//!
//! This variant exists to offer a deterministic, reproducible ordering
//! for testing and for environments where thread overhead is not
//! justified.  Directory-level traversal errors are silently skipped at
//! the node level; per-file metadata errors are reported on the error
//! stream and never halt the walk.

use vstd::prelude::*;
use crate::config::ScanConfig;
use crate::constants::{MAX_DAYS_MICRO, MIN_DAYS_MICRO};
use crate::entry::Node;
use crate::errors::AmbleError;
use crate::traits::Finder;
use crate::walk::{run_scan, spec_scan_output, ScanOutput};

verus! {

/// A sequential search, assembled builder-style around one immutable
/// [`ScanConfig`].
///
/// Only the start directory must be supplied; every other option has a
/// default: a window of eight days, all three predicates requested,
/// hidden files ignored, an empty skip list, and creation-time support
/// off until the caller declares the platform exposes it.
pub struct SyncSearch {
    /// The resolved configuration the search runs under.
    pub config: ScanConfig,
}

impl SyncSearch {
    /// Start assembling a search rooted at `start_dir`.
    pub fn new(start_dir: String) -> (s: Self)
        ensures
            s.config.start_dir == start_dir,
            s.config.days_micro == 8_000_000u64,
            s.config.access,
            s.config.create,
            s.config.modify,
            s.config.ignore_hidden,
            s.config.skip@.len() == 0,
            !s.config.create_supported,
            s.config.threads is None,
            s.config.wf(),
    {
        SyncSearch {
            config: ScanConfig {
                start_dir,
                days_micro: 8_000_000,
                access: true,
                create: true,
                modify: true,
                ignore_hidden: true,
                skip: Vec::new(),
                create_supported: false,
                threads: None,
            },
        }
    }

    /// Reset the start directory for a search.
    pub fn start_dir(self, start_dir: String) -> (s: Self)
        ensures
            s.config == (ScanConfig { start_dir, ..self.config }),
    {
        SyncSearch { config: ScanConfig { start_dir, ..self.config } }
    }

    /// Set the age threshold, in millionths of a day.
    pub fn days(self, days_micro: u64) -> (s: Self)
        requires
            MIN_DAYS_MICRO <= days_micro <= MAX_DAYS_MICRO,
        ensures
            s.config == (ScanConfig { days_micro, ..self.config }),
    {
        SyncSearch { config: ScanConfig { days_micro, ..self.config } }
    }

    /// Set whether access time is of interest.
    pub fn access(self, access: bool) -> (s: Self)
        ensures
            s.config == (ScanConfig { access, ..self.config }),
    {
        SyncSearch { config: ScanConfig { access, ..self.config } }
    }

    /// Set whether creation time is of interest.
    pub fn create(self, create: bool) -> (s: Self)
        ensures
            s.config == (ScanConfig { create, ..self.config }),
    {
        SyncSearch { config: ScanConfig { create, ..self.config } }
    }

    /// Set whether modification time is of interest.
    pub fn modify(self, modify: bool) -> (s: Self)
        ensures
            s.config == (ScanConfig { modify, ..self.config }),
    {
        SyncSearch { config: ScanConfig { modify, ..self.config } }
    }

    /// Set whether hidden entries (base name starting with `'.'`) are
    /// excluded.
    pub fn ignore_hidden(self, ignore_hidden: bool) -> (s: Self)
        ensures
            s.config == (ScanConfig { ignore_hidden, ..self.config }),
    {
        SyncSearch { config: ScanConfig { ignore_hidden, ..self.config } }
    }

    /// Set the skip list.
    pub fn skip(self, skip: Vec<String>) -> (s: Self)
        ensures
            s.config == (ScanConfig { skip, ..self.config }),
    {
        SyncSearch { config: ScanConfig { skip, ..self.config } }
    }

    /// Declare whether the platform exposes file-creation metadata.
    pub fn create_supported(self, create_supported: bool) -> (s: Self)
        ensures
            s.config == (ScanConfig { create_supported, ..self.config }),
    {
        SyncSearch { config: ScanConfig { create_supported, ..self.config } }
    }
}

impl Finder for SyncSearch {
    type ReturnType = ScanOutput;

    open spec fn valid(&self) -> bool {
        self.config.wf()
    }

    /// Scan the snapshot depth-first and return exactly the lines the
    /// scan specification assigns, in visitation order.  Directory-level
    /// traversal errors are skipped silently.
    fn find_matching(&self, snapshot: &Node) -> (r: Result<ScanOutput, AmbleError>)
        ensures
            r is Ok,
            r->Ok_0.matches.deep_view() == spec_scan_output(self.config, *snapshot, false).0,
            r->Ok_0.errors.deep_view() == spec_scan_output(self.config, *snapshot, false).1,
    {
        Ok(run_scan(&self.config, snapshot, false))
    }
}

} // verus!
