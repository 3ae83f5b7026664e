//! The parallel walker: the per-entry decision logic and the result-set
//! contract of a multi-threaded traversal.
//!
//! A parallel traversal distributes subtrees across workers, so matches
//! and errors arrive in no particular order; each worker hands every
//! traversal event to [`AsyncSearch::process_entry`], sends the decided
//! line onto a match or an error channel, and honors the returned
//! [`WalkState`] by refusing to descend into pruned directories.  The
//! thread pool, the channels and the two draining sinks live in the
//! surrounding program; what is decided per entry, and the set of lines
//! the whole walk must deliver, are fixed here.

use vstd::prelude::*;
use crate::config::ScanConfig;
use crate::constants::{MAX_DAYS_MICRO, MIN_DAYS_MICRO};
use crate::entry::{Entry, EntryKind, Node};
use crate::errors::AmbleError;
use crate::evaluate::{evaluate_file, spec_evaluate};
use crate::filter::{file_excluded, in_name_list, is_hidden, matches_list};
use crate::traits::Finder;
use crate::walk::{run_scan, spec_scan_output, ScanOutput};

verus! {

/// The traversal directive a decision hands back to the walker: go on,
/// or do not descend into the directory just decided.
#[derive(Clone, Copy, Debug, PartialEq, Eq, Structural)]
pub enum WalkState {
    Continue,
    Skip,
}

/// What deciding one traversal event yields: a directive plus an
/// optional match line, or the error to route to the error stream.
///
/// A traversal-level error arrives as an `Err` event and is passed
/// through; a directory in the skip list is pruned before descent; a
/// file is filtered and then evaluated, a metadata failure on it
/// becoming the entry's error.
pub open spec fn spec_process_entry(cfg: ScanConfig, event: Result<Entry, AmbleError>) -> Result<
    (WalkState, Option<Seq<char>>),
    AmbleError,
> {
    match event {
        Err(e) => Err(e),
        Ok(entry) => match entry.kind {
            EntryKind::Dir => {
                if in_name_list(entry.name@, cfg.skip@) {
                    Ok((WalkState::Skip, None))
                } else {
                    Ok((WalkState::Continue, None))
                }
            },
            EntryKind::File => {
                if file_excluded(entry.name@, cfg) {
                    Ok((WalkState::Continue, None))
                } else {
                    match spec_evaluate(entry, cfg) {
                        Err(e) => Err(e),
                        Ok(None) => Ok((WalkState::Continue, None)),
                        Ok(Some(line)) => Ok((WalkState::Continue, Some(line))),
                    }
                }
            },
            EntryKind::Other => Ok((WalkState::Continue, None)),
        },
    }
}

/// A parallel search, assembled builder-style around one immutable
/// [`ScanConfig`].
///
/// Only the start directory must be supplied; every other option has a
/// default: a window of eight days, all three predicates requested,
/// hidden files ignored, an empty skip list, the platform-default
/// worker count, and creation-time support off until the caller
/// declares the platform exposes it.
pub struct AsyncSearch {
    /// The resolved configuration the search runs under.
    pub config: ScanConfig,
}

impl AsyncSearch {
    /// Start assembling a search rooted at `start_dir`.
    pub fn new(start_dir: String) -> (s: Self)
        ensures
            s.config.start_dir == start_dir,
            s.config.days_micro == 8_000_000u64,
            s.config.access,
            s.config.create,
            s.config.modify,
            s.config.ignore_hidden,
            s.config.skip@.len() == 0,
            !s.config.create_supported,
            s.config.threads is None,
            s.config.wf(),
    {
        AsyncSearch {
            config: ScanConfig {
                start_dir,
                days_micro: 8_000_000,
                access: true,
                create: true,
                modify: true,
                ignore_hidden: true,
                skip: Vec::new(),
                create_supported: false,
                threads: None,
            },
        }
    }

    /// Reset the start directory for a search.
    pub fn start_dir(self, start_dir: String) -> (s: Self)
        ensures
            s.config == (ScanConfig { start_dir, ..self.config }),
    {
        AsyncSearch { config: ScanConfig { start_dir, ..self.config } }
    }

    /// Set the age threshold, in millionths of a day.
    pub fn days(self, days_micro: u64) -> (s: Self)
        requires
            MIN_DAYS_MICRO <= days_micro <= MAX_DAYS_MICRO,
        ensures
            s.config == (ScanConfig { days_micro, ..self.config }),
    {
        AsyncSearch { config: ScanConfig { days_micro, ..self.config } }
    }

    /// Set whether access time is of interest.
    pub fn access(self, access: bool) -> (s: Self)
        ensures
            s.config == (ScanConfig { access, ..self.config }),
    {
        AsyncSearch { config: ScanConfig { access, ..self.config } }
    }

    /// Set whether creation time is of interest.
    pub fn create(self, create: bool) -> (s: Self)
        ensures
            s.config == (ScanConfig { create, ..self.config }),
    {
        AsyncSearch { config: ScanConfig { create, ..self.config } }
    }

    /// Set whether modification time is of interest.
    pub fn modify(self, modify: bool) -> (s: Self)
        ensures
            s.config == (ScanConfig { modify, ..self.config }),
    {
        AsyncSearch { config: ScanConfig { modify, ..self.config } }
    }

    /// Set whether hidden entries (base name starting with `'.'`) are
    /// excluded.
    pub fn ignore_hidden(self, ignore_hidden: bool) -> (s: Self)
        ensures
            s.config == (ScanConfig { ignore_hidden, ..self.config }),
    {
        AsyncSearch { config: ScanConfig { ignore_hidden, ..self.config } }
    }

    /// Set the skip list.
    pub fn skip(self, skip: Vec<String>) -> (s: Self)
        ensures
            s.config == (ScanConfig { skip, ..self.config }),
    {
        AsyncSearch { config: ScanConfig { skip, ..self.config } }
    }

    /// Set the number of worker threads; `None` leaves the choice to
    /// the platform.
    pub fn threads(self, threads: Option<u8>) -> (s: Self)
        ensures
            s.config == (ScanConfig { threads, ..self.config }),
    {
        AsyncSearch { config: ScanConfig { threads, ..self.config } }
    }

    /// Declare whether the platform exposes file-creation metadata.
    pub fn create_supported(self, create_supported: bool) -> (s: Self)
        ensures
            s.config == (ScanConfig { create_supported, ..self.config }),
    {
        AsyncSearch { config: ScanConfig { create_supported, ..self.config } }
    }

    /// Decide one traversal event.
    ///
    /// Workers call this for every entry the traversal hands them and
    /// act on the outcome: send the match line, send the error line, and
    /// honor a [`WalkState::Skip`] by not descending.  The decision
    /// touches no shared state, so entries may be decided concurrently
    /// in any order.
    pub fn process_entry(&self, event: Result<Entry, AmbleError>) -> (r: Result<
        (WalkState, Option<String>),
        AmbleError,
    >)
        requires
            self.config.wf(),
        ensures
            ({
                let decision = spec_process_entry(self.config, event);
                match r {
                    Err(er) => decision == Err::<(WalkState, Option<Seq<char>>), AmbleError>(er),
                    Ok((state, opt)) => {
                        &&& decision is Ok
                        &&& state == decision->Ok_0.0
                        &&& match opt {
                            None => decision->Ok_0.1 is None,
                            Some(line) => decision->Ok_0.1 is Some && line@
                                == decision->Ok_0.1->Some_0,
                        }
                    },
                }
            }),
    {
        let entry = match event {
            Ok(e) => e,
            Err(er) => {
                return Err(er);
            },
        };
        match entry.kind {
            EntryKind::Dir => {
                if matches_list(&entry.name, &self.config.skip) {
                    Ok((WalkState::Skip, None))
                } else {
                    Ok((WalkState::Continue, None))
                }
            },
            EntryKind::File => {
                if is_hidden(&entry.name, self.config.ignore_hidden) || matches_list(
                    &entry.name,
                    &self.config.skip,
                ) {
                    return Ok((WalkState::Continue, None));
                }
                match evaluate_file(
                    &entry.path,
                    &entry.accessed,
                    &entry.created,
                    &entry.modified,
                    &self.config,
                ) {
                    Ok(None) => Ok((WalkState::Continue, None)),
                    Ok(Some(line)) => Ok((WalkState::Continue, Some(line))),
                    Err(er) => Err(er),
                }
            },
            EntryKind::Other => Ok((WalkState::Continue, None)),
        }
    }
}

impl Finder for AsyncSearch {
    type ReturnType = ScanOutput;

    open spec fn valid(&self) -> bool {
        self.config.wf()
    }

    /// Scan the snapshot and return the lines a parallel walk delivers.
    ///
    /// A parallel walk fixes the multiset of lines, not their order:
    /// each enumerated subtree is visited by exactly one worker, every
    /// in-flight send lands before the channels close, and nothing else
    /// is sent.  Directory-level traversal errors are routed to the
    /// error stream.
    fn find_matching(&self, snapshot: &Node) -> (r: Result<ScanOutput, AmbleError>)
        ensures
            r is Ok,
            r->Ok_0.matches.deep_view().to_multiset() == spec_scan_output(
                self.config,
                *snapshot,
                true,
            ).0.to_multiset(),
            r->Ok_0.errors.deep_view().to_multiset() == spec_scan_output(
                self.config,
                *snapshot,
                true,
            ).1.to_multiset(),
    {
        Ok(run_scan(&self.config, snapshot, true))
    }
}

} // verus!
