//! The `Finder` trait, shared by the sequential and the parallel search.

use vstd::prelude::*;
use crate::entry::Node;
use crate::errors::AmbleError;

verus! {

/// A configured search that can scan a snapshot of a directory tree.
///
/// Both walker variants implement this trait; each implementation
/// carries its own, stronger contract on `find_matching`.
pub trait Finder {
    type ReturnType;

    /// The configuration is fully resolved and admissible.
    spec fn valid(&self) -> bool;

    /// Scan the tree rooted at `snapshot` and return what the walk
    /// emits.
    fn find_matching(&self, snapshot: &Node) -> (r: Result<Self::ReturnType, AmbleError>)
        requires
            self.valid(),
    ;
}

} // verus!
