//! The skip/visibility filter: decides, before a directory is descended
//! into or a file is evaluated, whether the entry is left out.
//!
//! Matching is by exact, case-sensitive equality against the base name
//! only; an empty skip list excludes nothing.  There is no partial or
//! glob matching — a deliberate simplicity boundary.

use vstd::prelude::*;
use crate::config::ScanConfig;

verus! {

/// A base name the hidden-file convention covers: it starts with `'.'`.
/// The name `"./"` is carved out so that a scan rooted at the current
/// directory is not swallowed by its own root entry.
pub open spec fn hidden_name(name: Seq<char>) -> bool {
    &&& name.len() > 0
    &&& name[0] == '.'
    &&& !(name.len() == 2 && name[1] == '/')
}

/// Membership of a base name in the skip list: some listed name is
/// exactly equal to it.
pub open spec fn in_name_list(name: Seq<char>, list: Seq<String>) -> bool {
    exists|i: int| 0 <= i < list.len() && #[trigger] list[i]@ == name
}

/// A file the filter keeps away from the predicate evaluator: hidden
/// while the hidden policy is on, or listed in the skip list.
pub open spec fn file_excluded(name: Seq<char>, cfg: ScanConfig) -> bool {
    (cfg.ignore_hidden && hidden_name(name)) || in_name_list(name, cfg.skip@)
}

/// Is `name` covered by the hidden-file convention?  With `check` false
/// the question is not even asked and the answer is no.
pub fn is_hidden(name: &String, check: bool) -> (r: bool)
    ensures
        r == (check && hidden_name(name@)),
{
    if !check {
        return false;
    }
    let len = name.as_str().unicode_len();
    if len == 0 {
        return false;
    }
    if name.as_str().get_char(0) != '.' {
        return false;
    }
    if len == 2 && name.as_str().get_char(1) == '/' {
        return false;
    }
    true
}

/// Is `name` exactly equal to some name in `list`?
pub fn matches_list(name: &String, list: &Vec<String>) -> (r: bool)
    ensures
        r == in_name_list(name@, list@),
{
    let mut i: usize = 0;
    while i < list.len()
        invariant
            i <= list@.len(),
            forall|j: int| 0 <= j < i ==> #[trigger] list@[j]@ != name@,
        decreases list@.len() - i,
    {
        if *name == list[i] {
            return true;
        }
        i += 1;
    }
    false
}

} // verus!
