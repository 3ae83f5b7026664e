//! The data the engine sees of a filesystem node.
//!
//! The engine never touches the filesystem.  The surrounding program
//! reads a directory tree (or a single entry) and hands the engine its
//! shape as plain values: base names, entry kinds, and per-timestamp
//! elapsed seconds or the error met while fetching them.

use vstd::prelude::*;
use crate::errors::AmbleError;

verus! {

/// The kind of one filesystem node.
#[derive(Clone, Copy, Debug, PartialEq, Eq, Structural)]
pub enum EntryKind {
    /// A regular file: the only kind the predicates evaluate.
    File,
    /// A directory: descended into unless the skip filter prunes it.
    Dir,
    /// Anything else (sockets, device nodes, dangling links): never matches.
    Other,
}

/// One timestamp as the engine sees it: the whole seconds elapsed since
/// the instant, or the error met while fetching or comparing it (missing
/// metadata, a clock behind the timestamp).
pub type Stamp = Result<u64, AmbleError>;

/// One visited filesystem node, produced and consumed within a single
/// filter-then-evaluate pass.
pub struct Entry {
    /// The full path, as rendered in a match line.
    pub path: String,
    /// The base name alone, as tested by the skip and hidden filters.
    pub name: String,
    pub kind: EntryKind,
    /// Elapsed seconds since last access.
    pub accessed: Stamp,
    /// Elapsed seconds since creation.
    pub created: Stamp,
    /// Elapsed seconds since last modification.
    pub modified: Stamp,
}

/// One node of a directory-tree snapshot.
///
/// Paths are not stored: the walker derives each node's path from its
/// ancestors' base names, starting at the configured root path.
pub struct Node {
    /// The base name of the node.
    pub name: String,
    pub kind: EntryKind,
    pub accessed: Stamp,
    pub created: Stamp,
    pub modified: Stamp,
    /// For a directory whose contents could not be enumerated (denied,
    /// vanished): the traversal-level error.  Such a node has no children.
    pub read_error: Option<AmbleError>,
    pub children: Vec<Node>,
}

impl Node {
    /// A regular file with the given timestamps.
    pub fn file(name: String, accessed: Stamp, created: Stamp, modified: Stamp) -> (n: Node)
        ensures
            n.name == name,
            n.kind == EntryKind::File,
            n.accessed == accessed,
            n.created == created,
            n.modified == modified,
            n.read_error is None,
            n.children@.len() == 0,
    {
        Node {
            name,
            kind: EntryKind::File,
            accessed,
            created,
            modified,
            read_error: None,
            children: Vec::new(),
        }
    }

    /// A readable directory with the given children.
    pub fn dir(name: String, children: Vec<Node>) -> (n: Node)
        ensures
            n.name == name,
            n.kind == EntryKind::Dir,
            n.read_error is None,
            n.children == children,
    {
        Node {
            name,
            kind: EntryKind::Dir,
            accessed: Ok(0),
            created: Ok(0),
            modified: Ok(0),
            read_error: None,
            children,
        }
    }

    /// A directory whose contents could not be enumerated.
    pub fn unreadable_dir(name: String, cause: AmbleError) -> (n: Node)
        ensures
            n.name == name,
            n.kind == EntryKind::Dir,
            n.read_error == Some(cause),
            n.children@.len() == 0,
    {
        Node {
            name,
            kind: EntryKind::Dir,
            accessed: Ok(0),
            created: Ok(0),
            modified: Ok(0),
            read_error: Some(cause),
            children: Vec::new(),
        }
    }

    /// A node that is neither a regular file nor a directory.
    pub fn other(name: String) -> (n: Node)
        ensures
            n.name == name,
            n.kind == EntryKind::Other,
            n.read_error is None,
            n.children@.len() == 0,
    {
        Node {
            name,
            kind: EntryKind::Other,
            accessed: Ok(0),
            created: Ok(0),
            modified: Ok(0),
            read_error: None,
            children: Vec::new(),
        }
    }
}

} // verus!
