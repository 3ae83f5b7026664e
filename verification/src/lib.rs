//! Scan a snapshot of a directory tree for files whose access, creation
//! and/or modification timestamps fall within a recency window, while
//! excluding entries matching name-based skip rules or the hidden-file
//! convention.
//!
//! The crate holds the traversal-and-filter engine: the predicate pipeline
//! applied to each entry, the skip/visibility filter applied before a
//! directory is descended into, and the aggregation of match and error
//! lines.  Reading the filesystem, spawning worker threads and printing
//! are left to the surrounding program, which hands the engine a
//! [`entry::Node`] snapshot (or single [`entry::Entry`] events) and
//! consumes the lines the engine returns.

pub mod asyncwalk;
pub mod config;
pub mod constants;
pub mod entry;
pub mod evaluate;
pub mod errors;
pub mod filter;
pub mod laws;
pub mod syncwalk;
pub mod traits;
pub mod walk;
