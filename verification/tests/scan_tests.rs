//! End-to-end scans of constructed snapshots, through both walkers.

use dir_ageism::asyncwalk::AsyncSearch;
use dir_ageism::entry::{Node, Stamp};
use dir_ageism::errors::AmbleError;
use dir_ageism::syncwalk::SyncSearch;
use dir_ageism::traits::Finder;
use dir_ageism::walk::ScanOutput;

fn file(name: &str, modified_secs: u64) -> Node {
    Node::file(name.to_string(), Ok(0), Ok(0), Ok(modified_secs))
}

fn file_stamps(name: &str, accessed: Stamp, created: Stamp, modified: Stamp) -> Node {
    Node::file(name.to_string(), accessed, created, modified)
}

fn dir(name: &str, children: Vec<Node>) -> Node {
    Node::dir(name.to_string(), children)
}

fn sorted(v: &[String]) -> Vec<String> {
    let mut s: Vec<String> = v.to_vec();
    s.sort();
    s
}

const DAY_MICRO: u64 = 1_000_000;

/// A file modified inside the window, with only the modify predicate
/// enabled, appears exactly once, annotated exactly `m`.
#[test]
fn modify_only_single_match() {
    let tree = dir("data", vec![file("fresh.txt", 3_600)]);
    let search = SyncSearch::new("/data".to_string())
        .days(DAY_MICRO)
        .access(false)
        .create(false)
        .modify(true);
    let out: ScanOutput = search.find_matching(&tree).unwrap();
    assert_eq!(out.matches, vec!["/data/fresh.txt (m)".to_string()]);
    assert!(out.errors.is_empty());
}

/// No descendant of a skip-listed directory is evaluated or emitted,
/// however deeply nested.
#[test]
fn skip_list_prunes_deep_subtree() {
    let deep = dir(
        "skip_me",
        vec![dir(
            "inner",
            vec![dir("deeper", vec![file("fresh.txt", 10)]), file("also_fresh.txt", 10)],
        )],
    );
    let tree = dir("data", vec![deep, file("kept.txt", 10)]);
    let search = SyncSearch::new("/data".to_string())
        .days(DAY_MICRO)
        .access(false)
        .create(false)
        .modify(true)
        .skip(vec!["skip_me".to_string()]);
    let out = search.find_matching(&tree).unwrap();
    assert_eq!(out.matches, vec!["/data/kept.txt (m)".to_string()]);
    assert!(out.errors.is_empty());
}

/// An empty skip list excludes nothing.
#[test]
fn empty_skip_list_is_noop() {
    let tree = dir("data", vec![dir("sub", vec![file("a.txt", 10)])]);
    let search = SyncSearch::new("/data".to_string())
        .days(DAY_MICRO)
        .access(false)
        .create(false)
        .modify(true);
    let out = search.find_matching(&tree).unwrap();
    assert_eq!(out.matches, vec!["/data/sub/a.txt (m)".to_string()]);
}

/// The skip list also excludes files by base name.
#[test]
fn skip_list_excludes_file_names() {
    let tree = dir("data", vec![file("noise.log", 10), file("kept.txt", 10)]);
    let search = SyncSearch::new("/data".to_string())
        .days(DAY_MICRO)
        .access(false)
        .create(false)
        .modify(true)
        .skip(vec!["noise.log".to_string()]);
    let out = search.find_matching(&tree).unwrap();
    assert_eq!(out.matches, vec!["/data/kept.txt (m)".to_string()]);
}

/// With the hidden policy on, a dot-file is excluded even though its
/// timestamp matches; with the policy off it is included.
#[test]
fn hidden_policy_on_excludes_dotfile() {
    let tree = dir("data", vec![file(".secret", 10), file("plain.txt", 10)]);
    let search = SyncSearch::new("/data".to_string())
        .days(DAY_MICRO)
        .access(false)
        .create(false)
        .modify(true)
        .ignore_hidden(true);
    let out = search.find_matching(&tree).unwrap();
    assert_eq!(out.matches, vec!["/data/plain.txt (m)".to_string()]);
}

#[test]
fn hidden_policy_off_includes_dotfile() {
    let tree = dir("data", vec![file(".secret", 10), file("plain.txt", 10)]);
    let search = SyncSearch::new("/data".to_string())
        .days(DAY_MICRO)
        .access(false)
        .create(false)
        .modify(true)
        .ignore_hidden(false);
    let out = search.find_matching(&tree).unwrap();
    assert_eq!(
        sorted(&out.matches),
        vec!["/data/.secret (m)".to_string(), "/data/plain.txt (m)".to_string()]
    );
}

/// Running the same scan twice against an unmodified snapshot yields
/// identical lines.
#[test]
fn scan_is_idempotent() {
    let tree = dir(
        "data",
        vec![file("a.txt", 10), dir("sub", vec![file("b.txt", 20)]), file(".h", 5)],
    );
    let search = SyncSearch::new("/data".to_string())
        .days(DAY_MICRO)
        .access(false)
        .create(false)
        .modify(true);
    let first = search.find_matching(&tree).unwrap();
    let second = search.find_matching(&tree).unwrap();
    assert_eq!(first.matches, second.matches);
    assert_eq!(first.errors, second.errors);
}

/// The sequential and the parallel walker agree on the set of matches.
#[test]
fn walkers_agree_on_match_set() {
    let tree = dir(
        "data",
        vec![
            file("a.txt", 10),
            dir("sub", vec![file("b.txt", 20), file(".h", 5)]),
            Node::unreadable_dir(
                "locked".to_string(),
                AmbleError::IoError("permission denied".to_string()),
            ),
            file("old.txt", 1_000_000),
        ],
    );
    let sync_out = SyncSearch::new("/data".to_string())
        .days(DAY_MICRO)
        .access(false)
        .create(false)
        .modify(true)
        .find_matching(&tree)
        .unwrap();
    let async_out = AsyncSearch::new("/data".to_string())
        .days(DAY_MICRO)
        .access(false)
        .create(false)
        .modify(true)
        .find_matching(&tree)
        .unwrap();
    assert_eq!(sorted(&sync_out.matches), sorted(&async_out.matches));
}

/// A timestamp exactly at the threshold boundary is excluded; one
/// second fresher is included.
#[test]
fn boundary_timestamp_is_excluded() {
    let day3 = 3 * DAY_MICRO;
    let window = 259_200;
    let at_boundary = dir("data", vec![file("edge.txt", window)]);
    let inside = dir("data", vec![file("edge.txt", window - 1)]);
    let search = SyncSearch::new("/data".to_string())
        .days(day3)
        .access(false)
        .create(false)
        .modify(true);
    assert!(search.find_matching(&at_boundary).unwrap().matches.is_empty());
    let search = SyncSearch::new("/data".to_string())
        .days(day3)
        .access(false)
        .create(false)
        .modify(true);
    assert_eq!(
        search.find_matching(&inside).unwrap().matches,
        vec!["/data/edge.txt (m)".to_string()]
    );
}

/// The scenario: `/data/.hidden` modified an hour ago, `/data/keep/a.txt`
/// modified two days ago, `/data/skip_me/b.txt` modified an hour ago;
/// three days of window, modify only, hidden ignored, `skip_me` skipped.
/// Exactly one line comes out.
#[test]
fn three_entry_scenario() {
    let tree = dir(
        "data",
        vec![
            file(".hidden", 3_600),
            dir("keep", vec![file("a.txt", 172_800)]),
            dir("skip_me", vec![file("b.txt", 3_600)]),
        ],
    );
    let search = SyncSearch::new("/data".to_string())
        .days(3 * DAY_MICRO)
        .access(false)
        .create(false)
        .modify(true)
        .ignore_hidden(true)
        .skip(vec!["skip_me".to_string()]);
    let out = search.find_matching(&tree).unwrap();
    assert_eq!(out.matches, vec!["/data/keep/a.txt (m)".to_string()]);
    assert!(out.errors.is_empty());
}

/// An unreadable subdirectory beside readable siblings: the parallel
/// walker emits one error for the unreadable subtree and the normal
/// matches for the siblings; the call still succeeds.
#[test]
fn unreadable_subdir_reported_by_parallel_walker() {
    let tree = dir(
        "data",
        vec![
            Node::unreadable_dir(
                "locked".to_string(),
                AmbleError::IoError("permission denied".to_string()),
            ),
            file("ok.txt", 10),
        ],
    );
    let out = AsyncSearch::new("/data".to_string())
        .days(DAY_MICRO)
        .access(false)
        .create(false)
        .modify(true)
        .find_matching(&tree)
        .unwrap();
    assert_eq!(out.matches, vec!["/data/ok.txt (m)".to_string()]);
    assert_eq!(out.errors, vec!["IoError: permission denied".to_string()]);
}

/// The sequential walker skips directory-level traversal errors
/// silently and goes on with the siblings.
#[test]
fn unreadable_subdir_skipped_by_sequential_walker() {
    let tree = dir(
        "data",
        vec![
            Node::unreadable_dir(
                "locked".to_string(),
                AmbleError::IoError("permission denied".to_string()),
            ),
            file("ok.txt", 10),
        ],
    );
    let out = SyncSearch::new("/data".to_string())
        .days(DAY_MICRO)
        .access(false)
        .create(false)
        .modify(true)
        .find_matching(&tree)
        .unwrap();
    assert_eq!(out.matches, vec!["/data/ok.txt (m)".to_string()]);
    assert!(out.errors.is_empty());
}

/// The annotation holds one character per predicate that hit, in the
/// fixed order access, create, modify.
#[test]
fn annotation_order_is_acm() {
    let tree = dir("data", vec![file_stamps("f", Ok(1), Ok(2), Ok(3))]);
    let out = SyncSearch::new("/data".to_string())
        .days(DAY_MICRO)
        .create_supported(true)
        .find_matching(&tree)
        .unwrap();
    assert_eq!(out.matches, vec!["/data/f (acm)".to_string()]);
}

/// Without platform support, the creation-time predicate contributes
/// neither a match character nor an error, whatever the configuration.
#[test]
fn create_without_support_is_inert() {
    let tree = dir(
        "data",
        vec![file_stamps(
            "f",
            Ok(1),
            Err(AmbleError::IoError("no birth time".to_string())),
            Ok(3),
        )],
    );
    let out = SyncSearch::new("/data".to_string())
        .days(DAY_MICRO)
        .create(true)
        .find_matching(&tree)
        .unwrap();
    assert_eq!(out.matches, vec!["/data/f (am)".to_string()]);
    assert!(out.errors.is_empty());
}

/// A metadata failure on one enabled predicate turns the whole entry
/// into one error line and never halts the walk.
#[test]
fn metadata_error_is_reported_and_isolated() {
    let tree = dir(
        "data",
        vec![
            file_stamps(
                "broken",
                Err(AmbleError::SystemTimeError("clock went backwards".to_string())),
                Ok(0),
                Ok(0),
            ),
            file("ok.txt", 10),
        ],
    );
    let out = SyncSearch::new("/data".to_string())
        .days(DAY_MICRO)
        .access(true)
        .create(false)
        .modify(true)
        .find_matching(&tree)
        .unwrap();
    assert_eq!(out.matches, vec!["/data/ok.txt (am)".to_string()]);
    assert_eq!(out.errors, vec!["SystemTimeError: clock went backwards".to_string()]);
}

/// The error of the first enabled predicate wins: with access disabled,
/// an access failure is ignored and the modify failure is reported.
#[test]
fn first_enabled_predicate_error_wins() {
    let tree = dir(
        "data",
        vec![file_stamps(
            "f",
            Err(AmbleError::IoError("no atime".to_string())),
            Ok(0),
            Err(AmbleError::IoError("no mtime".to_string())),
        )],
    );
    let out = SyncSearch::new("/data".to_string())
        .days(DAY_MICRO)
        .access(false)
        .create(false)
        .modify(true)
        .find_matching(&tree)
        .unwrap();
    assert!(out.matches.is_empty());
    assert_eq!(out.errors, vec!["IoError: no mtime".to_string()]);
}

/// With no predicate requested at all, the scan reports nothing.
#[test]
fn no_criteria_reports_nothing() {
    let tree = dir("data", vec![file("fresh.txt", 0)]);
    let out = SyncSearch::new("/data".to_string())
        .days(DAY_MICRO)
        .access(false)
        .create(false)
        .modify(false)
        .find_matching(&tree)
        .unwrap();
    assert!(out.matches.is_empty());
    assert!(out.errors.is_empty());
}

/// Sequential matches come in depth-first visitation order.
#[test]
fn sequential_order_is_depth_first() {
    let tree = dir(
        "data",
        vec![
            file("a.txt", 1),
            dir("sub", vec![file("b.txt", 2), file("c.txt", 3)]),
            file("d.txt", 4),
        ],
    );
    let out = SyncSearch::new("/data".to_string())
        .days(DAY_MICRO)
        .access(false)
        .create(false)
        .modify(true)
        .find_matching(&tree)
        .unwrap();
    assert_eq!(
        out.matches,
        vec![
            "/data/a.txt (m)".to_string(),
            "/data/sub/b.txt (m)".to_string(),
            "/data/sub/c.txt (m)".to_string(),
            "/data/d.txt (m)".to_string(),
        ]
    );
}

/// Entries that are neither files nor directories never match and never
/// fail.
#[test]
fn other_kinds_are_ignored() {
    let tree = dir("data", vec![Node::other("socket".to_string()), file("ok.txt", 10)]);
    let out = SyncSearch::new("/data".to_string())
        .days(DAY_MICRO)
        .access(false)
        .create(false)
        .modify(true)
        .find_matching(&tree)
        .unwrap();
    assert_eq!(out.matches, vec!["/data/ok.txt (m)".to_string()]);
}

/// A file as the scan root is itself evaluated under the root path.
#[test]
fn root_file_is_evaluated() {
    let tree = file("report.txt", 10);
    let out = SyncSearch::new("/data/report.txt".to_string())
        .days(DAY_MICRO)
        .access(false)
        .create(false)
        .modify(true)
        .find_matching(&tree)
        .unwrap();
    assert_eq!(out.matches, vec!["/data/report.txt (m)".to_string()]);
}

/// The hidden convention covers files; a directory with a hidden name
/// is still descended, and only its hidden children are excluded.
#[test]
fn hidden_dir_is_descended() {
    let tree = dir(
        "data",
        vec![dir(".cache", vec![file("kept.txt", 10), file(".dropped", 10)])],
    );
    let out = SyncSearch::new("/data".to_string())
        .days(DAY_MICRO)
        .access(false)
        .create(false)
        .modify(true)
        .ignore_hidden(true)
        .find_matching(&tree)
        .unwrap();
    assert_eq!(out.matches, vec!["/data/.cache/kept.txt (m)".to_string()]);
}

/// A hidden directory can still be pruned through the skip list.
#[test]
fn hidden_dir_pruned_via_skip_list() {
    let tree = dir(
        "data",
        vec![dir(".cache", vec![file("kept.txt", 10)]), file("top.txt", 10)],
    );
    let out = SyncSearch::new("/data".to_string())
        .days(DAY_MICRO)
        .access(false)
        .create(false)
        .modify(true)
        .skip(vec![".cache".to_string()])
        .find_matching(&tree)
        .unwrap();
    assert_eq!(out.matches, vec!["/data/top.txt (m)".to_string()]);
}
