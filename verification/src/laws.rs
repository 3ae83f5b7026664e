//! The library-level laws: what holds of every scan, stated over the
//! scan specification and proved once for all inputs.

use vstd::prelude::*;
use crate::asyncwalk::{spec_process_entry, WalkState};
use crate::config::ScanConfig;
use crate::entry::{Entry, EntryKind, Node};
use crate::evaluate::{match_line, spec_annotation, spec_evaluate, spec_window_secs, stamp_hit};
use crate::filter::{file_excluded, hidden_name, in_name_list};
use crate::walk::{child_path, spec_scan_children, spec_scan_file, spec_scan_node, spec_scan_output};

verus! {

/// With only the modify predicate enabled, a file inside the window
/// contributes exactly one line, annotated exactly `m`, and no error.
pub proof fn lemma_modify_only_match(n: Node, path: Seq<char>, cfg: ScanConfig, walk_errors: bool)
    requires
        n.kind is File,
        !file_excluded(n.name@, cfg),
        !cfg.access,
        !cfg.create_enabled(),
        cfg.modify,
        n.modified is Ok,
        n.modified->Ok_0 < spec_window_secs(cfg.days_micro),
    ensures
        spec_scan_node(n, path, cfg, walk_errors).0 == seq![match_line(path, seq!['m'])],
        spec_scan_node(n, path, cfg, walk_errors).1 == Seq::<Seq<char>>::empty(),
{
    assert(spec_annotation(false, false, true) =~= seq!['m']);
}

/// A directory whose base name is in the skip set is pruned before
/// descent: no descendant, however deeply nested, is evaluated or
/// emitted.
pub proof fn lemma_skip_list_prunes_subtree(
    n: Node,
    path: Seq<char>,
    cfg: ScanConfig,
    walk_errors: bool,
)
    requires
        n.kind is Dir,
        in_name_list(n.name@, cfg.skip@),
    ensures
        spec_scan_node(n, path, cfg, walk_errors).0 == Seq::<Seq<char>>::empty(),
        spec_scan_node(n, path, cfg, walk_errors).1 == Seq::<Seq<char>>::empty(),
{
}

/// With the hidden policy enabled, a file whose base name falls under
/// the hidden convention is excluded even if its timestamps match.
pub proof fn lemma_hidden_policy_excludes(
    n: Node,
    path: Seq<char>,
    cfg: ScanConfig,
    walk_errors: bool,
)
    requires
        n.kind is File,
        cfg.ignore_hidden,
        hidden_name(n.name@),
    ensures
        spec_scan_node(n, path, cfg, walk_errors).0 == Seq::<Seq<char>>::empty(),
        spec_scan_node(n, path, cfg, walk_errors).1 == Seq::<Seq<char>>::empty(),
{
}

/// With the hidden policy disabled, a file not in the skip list is
/// evaluated like any other, hidden name or not.
pub proof fn lemma_hidden_policy_off_evaluates(
    n: Node,
    path: Seq<char>,
    cfg: ScanConfig,
    walk_errors: bool,
)
    requires
        n.kind is File,
        !cfg.ignore_hidden,
        !in_name_list(n.name@, cfg.skip@),
    ensures
        spec_scan_node(n, path, cfg, walk_errors) == spec_scan_file(n, path, cfg),
{
}

/// Scanning is idempotent: two runs against the same snapshot under the
/// same configuration yield the same lines.  Both walkers pin their
/// output to [`spec_scan_output`], a function of snapshot and
/// configuration alone, so immediate reruns agree line for line.  (At
/// the filesystem level a rescan may still differ through access-time
/// drift caused by the scan itself reading the entries: that changes
/// the snapshot, not the engine.)
pub proof fn lemma_scan_idempotent(
    cfg: ScanConfig,
    snapshot: Node,
    walk_errors: bool,
    first: (Seq<Seq<char>>, Seq<Seq<char>>),
    second: (Seq<Seq<char>>, Seq<Seq<char>>),
)
    requires
        first == spec_scan_output(cfg, snapshot, walk_errors),
        second == spec_scan_output(cfg, snapshot, walk_errors),
    ensures
        first == second,
{
}

proof fn lemma_matches_same_node(n: Node, path: Seq<char>, cfg: ScanConfig)
    ensures
        spec_scan_node(n, path, cfg, true).0 == spec_scan_node(n, path, cfg, false).0,
    decreases n,
{
    match n.kind {
        EntryKind::Dir => {
            if !in_name_list(n.name@, cfg.skip@) && n.read_error is None {
                lemma_matches_same_children(n.children@, path, cfg);
            }
        },
        EntryKind::File => {
        },
        EntryKind::Other => {
        },
    }
}

proof fn lemma_matches_same_children(children: Seq<Node>, parent: Seq<char>, cfg: ScanConfig)
    ensures
        spec_scan_children(children, parent, cfg, true).0 == spec_scan_children(
            children,
            parent,
            cfg,
            false,
        ).0,
    decreases children,
{
    if children.len() > 0 {
        lemma_matches_same_children(children.drop_last(), parent, cfg);
        lemma_matches_same_node(
            children.last(),
            child_path(parent, children.last().name@),
            cfg,
        );
    }
}

/// Given the same configuration and the same snapshot, the sequential
/// and the parallel walker yield the same matches: whether traversal
/// errors are reported (the parallel walker does, the sequential walker
/// skips them silently) never changes a match line.
pub proof fn lemma_walkers_same_matches(cfg: ScanConfig, snapshot: Node)
    ensures
        spec_scan_output(cfg, snapshot, true).0 == spec_scan_output(cfg, snapshot, false).0,
{
    if cfg.any_criteria() {
        lemma_matches_same_node(snapshot, cfg.start_dir@, cfg);
    }
}

/// A timestamp exactly at the window boundary is excluded: the window
/// test is strictly less-than.  A file whose only enabled predicate
/// reads exactly the window emits nothing.
pub proof fn lemma_boundary_excluded(n: Node, path: Seq<char>, cfg: ScanConfig, walk_errors: bool)
    requires
        n.kind is File,
        !cfg.access,
        !cfg.create_enabled(),
        cfg.modify,
        n.modified is Ok,
        n.modified->Ok_0 == spec_window_secs(cfg.days_micro),
    ensures
        spec_scan_node(n, path, cfg, walk_errors).0 == Seq::<Seq<char>>::empty(),
        spec_scan_node(n, path, cfg, walk_errors).1 == Seq::<Seq<char>>::empty(),
{
    if !file_excluded(n.name@, cfg) {
        assert(spec_annotation(false, false, false).len() == 0);
    }
}

/// A match is emitted if and only if at least one requested predicate
/// is true of the file: a zero-length annotation is never emitted as a
/// match.
pub proof fn lemma_match_iff_predicate_hits(e: Entry, cfg: ScanConfig)
    requires
        e.kind is File,
        spec_evaluate(e, cfg) is Ok,
    ensures
        ({
            let w = spec_window_secs(cfg.days_micro);
            spec_evaluate(e, cfg)->Ok_0 is Some <==> (stamp_hit(cfg.access, e.accessed, w)
                || stamp_hit(cfg.create_enabled(), e.created, w) || stamp_hit(
                cfg.modify,
                e.modified,
                w,
            ))
        }),
{
}

/// The per-entry decision of the parallel walker agrees with the scan
/// specification on files: the decision carries exactly the line the
/// scan emits for that file under its path, never prunes, and fails
/// exactly when the scan emits the error's message.
pub proof fn lemma_file_decision_matches_scan(
    n: Node,
    e: Entry,
    cfg: ScanConfig,
    walk_errors: bool,
)
    requires
        n.kind is File,
        e.kind is File,
        e.name == n.name,
        e.accessed == n.accessed,
        e.created == n.created,
        e.modified == n.modified,
    ensures
        ({
            let scan = spec_scan_node(n, e.path@, cfg, walk_errors);
            match spec_process_entry(cfg, Ok(e)) {
                Ok((state, opt)) => {
                    &&& state == WalkState::Continue
                    &&& match opt {
                        Some(line) => scan.0 == seq![line] && scan.1 == Seq::<Seq<char>>::empty(),
                        None => scan.0 == Seq::<Seq<char>>::empty() && scan.1 == Seq::<
                            Seq<char>,
                        >::empty(),
                    }
                },
                Err(er) => scan.0 == Seq::<Seq<char>>::empty() && scan.1 == seq![
                    er.message_spec(),
                ],
            }
        }),
{
}

/// The per-entry decision of the parallel walker agrees with the scan
/// specification on directories: it prunes exactly the skip-listed
/// ones, which the scan assigns nothing to, and emits no line itself.
pub proof fn lemma_dir_decision_prunes_skip_list(
    n: Node,
    e: Entry,
    cfg: ScanConfig,
    path: Seq<char>,
    walk_errors: bool,
)
    requires
        n.kind is Dir,
        e.kind is Dir,
        e.name == n.name,
    ensures
        spec_process_entry(cfg, Ok(e)) is Ok,
        spec_process_entry(cfg, Ok(e))->Ok_0.1 is None,
        spec_process_entry(cfg, Ok(e))->Ok_0.0 == WalkState::Skip <==> in_name_list(
            n.name@,
            cfg.skip@,
        ),
        spec_process_entry(cfg, Ok(e))->Ok_0.0 == WalkState::Skip ==> spec_scan_node(
            n,
            path,
            cfg,
            walk_errors,
        ) == (Seq::<Seq<char>>::empty(), Seq::<Seq<char>>::empty()),
{
}

} // verus!
