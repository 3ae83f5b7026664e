//! The traversal engine: a depth-first walk over a snapshot of a
//! directory tree, applying the skip/visibility filter during descent
//! and the predicate evaluator per file, and aggregating match lines and
//! error lines into two output streams.
//!
//! The engine is a function of the snapshot and the configuration alone:
//! [`spec_scan_node`] says, line for line, what a scan emits.  The
//! sequential walker emits exactly that sequence; a parallel walker
//! emits the same lines in some order.

use vstd::prelude::*;
use crate::config::ScanConfig;
use crate::entry::{EntryKind, Node};
use crate::evaluate::{evaluate_file, match_line, spec_file_outcome, spec_window_secs};
use crate::filter::{file_excluded, in_name_list, is_hidden, matches_list};

verus! {

/// The two output streams of a completed scan: one line per match, of
/// the form `<path> (<annotation>)`, and one line per error.  Within
/// each stream the lines stand in emission order.
pub struct ScanOutput {
    pub matches: Vec<String>,
    pub errors: Vec<String>,
}

/// The path of a child entry: the parent's path, a separator, and the
/// child's base name.
pub open spec fn child_path(parent: Seq<char>, name: Seq<char>) -> Seq<char> {
    parent + "/"@ + name
}

/// Join a parent path and a base name.
pub fn join_path(parent: &String, name: &String) -> (r: String)
    ensures
        r@ == child_path(parent@, name@),
{
    let mut r = parent.clone();
    r.append("/");
    r.append(name.as_str());
    r
}

/// What scanning one regular file at `path` emits, before any
/// visibility filtering: one match line, one error line, or nothing.
pub open spec fn spec_scan_file(n: Node, path: Seq<char>, cfg: ScanConfig) -> (Seq<Seq<char>>, Seq<
    Seq<char>,
>) {
    match spec_file_outcome(
        n.accessed,
        n.created,
        n.modified,
        cfg.access,
        cfg.create_enabled(),
        cfg.modify,
        spec_window_secs(cfg.days_micro),
    ) {
        Err(e) => (Seq::<Seq<char>>::empty(), seq![e.message_spec()]),
        Ok(annotation) => if annotation.len() == 0 {
            (Seq::<Seq<char>>::empty(), Seq::<Seq<char>>::empty())
        } else {
            (seq![match_line(path, annotation)], Seq::<Seq<char>>::empty())
        },
    }
}

/// What a depth-first scan of the subtree rooted at `n` emits.
///
/// A directory whose base name is in the skip list is pruned before
/// descent: nothing under it is visited.  A directory that could not be
/// enumerated contributes one error line when `walk_errors` is set (the
/// parallel walker routes traversal errors to its error channel) and
/// nothing otherwise (the sequential walker skips them silently).  A
/// file is evaluated unless the filter excludes it.
pub open spec fn spec_scan_node(
    n: Node,
    path: Seq<char>,
    cfg: ScanConfig,
    walk_errors: bool,
) -> (Seq<Seq<char>>, Seq<Seq<char>>)
    decreases n,
{
    match n.kind {
        EntryKind::Dir => {
            if in_name_list(n.name@, cfg.skip@) {
                (Seq::<Seq<char>>::empty(), Seq::<Seq<char>>::empty())
            } else if n.read_error is Some {
                (
                    Seq::<Seq<char>>::empty(),
                    if walk_errors {
                        seq![n.read_error->0.message_spec()]
                    } else {
                        Seq::<Seq<char>>::empty()
                    },
                )
            } else {
                spec_scan_children(n.children@, path, cfg, walk_errors)
            }
        },
        EntryKind::File => {
            if file_excluded(n.name@, cfg) {
                (Seq::<Seq<char>>::empty(), Seq::<Seq<char>>::empty())
            } else {
                spec_scan_file(n, path, cfg)
            }
        },
        EntryKind::Other => (Seq::<Seq<char>>::empty(), Seq::<Seq<char>>::empty()),
    }
}

/// What scanning a directory's children emits: each child's output in
/// order, concatenated.
pub open spec fn spec_scan_children(
    children: Seq<Node>,
    parent: Seq<char>,
    cfg: ScanConfig,
    walk_errors: bool,
) -> (Seq<Seq<char>>, Seq<Seq<char>>)
    decreases children,
{
    if children.len() == 0 {
        (Seq::<Seq<char>>::empty(), Seq::<Seq<char>>::empty())
    } else {
        let front = spec_scan_children(children.drop_last(), parent, cfg, walk_errors);
        let rest = spec_scan_node(
            children.last(),
            child_path(parent, children.last().name@),
            cfg,
            walk_errors,
        );
        (front.0 + rest.0, front.1 + rest.1)
    }
}

/// After pushing one string, a vector's texts are the old texts plus the
/// new string's text.
proof fn lemma_deep_view_push(pre: Vec<String>, post: Vec<String>, s: String)
    requires
        post@ == pre@.push(s),
    ensures
        post.deep_view() == pre.deep_view().push(s@),
{
    assert forall|i: int| 0 <= i < post.deep_view().len() implies post.deep_view()[i]
        == pre.deep_view().push(s@)[i] by {
        if i < pre@.len() {
            assert(post@[i] == pre@[i]);
        } else {
            assert(post@[i] == s);
        }
    }
    assert(post.deep_view() =~= pre.deep_view().push(s@));
}

/// Scan the subtree rooted at `n`, whose own path is `path`, appending
/// match and error lines to `out`.
fn scan_node(n: &Node, path: &String, cfg: &ScanConfig, walk_errors: bool, out: &mut ScanOutput)
    requires
        cfg.wf(),
    ensures
        final(out).matches.deep_view() == old(out).matches.deep_view() + spec_scan_node(
            *n,
            path@,
            *cfg,
            walk_errors,
        ).0,
        final(out).errors.deep_view() == old(out).errors.deep_view() + spec_scan_node(
            *n,
            path@,
            *cfg,
            walk_errors,
        ).1,
    decreases *n,
{
    let ghost m0 = out.matches.deep_view();
    let ghost e0 = out.errors.deep_view();
    match n.kind {
        EntryKind::Dir => {
            if matches_list(&n.name, &cfg.skip) {
                proof {
                    assert(out.matches.deep_view() =~= m0 + spec_scan_node(
                        *n,
                        path@,
                        *cfg,
                        walk_errors,
                    ).0);
                    assert(out.errors.deep_view() =~= e0 + spec_scan_node(
                        *n,
                        path@,
                        *cfg,
                        walk_errors,
                    ).1);
                }
                return ;
            }
            match &n.read_error {
                Some(e) => {
                    if walk_errors {
                        let ghost pre = out.errors;
                        let msg = e.message();
                        out.errors.push(msg);
                        proof {
                            lemma_deep_view_push(pre, out.errors, msg);
                            assert(out.errors.deep_view() =~= e0 + spec_scan_node(
                                *n,
                                path@,
                                *cfg,
                                walk_errors,
                            ).1);
                        }
                    }
                    proof {
                        assert(out.matches.deep_view() =~= m0 + spec_scan_node(
                            *n,
                            path@,
                            *cfg,
                            walk_errors,
                        ).0);
                        if !walk_errors {
                            assert(out.errors.deep_view() =~= e0 + spec_scan_node(
                                *n,
                                path@,
                                *cfg,
                                walk_errors,
                            ).1);
                        }
                    }
                },
                None => {
                    let mut i: usize = 0;
                    proof {
                        assert(n.children@.subrange(0, 0).len() == 0);
                        assert(out.matches.deep_view() =~= m0 + spec_scan_children(
                            n.children@.subrange(0, 0),
                            path@,
                            *cfg,
                            walk_errors,
                        ).0);
                        assert(out.errors.deep_view() =~= e0 + spec_scan_children(
                            n.children@.subrange(0, 0),
                            path@,
                            *cfg,
                            walk_errors,
                        ).1);
                    }
                    while i < n.children.len()
                        invariant
                            cfg.wf(),
                            i <= n.children@.len(),
                            out.matches.deep_view() == m0 + spec_scan_children(
                                n.children@.subrange(0, i as int),
                                path@,
                                *cfg,
                                walk_errors,
                            ).0,
                            out.errors.deep_view() == e0 + spec_scan_children(
                                n.children@.subrange(0, i as int),
                                path@,
                                *cfg,
                                walk_errors,
                            ).1,
                        decreases n.children@.len() - i,
                    {
                        let ghost prefix = n.children@.subrange(0, i as int);
                        let child = &n.children[i];
                        let cpath = join_path(path, &child.name);
                        proof {
                            assert(decreases_to!(*n => n.children));
                            assert(decreases_to!(n.children => *child));
                        }
                        scan_node(child, &cpath, cfg, walk_errors, out);
                        proof {
                            let next = n.children@.subrange(0, i + 1);
                            assert(next.drop_last() =~= prefix);
                            assert(next.last() == n.children@[i as int]);
                            let front = spec_scan_children(prefix, path@, *cfg, walk_errors);
                            let rest = spec_scan_node(
                                *child,
                                child_path(path@, child.name@),
                                *cfg,
                                walk_errors,
                            );
                            assert(out.matches.deep_view() =~= m0 + spec_scan_children(
                                next,
                                path@,
                                *cfg,
                                walk_errors,
                            ).0);
                            assert(out.errors.deep_view() =~= e0 + spec_scan_children(
                                next,
                                path@,
                                *cfg,
                                walk_errors,
                            ).1);
                        }
                        i += 1;
                    }
                    proof {
                        assert(n.children@.subrange(0, n.children@.len() as int) =~= n.children@);
                    }
                },
            }
        },
        EntryKind::File => {
            if is_hidden(&n.name, cfg.ignore_hidden) || matches_list(&n.name, &cfg.skip) {
                proof {
                    assert(out.matches.deep_view() =~= m0 + spec_scan_node(
                        *n,
                        path@,
                        *cfg,
                        walk_errors,
                    ).0);
                    assert(out.errors.deep_view() =~= e0 + spec_scan_node(
                        *n,
                        path@,
                        *cfg,
                        walk_errors,
                    ).1);
                }
                return ;
            }
            match evaluate_file(path, &n.accessed, &n.created, &n.modified, cfg) {
                Ok(None) => {
                    proof {
                        assert(out.matches.deep_view() =~= m0 + spec_scan_node(
                            *n,
                            path@,
                            *cfg,
                            walk_errors,
                        ).0);
                        assert(out.errors.deep_view() =~= e0 + spec_scan_node(
                            *n,
                            path@,
                            *cfg,
                            walk_errors,
                        ).1);
                    }
                },
                Ok(Some(line)) => {
                    let ghost pre = out.matches;
                    let ghost l = line;
                    out.matches.push(line);
                    proof {
                        lemma_deep_view_push(pre, out.matches, l);
                        assert(out.matches.deep_view() =~= m0 + spec_scan_node(
                            *n,
                            path@,
                            *cfg,
                            walk_errors,
                        ).0);
                        assert(out.errors.deep_view() =~= e0 + spec_scan_node(
                            *n,
                            path@,
                            *cfg,
                            walk_errors,
                        ).1);
                    }
                },
                Err(er) => {
                    let ghost pre = out.errors;
                    let msg = er.message();
                    out.errors.push(msg);
                    proof {
                        lemma_deep_view_push(pre, out.errors, msg);
                        assert(out.matches.deep_view() =~= m0 + spec_scan_node(
                            *n,
                            path@,
                            *cfg,
                            walk_errors,
                        ).0);
                        assert(out.errors.deep_view() =~= e0 + spec_scan_node(
                            *n,
                            path@,
                            *cfg,
                            walk_errors,
                        ).1);
                    }
                },
            }
        },
        EntryKind::Other => {
            proof {
                assert(out.matches.deep_view() =~= m0 + spec_scan_node(
                    *n,
                    path@,
                    *cfg,
                    walk_errors,
                ).0);
                assert(out.errors.deep_view() =~= e0 + spec_scan_node(
                    *n,
                    path@,
                    *cfg,
                    walk_errors,
                ).1);
            }
        },
    }
}

/// What a whole scan emits.  With no predicate requested at all the scan
/// reports nothing; otherwise it is the depth-first walk from the root,
/// whose reported path is the configured root path itself.
pub open spec fn spec_scan_output(cfg: ScanConfig, snapshot: Node, walk_errors: bool) -> (
    Seq<Seq<char>>,
    Seq<Seq<char>>,
) {
    if !cfg.any_criteria() {
        (Seq::<Seq<char>>::empty(), Seq::<Seq<char>>::empty())
    } else {
        spec_scan_node(snapshot, cfg.start_dir@, cfg, walk_errors)
    }
}

/// Run one scan of `snapshot` under `cfg`.
pub fn run_scan(cfg: &ScanConfig, snapshot: &Node, walk_errors: bool) -> (out: ScanOutput)
    requires
        cfg.wf(),
    ensures
        out.matches.deep_view() == spec_scan_output(*cfg, *snapshot, walk_errors).0,
        out.errors.deep_view() == spec_scan_output(*cfg, *snapshot, walk_errors).1,
{
    let mut out = ScanOutput { matches: Vec::new(), errors: Vec::new() };
    proof {
        assert(out.matches.deep_view() =~= Seq::<Seq<char>>::empty());
        assert(out.errors.deep_view() =~= Seq::<Seq<char>>::empty());
    }
    if !(cfg.access || cfg.create || cfg.modify) {
        return out;
    }
    scan_node(snapshot, &cfg.start_dir, cfg, walk_errors, &mut out);
    proof {
        assert(out.matches.deep_view() =~= spec_scan_output(*cfg, *snapshot, walk_errors).0);
        assert(out.errors.deep_view() =~= spec_scan_output(*cfg, *snapshot, walk_errors).1);
    }
    out
}

} // verus!
