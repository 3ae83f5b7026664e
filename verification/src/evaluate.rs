//! The predicate evaluator: given one entry and a configuration, decide
//! match or no-match and produce the compact match annotation.
//!
//! A file matches a requested predicate when the elapsed seconds since
//! the corresponding timestamp are *strictly* below the window, the
//! window being the ceiling of `SECS_PER_DAY * days` seconds for a
//! threshold of `days` fractional days (held in millionths of a day).

use vstd::prelude::*;
use vstd::arithmetic::div_mod::lemma_fundamental_div_mod;
use crate::config::ScanConfig;
use crate::constants::{MAX_DAYS_MICRO, MICRODAYS_PER_DAY, MIN_DAYS_MICRO, SECS_PER_DAY};
use crate::entry::{Entry, EntryKind, Stamp};
use crate::errors::AmbleError;

verus! {

/// The recency window in whole seconds for a threshold of `days_micro`
/// millionths of a day: `ceil(SECS_PER_DAY * days_micro / MICRODAYS_PER_DAY)`.
pub open spec fn spec_window_secs(days_micro: u64) -> int {
    (SECS_PER_DAY * days_micro + (MICRODAYS_PER_DAY - 1)) / (MICRODAYS_PER_DAY as int)
}

proof fn lemma_window_product_fits(days_micro: u64)
    requires
        days_micro <= MAX_DAYS_MICRO,
    ensures
        SECS_PER_DAY * days_micro + (MICRODAYS_PER_DAY - 1) <= u64::MAX,
{
    assert(SECS_PER_DAY * days_micro <= SECS_PER_DAY * MAX_DAYS_MICRO) by (nonlinear_arith)
        requires
            days_micro <= MAX_DAYS_MICRO,
    ;
    assert(SECS_PER_DAY * MAX_DAYS_MICRO + (MICRODAYS_PER_DAY - 1) <= u64::MAX);
}

/// Compute the window in seconds.
pub fn window_secs(days_micro: u64) -> (w: u64)
    requires
        days_micro <= MAX_DAYS_MICRO,
    ensures
        w == spec_window_secs(days_micro),
{
    proof {
        lemma_window_product_fits(days_micro);
    }
    (SECS_PER_DAY * days_micro + (MICRODAYS_PER_DAY - 1)) / MICRODAYS_PER_DAY
}

/// The strict window test is exactly the rational comparison
/// `elapsed < SECS_PER_DAY * days`: taking the ceiling loses nothing,
/// and a timestamp exactly on the boundary falls outside the window.
pub proof fn lemma_window_boundary(days_micro: u64, elapsed: u64)
    requires
        MIN_DAYS_MICRO <= days_micro,
    ensures
        (elapsed < spec_window_secs(days_micro)) <==> (elapsed * MICRODAYS_PER_DAY < SECS_PER_DAY
            * days_micro),
{
    let a = SECS_PER_DAY * days_micro;
    let m = MICRODAYS_PER_DAY as int;
    let x = a + (m - 1);
    let w = x / m;
    lemma_fundamental_div_mod(x, m);
    let r = x % m;
    assert(x == m * w + r);
    assert(0 <= r < m);
    let e = elapsed as int;
    assert(e < w ==> e * m < a) by (nonlinear_arith)
        requires
            x == m * w + r,
            0 <= r < m,
            x == a + (m - 1),
            0 <= e,
            m > 0,
    ;
    assert(e * m < a ==> e < w) by (nonlinear_arith)
        requires
            x == m * w + r,
            0 <= r < m,
            x == a + (m - 1),
            0 <= e,
            m > 0,
    ;
}

/// Does one requested predicate hit?  An enabled predicate hits when its
/// timestamp was fetched and the elapsed seconds lie strictly inside the
/// window; a disabled predicate never hits.
pub open spec fn stamp_hit(enabled: bool, stamp: Stamp, window: int) -> bool {
    enabled && stamp is Ok && stamp->Ok_0 < window
}

/// The annotation of a match, in fixed order: `a`, then `c`, then `m`,
/// one character per predicate that hit, with no separator.
pub open spec fn spec_annotation(access_hit: bool, create_hit: bool, modify_hit: bool) -> Seq<
    char,
> {
    (if access_hit {
        seq!['a']
    } else {
        Seq::<char>::empty()
    }) + (if create_hit {
        seq!['c']
    } else {
        Seq::<char>::empty()
    }) + (if modify_hit {
        seq!['m']
    } else {
        Seq::<char>::empty()
    })
}

/// The outcome of evaluating a file's stamps: the annotation, or the
/// error of the first enabled predicate whose timestamp could not be
/// read — access first, then creation, then modification.
pub open spec fn spec_file_outcome(
    accessed: Stamp,
    created: Stamp,
    modified: Stamp,
    check_access: bool,
    check_create: bool,
    check_modify: bool,
    window: int,
) -> Result<Seq<char>, AmbleError> {
    if check_access && accessed is Err {
        Err(accessed->Err_0)
    } else if check_create && created is Err {
        Err(created->Err_0)
    } else if check_modify && modified is Err {
        Err(modified->Err_0)
    } else {
        Ok(
            spec_annotation(
                stamp_hit(check_access, accessed, window),
                stamp_hit(check_create, created, window),
                stamp_hit(check_modify, modified, window),
            ),
        )
    }
}

/// One match line: the path, a space, and the annotation in parentheses.
pub open spec fn match_line(path: Seq<char>, annotation: Seq<char>) -> Seq<char> {
    path + " ("@ + annotation + ")"@
}

/// What evaluating one entry yields: `Ok(None)` for anything that is not
/// a regular file or whose annotation is empty, `Ok(Some(line))` for a
/// match, and `Err` when an enabled predicate's timestamp failed.
pub open spec fn spec_evaluate(e: Entry, cfg: ScanConfig) -> Result<Option<Seq<char>>, AmbleError> {
    if !(e.kind is File) {
        Ok(None)
    } else {
        match spec_file_outcome(
            e.accessed,
            e.created,
            e.modified,
            cfg.access,
            cfg.create_enabled(),
            cfg.modify,
            spec_window_secs(cfg.days_micro),
        ) {
            Err(er) => Err(er),
            Ok(annotation) => if annotation.len() == 0 {
                Ok(None)
            } else {
                Ok(Some(match_line(e.path@, annotation)))
            },
        }
    }
}

/// Build the annotation string for the predicates that hit.
fn annotate(access_hit: bool, create_hit: bool, modify_hit: bool) -> (s: String)
    ensures
        s@ == spec_annotation(access_hit, create_hit, modify_hit),
{
    let mut s = String::new();
    if access_hit {
        s.append("a");
    }
    if create_hit {
        s.append("c");
    }
    if modify_hit {
        s.append("m");
    }
    proof {
        reveal_strlit("a");
        reveal_strlit("c");
        reveal_strlit("m");
        assert(("a")@ =~= seq!['a']);
        assert(("c")@ =~= seq!['c']);
        assert(("m")@ =~= seq!['m']);
        assert(s@ =~= spec_annotation(access_hit, create_hit, modify_hit));
    }
    s
}

/// Evaluate the stamps of one regular file at `path` and render a match
/// line if at least one requested predicate hits.
pub fn evaluate_file(
    path: &String,
    accessed: &Stamp,
    created: &Stamp,
    modified: &Stamp,
    cfg: &ScanConfig,
) -> (r: Result<Option<String>, AmbleError>)
    requires
        cfg.wf(),
    ensures
        ({
            let outcome = spec_file_outcome(
                *accessed,
                *created,
                *modified,
                cfg.access,
                cfg.create_enabled(),
                cfg.modify,
                spec_window_secs(cfg.days_micro),
            );
            match r {
                Err(er) => outcome == Err::<Seq<char>, AmbleError>(er),
                Ok(opt) => {
                    &&& outcome is Ok
                    &&& match opt {
                        None => outcome->Ok_0.len() == 0,
                        Some(line) => outcome->Ok_0.len() > 0 && line@ == match_line(
                            path@,
                            outcome->Ok_0,
                        ),
                    }
                },
            }
        }),
{
    let w = window_secs(cfg.days_micro);
    let access_hit: bool;
    if cfg.access {
        match accessed {
            Ok(t) => {
                access_hit = *t < w;
            },
            Err(e) => {
                return Err(e.clone());
            },
        }
    } else {
        access_hit = false;
    }
    let create_hit: bool;
    if cfg.create && cfg.create_supported {
        match created {
            Ok(t) => {
                create_hit = *t < w;
            },
            Err(e) => {
                return Err(e.clone());
            },
        }
    } else {
        create_hit = false;
    }
    let modify_hit: bool;
    if cfg.modify {
        match modified {
            Ok(t) => {
                modify_hit = *t < w;
            },
            Err(e) => {
                return Err(e.clone());
            },
        }
    } else {
        modify_hit = false;
    }
    if !(access_hit || create_hit || modify_hit) {
        return Ok(None);
    }
    let meta = annotate(access_hit, create_hit, modify_hit);
    let line = path.clone().concat(" (").concat(meta.as_str()).concat(")");
    Ok(Some(line))
}

/// Evaluate one entry: directories and other non-file kinds always
/// short-circuit to no match, without error.
pub fn evaluate(entry: &Entry, cfg: &ScanConfig) -> (r: Result<Option<String>, AmbleError>)
    requires
        cfg.wf(),
    ensures
        ({
            let outcome = spec_evaluate(*entry, *cfg);
            match r {
                Err(er) => outcome == Err::<Option<Seq<char>>, AmbleError>(er),
                Ok(opt) => {
                    &&& outcome is Ok
                    &&& match opt {
                        None => outcome->Ok_0 is None,
                        Some(line) => outcome->Ok_0 is Some && line@ == outcome->Ok_0->Some_0,
                    }
                },
            }
        }),
{
    if !matches!(entry.kind, EntryKind::File) {
        return Ok(None);
    }
    evaluate_file(&entry.path, &entry.accessed, &entry.created, &entry.modified, cfg)
}

} // verus!
