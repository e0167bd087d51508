//! Higher-order pattern unification over values: makes two values
//! definitionally equal by solving metavariables.
//!
//! A metavariable applied to a spine of distinct rigid variables (a
//! *pattern*) is solved by renaming the other side into the
//! metavariable's scope and wrapping it in one lambda per spine entry.
//! The occurs check and the scope (escape) check run during that
//! renaming. Two spines of the same metavariable are intersected: the
//! argument positions on which they disagree are discarded by refining
//! the metavariable to a fresh one applied to the surviving positions.

use vstd::prelude::*;

use crate::semantics::Closure;
use crate::semantics::Elim;
use crate::semantics::Head;
use crate::semantics::MetaEntry;
use crate::semantics::Telescope;
use crate::semantics::Value;
use crate::semantics::apply_closure_spec;
use crate::semantics::apply_spec;
use crate::semantics::clone_value;
use crate::semantics::eval_spec;
use crate::semantics::force_spec;
use crate::semantics::fresh_spec;
use crate::semantics::labels_eq_spec;
use crate::semantics::proj_spec;
use crate::semantics::quote_spec;
use crate::syntax::Const;
use crate::syntax::List;
use crate::syntax::StringId;
use crate::syntax::Term;
use crate::syntax::const_eq_spec;

verus! {

/// Why unification failed.
#[derive(Debug, Copy, Clone, PartialEq, Eq, Structural)]
pub enum UnifyError {
    /// The two values have incompatible shapes, or a metavariable was
    /// applied to a spine that is not a pattern.
    Mismatch,
    /// The right-hand side mentions a rigid variable that is not among
    /// the metavariable's pattern arguments.
    Escape,
    /// The metavariable being solved occurs in its own solution.
    Occurs,
}

/// The result of a unification step: the (possibly extended or updated)
/// flexible environment, and success or an error.
pub type UnifyOutcome = (List<MetaEntry>, Result<(), UnifyError>);

/// Whether a list of levels contains a level.
pub open spec fn contains_level_spec(pat: List<usize>, x: usize) -> bool
    decreases pat,
{
    match pat {
        List::Nil => false,
        List::Cons(y, rest) => *y == x || contains_level_spec(*rest, x),
    }
}

/// Whether the levels of a pattern are pairwise distinct.
pub open spec fn distinct_levels_spec(pat: List<usize>) -> bool
    decreases pat,
{
    match pat {
        List::Nil => true,
        List::Cons(x, rest) => !contains_level_spec(*rest, *x) && distinct_levels_spec(*rest),
    }
}

/// The position of a level in a pattern, counted from the front.
pub open spec fn pat_position_spec(pat: List<usize>, level: usize) -> Option<usize>
    decreases pat,
{
    match pat {
        List::Nil => None,
        List::Cons(x, rest) => if *x == level {
            Some(0)
        } else {
            match pat_position_spec(*rest, level) {
                Some(j) => if j < usize::MAX {
                    Some((j + 1) as usize)
                } else {
                    None
                },
                None => None,
            }
        },
    }
}

/// The levels of a spine that is a pattern: every elimination must be an
/// application of a bare rigid variable (looked at through solved
/// metavariables). The outer `None` means the fuel ran out; the inner
/// `None` means the spine is not a pattern.
pub open spec fn spine_pattern_spec(ms: List<MetaEntry>, spine: List<Elim>, fuel: nat)
    -> Option<Option<List<usize>>>
    decreases fuel,
{
    if fuel == 0 {
        None
    } else {
        let f = (fuel - 1) as nat;
        match spine {
            List::Nil => Some(Some(List::Nil)),
            List::Cons(e, rest) => match *e {
                Elim::FunApp(arg) => match force_spec(ms, *arg, f) {
                    None => None,
                    Some(Value::Stuck(Head::RigidVar(x), List::Nil)) => match spine_pattern_spec(
                        ms,
                        *rest,
                        f,
                    ) {
                        Some(Some(ps)) => Some(Some(List::Cons(Box::new(x), Box::new(ps)))),
                        other => other,
                    },
                    Some(_) => Some(None),
                },
                _ => Some(None),
            },
        }
    }
}

/// Rename a quoted term from the unification scope (of depth `size`)
/// into the scope of a metavariable solution with `n` lambda binders,
/// one per pattern entry. `depth` counts the binders crossed inside the
/// term. A rigid variable whose level is not in the pattern escapes; an
/// occurrence of the metavariable `m` itself fails the occurs check.
pub open spec fn rename_term_spec(
    m: usize,
    pat: List<usize>,
    n: usize,
    size: usize,
    t: Term,
    depth: usize,
) -> Result<Term, UnifyError>
    decreases t,
{
    match t {
        Term::RigidVar(idx) => if idx < depth {
            Ok(Term::RigidVar(idx))
        } else {
            let off = (idx - depth) as usize;
            if off >= size {
                Err(UnifyError::Escape)
            } else {
                let level = (size - 1 - off) as usize;
                match pat_position_spec(pat, level) {
                    None => Err(UnifyError::Escape),
                    Some(j) => if j < n && depth <= usize::MAX - n {
                        Ok(Term::RigidVar((n + depth - 1 - j) as usize))
                    } else {
                        Err(UnifyError::Escape)
                    },
                }
            }
        },
        Term::FlexibleVar(m2) => if m2 == m {
            Err(UnifyError::Occurs)
        } else {
            Ok(Term::FlexibleVar(m2))
        },
        Term::FlexibleInsertion(m2, infos) => if m2 == m {
            Err(UnifyError::Occurs)
        } else {
            Ok(Term::FlexibleInsertion(m2, infos))
        },
        Term::Ann(e, ty) => match rename_term_spec(m, pat, n, size, *e, depth) {
            Ok(e2) => match rename_term_spec(m, pat, n, size, *ty, depth) {
                Ok(ty2) => Ok(Term::Ann(Box::new(e2), Box::new(ty2))),
                Err(err) => Err(err),
            },
            Err(err) => Err(err),
        },
        Term::Let(name, ty, d, b) => if depth < usize::MAX {
            match rename_term_spec(m, pat, n, size, *ty, depth) {
                Ok(ty2) => match rename_term_spec(m, pat, n, size, *d, depth) {
                    Ok(d2) => match rename_term_spec(m, pat, n, size, *b, (depth + 1) as usize) {
                        Ok(b2) => Ok(
                            Term::Let(name, Box::new(ty2), Box::new(d2), Box::new(b2)),
                        ),
                        Err(err) => Err(err),
                    },
                    Err(err) => Err(err),
                },
                Err(err) => Err(err),
            }
        } else {
            Err(UnifyError::Escape)
        },
        Term::Universe => Ok(Term::Universe),
        Term::FunType(name, dom, cod) => if depth < usize::MAX {
            match rename_term_spec(m, pat, n, size, *dom, depth) {
                Ok(dom2) => match rename_term_spec(m, pat, n, size, *cod, (depth + 1) as usize) {
                    Ok(cod2) => Ok(Term::FunType(name, Box::new(dom2), Box::new(cod2))),
                    Err(err) => Err(err),
                },
                Err(err) => Err(err),
            }
        } else {
            Err(UnifyError::Escape)
        },
        Term::FunLit(name, b) => if depth < usize::MAX {
            match rename_term_spec(m, pat, n, size, *b, (depth + 1) as usize) {
                Ok(b2) => Ok(Term::FunLit(name, Box::new(b2))),
                Err(err) => Err(err),
            }
        } else {
            Err(UnifyError::Escape)
        },
        Term::FunApp(fun, arg) => match rename_term_spec(m, pat, n, size, *fun, depth) {
            Ok(f2) => match rename_term_spec(m, pat, n, size, *arg, depth) {
                Ok(a2) => Ok(Term::FunApp(Box::new(f2), Box::new(a2))),
                Err(err) => Err(err),
            },
            Err(err) => Err(err),
        },
        Term::RecordType(ls, ts) => match rename_tele_spec(m, pat, n, size, ts, depth) {
            Ok(ts2) => Ok(Term::RecordType(ls, ts2)),
            Err(err) => Err(err),
        },
        Term::RecordLit(ls, ts) => match rename_terms_spec(m, pat, n, size, ts, depth) {
            Ok(ts2) => Ok(Term::RecordLit(ls, ts2)),
            Err(err) => Err(err),
        },
        Term::RecordProj(e, l) => match rename_term_spec(m, pat, n, size, *e, depth) {
            Ok(e2) => Ok(Term::RecordProj(Box::new(e2), l)),
            Err(err) => Err(err),
        },
        Term::ArrayLit(ts) => match rename_terms_spec(m, pat, n, size, ts, depth) {
            Ok(ts2) => Ok(Term::ArrayLit(ts2)),
            Err(err) => Err(err),
        },
        Term::FormatRecord(ls, ts) => match rename_tele_spec(m, pat, n, size, ts, depth) {
            Ok(ts2) => Ok(Term::FormatRecord(ls, ts2)),
            Err(err) => Err(err),
        },
        Term::FormatOverlap(ls, ts) => match rename_tele_spec(m, pat, n, size, ts, depth) {
            Ok(ts2) => Ok(Term::FormatOverlap(ls, ts2)),
            Err(err) => Err(err),
        },
        Term::Prim(p) => Ok(Term::Prim(p)),
        Term::ConstLit(c) => Ok(Term::ConstLit(c)),
        Term::ConstMatch(e, bs, d) => match rename_term_spec(m, pat, n, size, *e, depth) {
            Ok(e2) => match rename_branch_terms_spec(m, pat, n, size, bs, depth) {
                Ok(bs2) => match d {
                    Some(dt) => match rename_term_spec(m, pat, n, size, *dt, depth) {
                        Ok(d2) => Ok(
                            Term::ConstMatch(Box::new(e2), bs2, Some(Box::new(d2))),
                        ),
                        Err(err) => Err(err),
                    },
                    None => Ok(Term::ConstMatch(Box::new(e2), bs2, None)),
                },
                Err(err) => Err(err),
            },
            Err(err) => Err(err),
        },
    }
}

/// Rename a list of terms that all live at the same depth.
pub open spec fn rename_terms_spec(
    m: usize,
    pat: List<usize>,
    n: usize,
    size: usize,
    ts: List<Term>,
    depth: usize,
) -> Result<List<Term>, UnifyError>
    decreases ts,
{
    match ts {
        List::Nil => Ok(List::Nil),
        List::Cons(t, rest) => match rename_term_spec(m, pat, n, size, *t, depth) {
            Ok(t2) => match rename_terms_spec(m, pat, n, size, *rest, depth) {
                Ok(ts2) => Ok(List::Cons(Box::new(t2), Box::new(ts2))),
                Err(err) => Err(err),
            },
            Err(err) => Err(err),
        },
    }
}

/// Rename the fields of a telescope: each field lives one binder deeper
/// than the one before it.
pub open spec fn rename_tele_spec(
    m: usize,
    pat: List<usize>,
    n: usize,
    size: usize,
    ts: List<Term>,
    depth: usize,
) -> Result<List<Term>, UnifyError>
    decreases ts,
{
    match ts {
        List::Nil => Ok(List::Nil),
        List::Cons(t, rest) => if depth < usize::MAX {
            match rename_term_spec(m, pat, n, size, *t, depth) {
                Ok(t2) => match rename_tele_spec(m, pat, n, size, *rest, (depth + 1) as usize) {
                    Ok(ts2) => Ok(List::Cons(Box::new(t2), Box::new(ts2))),
                    Err(err) => Err(err),
                },
                Err(err) => Err(err),
            }
        } else {
            Err(UnifyError::Escape)
        },
    }
}

/// Rename the branches of a constant match (patterns bind nothing).
pub open spec fn rename_branch_terms_spec(
    m: usize,
    pat: List<usize>,
    n: usize,
    size: usize,
    bs: List<(Const, Term)>,
    depth: usize,
) -> Result<List<(Const, Term)>, UnifyError>
    decreases bs,
{
    match bs {
        List::Nil => Ok(List::Nil),
        List::Cons(b, rest) => match rename_term_spec(m, pat, n, size, (*b).1, depth) {
            Ok(t2) => match rename_branch_terms_spec(m, pat, n, size, *rest, depth) {
                Ok(bs2) => Ok(List::Cons(Box::new(((*b).0, t2)), Box::new(bs2))),
                Err(err) => Err(err),
            },
            Err(err) => Err(err),
        },
    }
}

/// Wrap a term in one lambda per pattern entry.
pub open spec fn wrap_lambdas_spec(pat: List<usize>, t: Term) -> Term
    decreases pat,
{
    match pat {
        List::Nil => t,
        List::Cons(_, rest) => Term::FunLit(None, Box::new(wrap_lambdas_spec(*rest, t))),
    }
}

/// The flexible environment with entry `m` solved to `v`.
pub open spec fn set_meta_spec(ms: List<MetaEntry>, m: usize, v: Value) -> List<MetaEntry>
    decreases ms,
{
    match ms {
        List::Nil => List::Nil,
        List::Cons(e, rest) => if m == 0 {
            List::Cons(Box::new(MetaEntry::Solved(Box::new(v))), rest)
        } else {
            List::Cons(e, Box::new(set_meta_spec(*rest, (m - 1) as usize, v)))
        },
    }
}

/// The flexible environment with one fresh unsolved entry at the end.
pub open spec fn push_meta_spec(ms: List<MetaEntry>) -> List<MetaEntry>
    decreases ms,
{
    match ms {
        List::Nil => List::Cons(Box::new(MetaEntry::Unsolved), Box::new(List::Nil)),
        List::Cons(e, rest) => List::Cons(e, Box::new(push_meta_spec(*rest))),
    }
}

/// Which argument positions two patterns agree on; `None` when their
/// lengths differ.
pub open spec fn intersect_flags_spec(p1: List<usize>, p2: List<usize>) -> Option<List<bool>>
    decreases p1,
{
    match (p1, p2) {
        (List::Nil, List::Nil) => Some(List::Nil),
        (List::Cons(x, xr), List::Cons(y, yr)) => match intersect_flags_spec(*xr, *yr) {
            Some(fs) => Some(List::Cons(Box::new(*x == *y), Box::new(fs))),
            None => None,
        },
        (_, _) => None,
    }
}

/// Whether every flag is set.
pub open spec fn all_flags_spec(fs: List<bool>) -> bool
    decreases fs,
{
    match fs {
        List::Nil => true,
        List::Cons(b, rest) => *b && all_flags_spec(*rest),
    }
}

/// Apply a head term to the rigid variables of the surviving positions:
/// position `j` (from the front) has de Bruijn index `n - 1 - j` under
/// the `n` lambda binders of the refined solution.
pub open spec fn apply_survivors_spec(flags: List<bool>, n: usize, j: usize, acc: Term) -> Term
    decreases flags,
{
    match flags {
        List::Nil => acc,
        List::Cons(keep, rest) => {
            let acc2 = if *keep && j < n {
                Term::FunApp(Box::new(acc), Box::new(Term::RigidVar((n - 1 - j) as usize)))
            } else {
                acc
            };
            if j < usize::MAX {
                apply_survivors_spec(*rest, n, (j + 1) as usize, acc2)
            } else {
                acc2
            }
        },
    }
}

} // verus!

verus! {

/// What unifying two values under `size` bound variables yields: the
/// updated flexible environment, and success (the sides are now
/// definitionally equal) or an error. `None` means the fuel ran out.
pub open spec fn unify_spec(ms: List<MetaEntry>, size: usize, v1: Value, v2: Value, fuel: nat)
    -> Option<UnifyOutcome>
    decreases fuel,
{
    if fuel == 0 {
        None
    } else {
        let f = (fuel - 1) as nat;
        match (force_spec(ms, v1, f), force_spec(ms, v2, f)) {
            (Some(a), Some(b)) => unify_forced_spec(ms, size, a, b, f),
            (_, _) => None,
        }
    }
}

/// Unification of two already-forced values. The error sentinel and the
/// reported-error primitive absorb: they unify with anything, so one
/// reported diagnostic does not cascade.
pub open spec fn unify_forced_spec(ms: List<MetaEntry>, size: usize, a: Value, b: Value, fuel: nat)
    -> Option<UnifyOutcome>
    decreases fuel,
{
    if fuel == 0 {
        None
    } else {
        let f = (fuel - 1) as nat;
        match (a, b) {
            (Value::Error, _) => Some((ms, Ok(()))),
            (_, Value::Error) => Some((ms, Ok(()))),
            (Value::Stuck(Head::Prim(crate::syntax::Prim::ReportedError), _), _) => Some(
                (ms, Ok(())),
            ),
            (_, Value::Stuck(Head::Prim(crate::syntax::Prim::ReportedError), _)) => Some(
                (ms, Ok(())),
            ),
            (Value::Universe, Value::Universe) => Some((ms, Ok(()))),
            (Value::ConstLit(x), Value::ConstLit(y)) => if const_eq_spec(x, y) {
                Some((ms, Ok(())))
            } else {
                Some((ms, Err(UnifyError::Mismatch)))
            },
            (Value::FunType(_, d1, c1), Value::FunType(_, d2, c2)) => match unify_spec(
                ms,
                size,
                *d1,
                *d2,
                f,
            ) {
                Some((ms2, Ok(()))) => unify_closures_spec(ms2, size, c1, c2, f),
                other => other,
            },
            (Value::FunLit(_, c1), Value::FunLit(_, c2)) => unify_closures_spec(ms, size, c1, c2, f),
            (Value::RecordType(ls1, t1), Value::RecordType(ls2, t2)) => if labels_eq_spec(ls1, ls2) {
                unify_teles_spec(ms, size, t1, t2, f)
            } else {
                Some((ms, Err(UnifyError::Mismatch)))
            },
            (Value::FormatRecord(ls1, t1), Value::FormatRecord(ls2, t2)) => if labels_eq_spec(
                ls1,
                ls2,
            ) {
                unify_teles_spec(ms, size, t1, t2, f)
            } else {
                Some((ms, Err(UnifyError::Mismatch)))
            },
            (Value::FormatOverlap(ls1, t1), Value::FormatOverlap(ls2, t2)) => if labels_eq_spec(
                ls1,
                ls2,
            ) {
                unify_teles_spec(ms, size, t1, t2, f)
            } else {
                Some((ms, Err(UnifyError::Mismatch)))
            },
            (Value::RecordLit(ls1, vs1), Value::RecordLit(ls2, vs2)) => if labels_eq_spec(ls1, ls2) {
                unify_values_spec(ms, size, vs1, vs2, f)
            } else {
                Some((ms, Err(UnifyError::Mismatch)))
            },
            (Value::ArrayLit(vs1), Value::ArrayLit(vs2)) => unify_values_spec(ms, size, vs1, vs2, f),
            (Value::Stuck(Head::FlexibleVar(m1), sp1), Value::Stuck(Head::FlexibleVar(m2), sp2)) => if m1
                == m2 {
                intersect_spec(ms, size, m1, sp1, sp2, f)
            } else {
                solve_spec(ms, size, m1, sp1, Value::Stuck(Head::FlexibleVar(m2), sp2), f)
            },
            (Value::Stuck(Head::FlexibleVar(m), sp), other) => solve_spec(ms, size, m, sp, other, f),
            (other, Value::Stuck(Head::FlexibleVar(m), sp)) => solve_spec(ms, size, m, sp, other, f),
            (Value::FunLit(_, c1), Value::Stuck(h, sp)) => if size < usize::MAX {
                match (
                    apply_closure_spec(ms, c1, fresh_spec(size), f),
                    apply_spec(ms, Value::Stuck(h, sp), fresh_spec(size), f),
                ) {
                    (Some(b1), Some(b2)) => unify_spec(ms, (size + 1) as usize, b1, b2, f),
                    (_, _) => None,
                }
            } else {
                None
            },
            (Value::Stuck(h, sp), Value::FunLit(_, c2)) => if size < usize::MAX {
                match (
                    apply_spec(ms, Value::Stuck(h, sp), fresh_spec(size), f),
                    apply_closure_spec(ms, c2, fresh_spec(size), f),
                ) {
                    (Some(b1), Some(b2)) => unify_spec(ms, (size + 1) as usize, b1, b2, f),
                    (_, _) => None,
                }
            } else {
                None
            },
            (Value::RecordLit(ls1, vs1), Value::Stuck(h, sp)) => unify_eta_record_spec(
                ms,
                size,
                ls1,
                vs1,
                Value::Stuck(h, sp),
                f,
            ),
            (Value::Stuck(h, sp), Value::RecordLit(ls2, vs2)) => unify_eta_record_spec(
                ms,
                size,
                ls2,
                vs2,
                Value::Stuck(h, sp),
                f,
            ),
            (Value::Stuck(h1, sp1), Value::Stuck(h2, sp2)) => if h1 == h2 {
                unify_spines_spec(ms, size, sp1, sp2, f)
            } else {
                Some((ms, Err(UnifyError::Mismatch)))
            },
            (_, _) => Some((ms, Err(UnifyError::Mismatch))),
        }
    }
}

/// Unify two closures: apply both to the same fresh variable.
pub open spec fn unify_closures_spec(ms: List<MetaEntry>, size: usize, c1: Closure, c2: Closure, fuel: nat)
    -> Option<UnifyOutcome>
    decreases fuel,
{
    if fuel == 0 {
        None
    } else if size < usize::MAX {
        let f = (fuel - 1) as nat;
        match (
            apply_closure_spec(ms, c1, fresh_spec(size), f),
            apply_closure_spec(ms, c2, fresh_spec(size), f),
        ) {
            (Some(b1), Some(b2)) => unify_spec(ms, (size + 1) as usize, b1, b2, f),
            (_, _) => None,
        }
    } else {
        None
    }
}

/// Unify two value lists pointwise.
pub open spec fn unify_values_spec(
    ms: List<MetaEntry>,
    size: usize,
    vs1: List<Value>,
    vs2: List<Value>,
    fuel: nat,
) -> Option<UnifyOutcome>
    decreases fuel,
{
    if fuel == 0 {
        None
    } else {
        let f = (fuel - 1) as nat;
        match (vs1, vs2) {
            (List::Nil, List::Nil) => Some((ms, Ok(()))),
            (List::Cons(v1, r1), List::Cons(v2, r2)) => match unify_spec(ms, size, *v1, *v2, f) {
                Some((ms2, Ok(()))) => unify_values_spec(ms2, size, *r1, *r2, f),
                other => other,
            },
            (_, _) => Some((ms, Err(UnifyError::Mismatch))),
        }
    }
}

/// Unify two telescopes, field type by field type.
pub open spec fn unify_teles_spec(ms: List<MetaEntry>, size: usize, t1: Telescope, t2: Telescope, fuel: nat)
    -> Option<UnifyOutcome>
    decreases fuel,
{
    if fuel == 0 {
        None
    } else {
        let f = (fuel - 1) as nat;
        match (*t1.terms, *t2.terms) {
            (List::Nil, List::Nil) => Some((ms, Ok(()))),
            (List::Cons(a1, r1), List::Cons(a2, r2)) => if size < usize::MAX {
                match (eval_spec(ms, *t1.env, *a1, f), eval_spec(ms, *t2.env, *a2, f)) {
                    (Some(x1), Some(x2)) => match unify_spec(ms, size, x1, x2, f) {
                        Some((ms2, Ok(()))) => unify_teles_spec(
                            ms2,
                            (size + 1) as usize,
                            Telescope {
                                env: Box::new(List::Cons(Box::new(fresh_spec(size)), t1.env)),
                                terms: r1,
                            },
                            Telescope {
                                env: Box::new(List::Cons(Box::new(fresh_spec(size)), t2.env)),
                                terms: r2,
                            },
                            f,
                        ),
                        other => other,
                    },
                    (_, _) => None,
                }
            } else {
                None
            },
            (_, _) => Some((ms, Err(UnifyError::Mismatch))),
        }
    }
}

/// Eta unification of a record literal against a neutral value.
pub open spec fn unify_eta_record_spec(
    ms: List<MetaEntry>,
    size: usize,
    ls: List<StringId>,
    vs: List<Value>,
    neutral: Value,
    fuel: nat,
) -> Option<UnifyOutcome>
    decreases fuel,
{
    if fuel == 0 {
        None
    } else {
        let f = (fuel - 1) as nat;
        match (ls, vs) {
            (List::Nil, List::Nil) => Some((ms, Ok(()))),
            (List::Cons(l, lrest), List::Cons(v, vrest)) => match proj_spec(ms, neutral, *l, f) {
                Some(p) => match unify_spec(ms, size, *v, p, f) {
                    Some((ms2, Ok(()))) => unify_eta_record_spec(ms2, size, *lrest, *vrest, neutral, f),
                    other => other,
                },
                None => None,
            },
            (_, _) => Some((ms, Err(UnifyError::Mismatch))),
        }
    }
}

/// Unify two spines pointwise. Stuck constant matches are compared for
/// definitional equality rather than unified, so no metavariable is
/// solved from inside match branches.
pub open spec fn unify_spines_spec(
    ms: List<MetaEntry>,
    size: usize,
    sp1: List<Elim>,
    sp2: List<Elim>,
    fuel: nat,
) -> Option<UnifyOutcome>
    decreases fuel,
{
    if fuel == 0 {
        None
    } else {
        let f = (fuel - 1) as nat;
        match (sp1, sp2) {
            (List::Nil, List::Nil) => Some((ms, Ok(()))),
            (List::Cons(e1, r1), List::Cons(e2, r2)) => {
                let once = match (*e1, *e2) {
                    (Elim::FunApp(a1), Elim::FunApp(a2)) => unify_spec(ms, size, *a1, *a2, f),
                    (Elim::RecordProj(l1), Elim::RecordProj(l2)) => if l1 == l2 {
                        Some((ms, Ok(())))
                    } else {
                        Some((ms, Err(UnifyError::Mismatch)))
                    },
                    (Elim::ConstMatch(b1), Elim::ConstMatch(b2)) => match crate::semantics::branches_eq_spec(
                        ms,
                        size,
                        b1,
                        b2,
                        f,
                    ) {
                        Some(true) => Some((ms, Ok(()))),
                        Some(false) => Some((ms, Err(UnifyError::Mismatch))),
                        None => None,
                    },
                    (_, _) => Some((ms, Err(UnifyError::Mismatch))),
                };
                match once {
                    Some((ms2, Ok(()))) => unify_spines_spec(ms2, size, *r1, *r2, f),
                    other => other,
                }
            },
            (_, _) => Some((ms, Err(UnifyError::Mismatch))),
        }
    }
}

/// Solve `?m spine := rhs`: check the spine is a pattern of distinct
/// rigid variables, quote the right-hand side, rename it into the
/// metavariable's scope (running the occurs and escape checks), wrap it
/// in one lambda per pattern entry, and record the evaluated solution.
pub open spec fn solve_spec(
    ms: List<MetaEntry>,
    size: usize,
    m: usize,
    spine: List<Elim>,
    rhs: Value,
    fuel: nat,
) -> Option<UnifyOutcome>
    decreases fuel,
{
    if fuel == 0 {
        None
    } else {
        let f = (fuel - 1) as nat;
        match spine_pattern_spec(ms, spine, f) {
            None => None,
            Some(None) => Some((ms, Err(UnifyError::Mismatch))),
            Some(Some(pat)) => if !distinct_levels_spec(pat) || pat.slen() > usize::MAX {
                Some((ms, Err(UnifyError::Mismatch)))
            } else {
                match quote_spec(ms, size, rhs, f) {
                    None => None,
                    Some(t) => match rename_term_spec(m, pat, pat.slen() as usize, size, t, 0) {
                        Err(e) => Some((ms, Err(e))),
                        Ok(t2) => {
                            let sol_term = wrap_lambdas_spec(pat, t2);
                            match eval_spec(ms, List::Nil, sol_term, f) {
                                None => None,
                                Some(sol) => Some((set_meta_spec(ms, m, sol), Ok(()))),
                            }
                        },
                    },
                }
            },
        }
    }
}

/// Unify two spines of the same metavariable: where they agree the
/// position survives; where they differ the position is discarded by
/// refining the metavariable to a fresh one applied to the survivors.
pub open spec fn intersect_spec(
    ms: List<MetaEntry>,
    size: usize,
    m: usize,
    sp1: List<Elim>,
    sp2: List<Elim>,
    fuel: nat,
) -> Option<UnifyOutcome>
    decreases fuel,
{
    if fuel == 0 {
        None
    } else {
        let f = (fuel - 1) as nat;
        match (spine_pattern_spec(ms, sp1, f), spine_pattern_spec(ms, sp2, f)) {
            (Some(Some(p1)), Some(Some(p2))) => match intersect_flags_spec(p1, p2) {
                None => Some((ms, Err(UnifyError::Mismatch))),
                Some(flags) => if all_flags_spec(flags) {
                    Some((ms, Ok(())))
                } else if p1.slen() > usize::MAX || ms.slen() >= usize::MAX {
                    Some((ms, Err(UnifyError::Mismatch)))
                } else {
                    let fresh_id = ms.slen() as usize;
                    let ms2 = push_meta_spec(ms);
                    let n = p1.slen() as usize;
                    let body = apply_survivors_spec(flags, n, 0, Term::FlexibleVar(fresh_id));
                    let sol_term = wrap_lambdas_spec(p1, body);
                    match eval_spec(ms2, List::Nil, sol_term, f) {
                        None => None,
                        Some(sol) => Some((set_meta_spec(ms2, m, sol), Ok(()))),
                    }
                },
            },
            (Some(None), Some(_)) => Some((ms, Err(UnifyError::Mismatch))),
            (Some(_), Some(None)) => Some((ms, Err(UnifyError::Mismatch))),
            (_, _) => None,
        }
    }
}

} // verus!

verus! {

/// Whether a list of levels contains a level.
pub fn contains_level(pat: &List<usize>, x: usize) -> (r: bool)
    ensures
        r == contains_level_spec(*pat, x),
    decreases *pat,
{
    match pat {
        List::Nil => false,
        List::Cons(y, rest) => **y == x || contains_level(rest, x),
    }
}

/// Whether the levels of a pattern are pairwise distinct.
pub fn distinct_levels(pat: &List<usize>) -> (r: bool)
    ensures
        r == distinct_levels_spec(*pat),
    decreases *pat,
{
    match pat {
        List::Nil => true,
        List::Cons(x, rest) => !contains_level(rest, **x) && distinct_levels(rest),
    }
}

/// The position of a level in a pattern, counted from the front.
pub fn pat_position(pat: &List<usize>, level: usize) -> (r: Option<usize>)
    ensures
        r == pat_position_spec(*pat, level),
    decreases *pat,
{
    match pat {
        List::Nil => None,
        List::Cons(x, rest) => if **x == level {
            Some(0)
        } else {
            match pat_position(rest, level) {
                Some(j) => if j < usize::MAX {
                    Some(j + 1)
                } else {
                    None
                },
                None => None,
            }
        },
    }
}

/// The levels of a spine that is a pattern (see `spine_pattern_spec`).
pub fn spine_pattern(ms: &List<MetaEntry>, spine: &List<Elim>, fuel: u64)
    -> (r: Option<Option<List<usize>>>)
    ensures
        r == spine_pattern_spec(*ms, *spine, fuel as nat),
    decreases fuel,
{
    if fuel == 0 {
        return None;
    }
    let f = fuel - 1;
    match spine {
        List::Nil => Some(Some(List::Nil)),
        List::Cons(e, rest) => match &**e {
            Elim::FunApp(arg) => match crate::semantics::force(ms, clone_value(arg), f) {
                None => None,
                Some(av) => match av {
                    Value::Stuck(Head::RigidVar(x), List::Nil) => match spine_pattern(ms, rest, f) {
                        Some(Some(ps)) => Some(Some(List::Cons(Box::new(x), Box::new(ps)))),
                        other => other,
                    },
                    _ => Some(None),
                },
            },
            _ => Some(None),
        },
    }
}

/// Rename a quoted term into a metavariable solution's scope (see
/// `rename_term_spec`).
pub fn rename_term(m: usize, pat: &List<usize>, n: usize, size: usize, t: &Term, depth: usize)
    -> (r: Result<Term, UnifyError>)
    ensures
        r == rename_term_spec(m, *pat, n, size, *t, depth),
    decreases *t,
{
    match t {
        Term::RigidVar(idx) => if *idx < depth {
            Ok(Term::RigidVar(*idx))
        } else {
            let off = *idx - depth;
            if off >= size {
                Err(UnifyError::Escape)
            } else {
                let level = size - 1 - off;
                match pat_position(pat, level) {
                    None => Err(UnifyError::Escape),
                    Some(j) => if j < n && depth <= usize::MAX - n {
                        Ok(Term::RigidVar(n + depth - 1 - j))
                    } else {
                        Err(UnifyError::Escape)
                    },
                }
            }
        },
        Term::FlexibleVar(m2) => if *m2 == m {
            Err(UnifyError::Occurs)
        } else {
            Ok(Term::FlexibleVar(*m2))
        },
        Term::FlexibleInsertion(m2, infos) => if *m2 == m {
            Err(UnifyError::Occurs)
        } else {
            Ok(Term::FlexibleInsertion(*m2, crate::semantics::clone_copy_list(infos)))
        },
        Term::Ann(e, ty) => match rename_term(m, pat, n, size, e, depth) {
            Ok(e2) => match rename_term(m, pat, n, size, ty, depth) {
                Ok(ty2) => Ok(Term::Ann(Box::new(e2), Box::new(ty2))),
                Err(err) => Err(err),
            },
            Err(err) => Err(err),
        },
        Term::Let(name, ty, d, b) => if depth < usize::MAX {
            match rename_term(m, pat, n, size, ty, depth) {
                Ok(ty2) => match rename_term(m, pat, n, size, d, depth) {
                    Ok(d2) => match rename_term(m, pat, n, size, b, depth + 1) {
                        Ok(b2) => Ok(Term::Let(*name, Box::new(ty2), Box::new(d2), Box::new(b2))),
                        Err(err) => Err(err),
                    },
                    Err(err) => Err(err),
                },
                Err(err) => Err(err),
            }
        } else {
            Err(UnifyError::Escape)
        },
        Term::Universe => Ok(Term::Universe),
        Term::FunType(name, dom, cod) => if depth < usize::MAX {
            match rename_term(m, pat, n, size, dom, depth) {
                Ok(dom2) => match rename_term(m, pat, n, size, cod, depth + 1) {
                    Ok(cod2) => Ok(Term::FunType(*name, Box::new(dom2), Box::new(cod2))),
                    Err(err) => Err(err),
                },
                Err(err) => Err(err),
            }
        } else {
            Err(UnifyError::Escape)
        },
        Term::FunLit(name, b) => if depth < usize::MAX {
            match rename_term(m, pat, n, size, b, depth + 1) {
                Ok(b2) => Ok(Term::FunLit(*name, Box::new(b2))),
                Err(err) => Err(err),
            }
        } else {
            Err(UnifyError::Escape)
        },
        Term::FunApp(fun, arg) => match rename_term(m, pat, n, size, fun, depth) {
            Ok(f2) => match rename_term(m, pat, n, size, arg, depth) {
                Ok(a2) => Ok(Term::FunApp(Box::new(f2), Box::new(a2))),
                Err(err) => Err(err),
            },
            Err(err) => Err(err),
        },
        Term::RecordType(ls, ts) => match rename_tele(m, pat, n, size, ts, depth) {
            Ok(ts2) => Ok(Term::RecordType(crate::semantics::clone_copy_list(ls), ts2)),
            Err(err) => Err(err),
        },
        Term::RecordLit(ls, ts) => match rename_terms(m, pat, n, size, ts, depth) {
            Ok(ts2) => Ok(Term::RecordLit(crate::semantics::clone_copy_list(ls), ts2)),
            Err(err) => Err(err),
        },
        Term::RecordProj(e, l) => match rename_term(m, pat, n, size, e, depth) {
            Ok(e2) => Ok(Term::RecordProj(Box::new(e2), *l)),
            Err(err) => Err(err),
        },
        Term::ArrayLit(ts) => match rename_terms(m, pat, n, size, ts, depth) {
            Ok(ts2) => Ok(Term::ArrayLit(ts2)),
            Err(err) => Err(err),
        },
        Term::FormatRecord(ls, ts) => match rename_tele(m, pat, n, size, ts, depth) {
            Ok(ts2) => Ok(Term::FormatRecord(crate::semantics::clone_copy_list(ls), ts2)),
            Err(err) => Err(err),
        },
        Term::FormatOverlap(ls, ts) => match rename_tele(m, pat, n, size, ts, depth) {
            Ok(ts2) => Ok(Term::FormatOverlap(crate::semantics::clone_copy_list(ls), ts2)),
            Err(err) => Err(err),
        },
        Term::Prim(p) => Ok(Term::Prim(*p)),
        Term::ConstLit(c) => Ok(Term::ConstLit(*c)),
        Term::ConstMatch(e, bs, d) => match rename_term(m, pat, n, size, e, depth) {
            Ok(e2) => match rename_branch_terms(m, pat, n, size, bs, depth) {
                Ok(bs2) => match d {
                    Some(dt) => match rename_term(m, pat, n, size, dt, depth) {
                        Ok(d2) => Ok(Term::ConstMatch(Box::new(e2), bs2, Some(Box::new(d2)))),
                        Err(err) => Err(err),
                    },
                    None => Ok(Term::ConstMatch(Box::new(e2), bs2, None)),
                },
                Err(err) => Err(err),
            },
            Err(err) => Err(err),
        },
    }
}

/// Rename a list of terms that all live at the same depth.
pub fn rename_terms(m: usize, pat: &List<usize>, n: usize, size: usize, ts: &List<Term>, depth: usize)
    -> (r: Result<List<Term>, UnifyError>)
    ensures
        r == rename_terms_spec(m, *pat, n, size, *ts, depth),
    decreases *ts,
{
    match ts {
        List::Nil => Ok(List::Nil),
        List::Cons(t, rest) => match rename_term(m, pat, n, size, t, depth) {
            Ok(t2) => match rename_terms(m, pat, n, size, rest, depth) {
                Ok(ts2) => Ok(List::Cons(Box::new(t2), Box::new(ts2))),
                Err(err) => Err(err),
            },
            Err(err) => Err(err),
        },
    }
}

/// Rename the fields of a telescope, one binder deeper per field.
pub fn rename_tele(m: usize, pat: &List<usize>, n: usize, size: usize, ts: &List<Term>, depth: usize)
    -> (r: Result<List<Term>, UnifyError>)
    ensures
        r == rename_tele_spec(m, *pat, n, size, *ts, depth),
    decreases *ts,
{
    match ts {
        List::Nil => Ok(List::Nil),
        List::Cons(t, rest) => if depth < usize::MAX {
            match rename_term(m, pat, n, size, t, depth) {
                Ok(t2) => match rename_tele(m, pat, n, size, rest, depth + 1) {
                    Ok(ts2) => Ok(List::Cons(Box::new(t2), Box::new(ts2))),
                    Err(err) => Err(err),
                },
                Err(err) => Err(err),
            }
        } else {
            Err(UnifyError::Escape)
        },
    }
}

/// Rename the branches of a constant match.
pub fn rename_branch_terms(
    m: usize,
    pat: &List<usize>,
    n: usize,
    size: usize,
    bs: &List<(Const, Term)>,
    depth: usize,
) -> (r: Result<List<(Const, Term)>, UnifyError>)
    ensures
        r == rename_branch_terms_spec(m, *pat, n, size, *bs, depth),
    decreases *bs,
{
    match bs {
        List::Nil => Ok(List::Nil),
        List::Cons(b, rest) => match rename_term(m, pat, n, size, &(**b).1, depth) {
            Ok(t2) => match rename_branch_terms(m, pat, n, size, rest, depth) {
                Ok(bs2) => Ok(List::Cons(Box::new(((**b).0, t2)), Box::new(bs2))),
                Err(err) => Err(err),
            },
            Err(err) => Err(err),
        },
    }
}

/// Wrap a term in one lambda per pattern entry.
pub fn wrap_lambdas(pat: &List<usize>, t: Term) -> (r: Term)
    ensures
        r == wrap_lambdas_spec(*pat, t),
    decreases *pat,
{
    match pat {
        List::Nil => t,
        List::Cons(_, rest) => Term::FunLit(None, Box::new(wrap_lambdas(rest, t))),
    }
}

/// The flexible environment with entry `m` solved to `v`.
pub fn set_meta(ms: &List<MetaEntry>, m: usize, v: Value) -> (r: List<MetaEntry>)
    ensures
        r == set_meta_spec(*ms, m, v),
    decreases *ms,
{
    match ms {
        List::Nil => List::Nil,
        List::Cons(e, rest) => if m == 0 {
            List::Cons(Box::new(MetaEntry::Solved(Box::new(v))), Box::new(clone_metas(rest)))
        } else {
            List::Cons(Box::new(clone_meta(e)), Box::new(set_meta(rest, m - 1, v)))
        },
    }
}

/// The flexible environment with one fresh unsolved entry at the end.
pub fn push_meta(ms: &List<MetaEntry>) -> (r: List<MetaEntry>)
    ensures
        r == push_meta_spec(*ms),
    decreases *ms,
{
    match ms {
        List::Nil => List::Cons(Box::new(MetaEntry::Unsolved), Box::new(List::Nil)),
        List::Cons(e, rest) => List::Cons(Box::new(clone_meta(e)), Box::new(push_meta(rest))),
    }
}

/// Deep copy of a flexible environment entry.
pub fn clone_meta(e: &MetaEntry) -> (r: MetaEntry)
    ensures
        r == *e,
    decreases *e,
{
    match e {
        MetaEntry::Unsolved => MetaEntry::Unsolved,
        MetaEntry::Solved(v) => MetaEntry::Solved(Box::new(clone_value(v))),
    }
}

/// Deep copy of a flexible environment.
pub fn clone_metas(ms: &List<MetaEntry>) -> (r: List<MetaEntry>)
    ensures
        r == *ms,
    decreases *ms,
{
    match ms {
        List::Nil => List::Nil,
        List::Cons(e, rest) => List::Cons(Box::new(clone_meta(e)), Box::new(clone_metas(rest))),
    }
}

/// Which argument positions two patterns agree on.
pub fn intersect_flags(p1: &List<usize>, p2: &List<usize>) -> (r: Option<List<bool>>)
    ensures
        r == intersect_flags_spec(*p1, *p2),
    decreases *p1,
{
    match (p1, p2) {
        (List::Nil, List::Nil) => Some(List::Nil),
        (List::Cons(x, xr), List::Cons(y, yr)) => match intersect_flags(xr, yr) {
            Some(fs) => Some(List::Cons(Box::new(**x == **y), Box::new(fs))),
            None => None,
        },
        (_, _) => None,
    }
}

/// Whether every flag is set.
pub fn all_flags(fs: &List<bool>) -> (r: bool)
    ensures
        r == all_flags_spec(*fs),
    decreases *fs,
{
    match fs {
        List::Nil => true,
        List::Cons(b, rest) => **b && all_flags(rest),
    }
}

/// Apply a head term to the rigid variables of the surviving positions.
pub fn apply_survivors(flags: &List<bool>, n: usize, j: usize, acc: Term) -> (r: Term)
    ensures
        r == apply_survivors_spec(*flags, n, j, acc),
    decreases *flags,
{
    match flags {
        List::Nil => acc,
        List::Cons(keep, rest) => {
            let acc2 = if **keep && j < n {
                Term::FunApp(Box::new(acc), Box::new(Term::RigidVar(n - 1 - j)))
            } else {
                acc
            };
            if j < usize::MAX {
                apply_survivors(rest, n, j + 1, acc2)
            } else {
                acc2
            }
        },
    }
}

} // verus!

verus! {

/// Unify two values under `size` bound variables (see `unify_spec`).
pub fn unify(ms: &List<MetaEntry>, size: usize, v1: Value, v2: Value, fuel: u64)
    -> (r: Option<UnifyOutcome>)
    ensures
        r == unify_spec(*ms, size, v1, v2, fuel as nat),
    decreases fuel,
{
    if fuel == 0 {
        return None;
    }
    let f = fuel - 1;
    match (crate::semantics::force(ms, v1, f), crate::semantics::force(ms, v2, f)) {
        (Some(a), Some(b)) => unify_forced(ms, size, a, b, f),
        (_, _) => None,
    }
}

/// Unification of two already-forced values.
pub fn unify_forced(ms: &List<MetaEntry>, size: usize, a: Value, b: Value, fuel: u64)
    -> (r: Option<UnifyOutcome>)
    ensures
        r == unify_forced_spec(*ms, size, a, b, fuel as nat),
    decreases fuel,
{
    if fuel == 0 {
        return None;
    }
    let f = fuel - 1;
    match (a, b) {
        (Value::Error, _) => Some((clone_metas(ms), Ok(()))),
        (_, Value::Error) => Some((clone_metas(ms), Ok(()))),
        (Value::Stuck(Head::Prim(crate::syntax::Prim::ReportedError), _), _) => Some(
            (clone_metas(ms), Ok(())),
        ),
        (_, Value::Stuck(Head::Prim(crate::syntax::Prim::ReportedError), _)) => Some(
            (clone_metas(ms), Ok(())),
        ),
        (Value::Universe, Value::Universe) => Some((clone_metas(ms), Ok(()))),
        (Value::ConstLit(x), Value::ConstLit(y)) => if x == y {
            Some((clone_metas(ms), Ok(())))
        } else {
            Some((clone_metas(ms), Err(UnifyError::Mismatch)))
        },
        (Value::FunType(_, d1, c1), Value::FunType(_, d2, c2)) => match unify(ms, size, *d1, *d2, f) {
            Some((ms2, Ok(()))) => unify_closures(&ms2, size, &c1, &c2, f),
            other => other,
        },
        (Value::FunLit(_, c1), Value::FunLit(_, c2)) => unify_closures(ms, size, &c1, &c2, f),
        (Value::RecordType(ls1, t1), Value::RecordType(ls2, t2)) => if crate::semantics::labels_eq(
            &ls1,
            &ls2,
        ) {
            unify_teles(ms, size, t1, t2, f)
        } else {
            Some((clone_metas(ms), Err(UnifyError::Mismatch)))
        },
        (Value::FormatRecord(ls1, t1), Value::FormatRecord(ls2, t2)) => if crate::semantics::labels_eq(
            &ls1,
            &ls2,
        ) {
            unify_teles(ms, size, t1, t2, f)
        } else {
            Some((clone_metas(ms), Err(UnifyError::Mismatch)))
        },
        (Value::FormatOverlap(ls1, t1), Value::FormatOverlap(ls2, t2)) => if crate::semantics::labels_eq(
            &ls1,
            &ls2,
        ) {
            unify_teles(ms, size, t1, t2, f)
        } else {
            Some((clone_metas(ms), Err(UnifyError::Mismatch)))
        },
        (Value::RecordLit(ls1, vs1), Value::RecordLit(ls2, vs2)) => if crate::semantics::labels_eq(
            &ls1,
            &ls2,
        ) {
            unify_values(ms, size, &vs1, &vs2, f)
        } else {
            Some((clone_metas(ms), Err(UnifyError::Mismatch)))
        },
        (Value::ArrayLit(vs1), Value::ArrayLit(vs2)) => unify_values(ms, size, &vs1, &vs2, f),
        (Value::Stuck(Head::FlexibleVar(m1), sp1), Value::Stuck(Head::FlexibleVar(m2), sp2)) => if m1
            == m2 {
            intersect(ms, size, m1, &sp1, &sp2, f)
        } else {
            solve(ms, size, m1, &sp1, Value::Stuck(Head::FlexibleVar(m2), sp2), f)
        },
        (Value::Stuck(Head::FlexibleVar(m), sp), other) => solve(ms, size, m, &sp, other, f),
        (other, Value::Stuck(Head::FlexibleVar(m), sp)) => solve(ms, size, m, &sp, other, f),
        (Value::FunLit(_, c1), Value::Stuck(h, sp)) => if size < usize::MAX {
            match (
                crate::semantics::apply_closure(ms, &c1, crate::semantics::fresh(size), f),
                crate::semantics::apply(ms, Value::Stuck(h, sp), crate::semantics::fresh(size), f),
            ) {
                (Some(b1), Some(b2)) => unify(ms, size + 1, b1, b2, f),
                (_, _) => None,
            }
        } else {
            None
        },
        (Value::Stuck(h, sp), Value::FunLit(_, c2)) => if size < usize::MAX {
            match (
                crate::semantics::apply(ms, Value::Stuck(h, sp), crate::semantics::fresh(size), f),
                crate::semantics::apply_closure(ms, &c2, crate::semantics::fresh(size), f),
            ) {
                (Some(b1), Some(b2)) => unify(ms, size + 1, b1, b2, f),
                (_, _) => None,
            }
        } else {
            None
        },
        (Value::RecordLit(ls1, vs1), Value::Stuck(h, sp)) => unify_eta_record(
            ms,
            size,
            &ls1,
            &vs1,
            &Value::Stuck(h, sp),
            f,
        ),
        (Value::Stuck(h, sp), Value::RecordLit(ls2, vs2)) => unify_eta_record(
            ms,
            size,
            &ls2,
            &vs2,
            &Value::Stuck(h, sp),
            f,
        ),
        (Value::Stuck(h1, sp1), Value::Stuck(h2, sp2)) => if h1 == h2 {
            unify_spines(ms, size, &sp1, &sp2, f)
        } else {
            Some((clone_metas(ms), Err(UnifyError::Mismatch)))
        },
        (_, _) => Some((clone_metas(ms), Err(UnifyError::Mismatch))),
    }
}

/// Unify two closures: apply both to the same fresh variable.
pub fn unify_closures(ms: &List<MetaEntry>, size: usize, c1: &Closure, c2: &Closure, fuel: u64)
    -> (r: Option<UnifyOutcome>)
    ensures
        r == unify_closures_spec(*ms, size, *c1, *c2, fuel as nat),
    decreases fuel,
{
    if fuel == 0 {
        return None;
    }
    if size < usize::MAX {
        let f = fuel - 1;
        match (
            crate::semantics::apply_closure(ms, c1, crate::semantics::fresh(size), f),
            crate::semantics::apply_closure(ms, c2, crate::semantics::fresh(size), f),
        ) {
            (Some(b1), Some(b2)) => unify(ms, size + 1, b1, b2, f),
            (_, _) => None,
        }
    } else {
        None
    }
}

/// Unify two value lists pointwise.
pub fn unify_values(ms: &List<MetaEntry>, size: usize, vs1: &List<Value>, vs2: &List<Value>, fuel: u64)
    -> (r: Option<UnifyOutcome>)
    ensures
        r == unify_values_spec(*ms, size, *vs1, *vs2, fuel as nat),
    decreases fuel,
{
    if fuel == 0 {
        return None;
    }
    let f = fuel - 1;
    match (vs1, vs2) {
        (List::Nil, List::Nil) => Some((clone_metas(ms), Ok(()))),
        (List::Cons(v1, r1), List::Cons(v2, r2)) => match unify(
            ms,
            size,
            clone_value(v1),
            clone_value(v2),
            f,
        ) {
            Some((ms2, Ok(()))) => unify_values(&ms2, size, r1, r2, f),
            other => other,
        },
        (_, _) => Some((clone_metas(ms), Err(UnifyError::Mismatch))),
    }
}

/// Unify two telescopes, field type by field type.
pub fn unify_teles(ms: &List<MetaEntry>, size: usize, t1: Telescope, t2: Telescope, fuel: u64)
    -> (r: Option<UnifyOutcome>)
    ensures
        r == unify_teles_spec(*ms, size, t1, t2, fuel as nat),
    decreases fuel,
{
    if fuel == 0 {
        return None;
    }
    let f = fuel - 1;
    match (*t1.terms, *t2.terms) {
        (List::Nil, List::Nil) => Some((clone_metas(ms), Ok(()))),
        (List::Cons(a1, r1), List::Cons(a2, r2)) => if size < usize::MAX {
            match (crate::semantics::eval(ms, &t1.env, &a1, f), crate::semantics::eval(
                ms,
                &t2.env,
                &a2,
                f,
            )) {
                (Some(x1), Some(x2)) => match unify(ms, size, x1, x2, f) {
                    Some((ms2, Ok(()))) => unify_teles(
                        &ms2,
                        size + 1,
                        Telescope {
                            env: Box::new(
                                List::Cons(Box::new(crate::semantics::fresh(size)), t1.env),
                            ),
                            terms: r1,
                        },
                        Telescope {
                            env: Box::new(
                                List::Cons(Box::new(crate::semantics::fresh(size)), t2.env),
                            ),
                            terms: r2,
                        },
                        f,
                    ),
                    other => other,
                },
                (_, _) => None,
            }
        } else {
            None
        },
        (_, _) => Some((clone_metas(ms), Err(UnifyError::Mismatch))),
    }
}

/// Eta unification of a record literal against a neutral value.
pub fn unify_eta_record(
    ms: &List<MetaEntry>,
    size: usize,
    ls: &List<StringId>,
    vs: &List<Value>,
    neutral: &Value,
    fuel: u64,
) -> (r: Option<UnifyOutcome>)
    ensures
        r == unify_eta_record_spec(*ms, size, *ls, *vs, *neutral, fuel as nat),
    decreases fuel,
{
    if fuel == 0 {
        return None;
    }
    let f = fuel - 1;
    match (ls, vs) {
        (List::Nil, List::Nil) => Some((clone_metas(ms), Ok(()))),
        (List::Cons(l, lrest), List::Cons(v, vrest)) => match crate::semantics::proj(
            ms,
            clone_value(neutral),
            **l,
            f,
        ) {
            Some(p) => match unify(ms, size, clone_value(v), p, f) {
                Some((ms2, Ok(()))) => unify_eta_record(&ms2, size, lrest, vrest, neutral, f),
                other => other,
            },
            None => None,
        },
        (_, _) => Some((clone_metas(ms), Err(UnifyError::Mismatch))),
    }
}

/// Unify two spines pointwise.
pub fn unify_spines(ms: &List<MetaEntry>, size: usize, sp1: &List<Elim>, sp2: &List<Elim>, fuel: u64)
    -> (r: Option<UnifyOutcome>)
    ensures
        r == unify_spines_spec(*ms, size, *sp1, *sp2, fuel as nat),
    decreases fuel,
{
    if fuel == 0 {
        return None;
    }
    let f = fuel - 1;
    match (sp1, sp2) {
        (List::Nil, List::Nil) => Some((clone_metas(ms), Ok(()))),
        (List::Cons(e1, r1), List::Cons(e2, r2)) => {
            let once: Option<UnifyOutcome> = match (&**e1, &**e2) {
                (Elim::FunApp(a1), Elim::FunApp(a2)) => unify(
                    ms,
                    size,
                    clone_value(a1),
                    clone_value(a2),
                    f,
                ),
                (Elim::RecordProj(l1), Elim::RecordProj(l2)) => if *l1 == *l2 {
                    Some((clone_metas(ms), Ok(())))
                } else {
                    Some((clone_metas(ms), Err(UnifyError::Mismatch)))
                },
                (Elim::ConstMatch(b1), Elim::ConstMatch(b2)) => match crate::semantics::branches_eq(
                    ms,
                    size,
                    b1,
                    b2,
                    f,
                ) {
                    Some(true) => Some((clone_metas(ms), Ok(()))),
                    Some(false) => Some((clone_metas(ms), Err(UnifyError::Mismatch))),
                    None => None,
                },
                (_, _) => Some((clone_metas(ms), Err(UnifyError::Mismatch))),
            };
            match once {
                Some((ms2, Ok(()))) => unify_spines(&ms2, size, r1, r2, f),
                other => other,
            }
        },
        (_, _) => Some((clone_metas(ms), Err(UnifyError::Mismatch))),
    }
}

/// Solve `?m spine := rhs` (see `solve_spec`).
pub fn solve(ms: &List<MetaEntry>, size: usize, m: usize, spine: &List<Elim>, rhs: Value, fuel: u64)
    -> (r: Option<UnifyOutcome>)
    ensures
        r == solve_spec(*ms, size, m, *spine, rhs, fuel as nat),
    decreases fuel,
{
    if fuel == 0 {
        return None;
    }
    let f = fuel - 1;
    match spine_pattern(ms, spine, f) {
        None => None,
        Some(None) => Some((clone_metas(ms), Err(UnifyError::Mismatch))),
        Some(Some(pat)) => {
            let plen = pat.len();
            if !distinct_levels(&pat) || plen.is_none() {
                Some((clone_metas(ms), Err(UnifyError::Mismatch)))
            } else {
                match crate::semantics::quote(ms, size, rhs, f) {
                    None => None,
                    Some(t) => match rename_term(m, &pat, plen.unwrap(), size, &t, 0) {
                        Err(e) => Some((clone_metas(ms), Err(e))),
                        Ok(t2) => {
                            let sol_term = wrap_lambdas(&pat, t2);
                            match crate::semantics::eval(ms, &List::Nil, &sol_term, f) {
                                None => None,
                                Some(sol) => Some((set_meta(ms, m, sol), Ok(()))),
                            }
                        },
                    },
                }
            }
        },
    }
}

/// Unify two spines of the same metavariable (see `intersect_spec`).
pub fn intersect(ms: &List<MetaEntry>, size: usize, m: usize, sp1: &List<Elim>, sp2: &List<Elim>, fuel: u64)
    -> (r: Option<UnifyOutcome>)
    ensures
        r == intersect_spec(*ms, size, m, *sp1, *sp2, fuel as nat),
    decreases fuel,
{
    if fuel == 0 {
        return None;
    }
    let f = fuel - 1;
    match (spine_pattern(ms, sp1, f), spine_pattern(ms, sp2, f)) {
        (Some(op1), Some(op2)) => match (op1, op2) {
            (Some(p1), Some(p2)) => match intersect_flags(&p1, &p2) {
                None => Some((clone_metas(ms), Err(UnifyError::Mismatch))),
                Some(flags) => if all_flags(&flags) {
                    Some((clone_metas(ms), Ok(())))
                } else {
                    let plen = p1.len();
                    let mlen = ms.len();
                    let len_ok = match (plen, mlen) {
                        (Some(_), Some(k)) => k < usize::MAX,
                        (_, _) => false,
                    };
                    if !len_ok {
                        Some((clone_metas(ms), Err(UnifyError::Mismatch)))
                    } else {
                        let fresh_id = mlen.unwrap();
                        let ms2 = push_meta(ms);
                        let n = plen.unwrap();
                        let body = apply_survivors(&flags, n, 0, Term::FlexibleVar(fresh_id));
                        let sol_term = wrap_lambdas(&p1, body);
                        match crate::semantics::eval(&ms2, &List::Nil, &sol_term, f) {
                            None => None,
                            Some(sol) => Some((set_meta(&ms2, m, sol), Ok(()))),
                        }
                    }
                },
            },
            (None, _) => Some((clone_metas(ms), Err(UnifyError::Mismatch))),
            (_, None) => Some((clone_metas(ms), Err(UnifyError::Mismatch))),
        },
        (_, _) => None,
    }
}

} // verus!

verus! {

/// Law (unification soundness, constant case): when unifying two
/// constants succeeds, the flexible environment is unchanged and the
/// two values are definitionally equal under it.
pub proof fn lemma_unify_sound_consts(ms: List<MetaEntry>, size: usize, a: Const, b: Const, fuel: nat)
    ensures
        match unify_forced_spec(ms, size, Value::ConstLit(a), Value::ConstLit(b), fuel) {
            Some(o) => o.1 is Ok ==> o.0 == ms && crate::semantics::is_equal_forced_spec(
                o.0,
                size,
                Value::ConstLit(a),
                Value::ConstLit(b),
                fuel,
            ) == Some(true),
            None => true,
        },
{
}

} // verus!
