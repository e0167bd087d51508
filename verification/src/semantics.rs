//! The semantic domain and normalization by evaluation: values, closures,
//! neutral terms, and the operations `eval`, `quote`, `normalize` and
//! `is_equal`.
//!
//! Every semantic operation is given twice: a specification function that
//! defines it mathematically, and an executable function proved to return
//! exactly what the specification function says. Recursion is bounded by
//! an explicit fuel; a result of `None` means the fuel ran out (or, for
//! `quote`, that the value was ill-scoped), never a wrong answer.

use vstd::prelude::*;

use crate::syntax::Const;
use crate::syntax::EntryInfo;
use crate::syntax::List;
use crate::syntax::Prim;
use crate::syntax::StringId;
use crate::syntax::Term;
use crate::syntax::const_eq_spec;

verus! {

/// The rigid value environment: the value bound at each de Bruijn level.
/// The head of the list is the most recently bound (highest) level.
pub type Env = List<Value>;

/// An entry of the flexible (metavariable) environment.
#[derive(Debug, PartialEq)]
pub enum MetaEntry {
    /// Not yet solved by unification.
    Unsolved,
    /// Solved: the metavariable stands for this value.
    Solved(Box<Value>),
}

/// A closure: a core term together with the environment it was built in.
/// Applying the closure evaluates the term under the extended environment.
#[derive(Debug, PartialEq)]
pub struct Closure {
    pub env: Box<Env>,
    pub term: Box<Term>,
}

/// A telescope: the field types (or field formats) still to come in a
/// dependent record, under the environment built from the fields already
/// passed.
#[derive(Debug, PartialEq)]
pub struct Telescope {
    pub env: Box<Env>,
    pub terms: Box<List<Term>>,
}

/// The branches of a constant match, as a closure over their environment.
#[derive(Debug, PartialEq)]
pub struct Branches {
    pub env: Box<Env>,
    pub branches: Box<List<(Const, Term)>>,
    pub default: Option<Box<Term>>,
}

/// The head of a neutral value.
#[derive(Debug, Copy, Clone, PartialEq, Eq, Structural)]
pub enum Head {
    /// A rigid variable, as a de Bruijn *level*.
    RigidVar(usize),
    /// An unsolved (at evaluation time) metavariable.
    FlexibleVar(usize),
    /// A primitive, which evaluates to itself as a neutral head.
    Prim(Prim),
}

/// An elimination stuck on a neutral head.
#[derive(Debug, PartialEq)]
pub enum Elim {
    /// A function application.
    FunApp(Box<Value>),
    /// A record projection.
    RecordProj(StringId),
    /// A match on a constant.
    ConstMatch(Branches),
}

/// Semantic values: weak head normal forms and neutral values.
#[derive(Debug, PartialEq)]
pub enum Value {
    /// The type of types.
    Universe,
    /// A dependent function type: name, domain, codomain closure.
    FunType(Option<StringId>, Box<Value>, Closure),
    /// A function literal.
    FunLit(Option<StringId>, Closure),
    /// A dependent record type.
    RecordType(List<StringId>, Telescope),
    /// A record literal.
    RecordLit(List<StringId>, List<Value>),
    /// An array literal.
    ArrayLit(List<Value>),
    /// A record format, whose fields are read in sequence.
    FormatRecord(List<StringId>, Telescope),
    /// An overlap format, whose fields share a starting position.
    FormatOverlap(List<StringId>, Telescope),
    /// A constant.
    ConstLit(Const),
    /// A neutral value: a head and the eliminations stuck on it, in the
    /// order they were applied (head of the list first).
    Stuck(Head, List<Elim>),
    /// A sentinel standing for a value that followed a reported error.
    Error,
}

impl Value {
    /// Whether the value is in weak head normal form (that is, not
    /// neutral: its outermost shape cannot change under more reduction).
    pub fn is_whnf(&self) -> (r: bool)
        ensures
            r == !(*self is Stuck),
    {
        match self {
            Value::Stuck(_, _) => false,
            _ => true,
        }
    }

    /// The labels and telescope of a record type, if this is one.
    pub fn record_ty(&self) -> (r: Option<(&List<StringId>, &Telescope)>)
        ensures
            match r {
                Some(p) => *self == Value::RecordType(*p.0, *p.1),
                None => !(*self is RecordType),
            },
    {
        match self {
            Value::RecordType(labels, tele) => Some((labels, tele)),
            _ => None,
        }
    }

    /// The field of a record literal at a label: the value at the first
    /// occurrence of the label, or nothing when the value is not a
    /// record literal or lacks the label.
    pub fn lookup_record(&self, label: StringId) -> (r: Option<Value>)
        ensures
            r == match *self {
                Value::RecordLit(ls, vs) => proj_lookup_spec(ls, vs, label),
                _ => None::<Value>,
            },
    {
        match self {
            Value::RecordLit(ls, vs) => proj_lookup(ls, vs, label),
            _ => None,
        }
    }

    /// The labels and field values of a record literal, if this is one.
    pub fn record(&self) -> (r: Option<(&List<StringId>, &List<Value>)>)
        ensures
            match r {
                Some(p) => *self == Value::RecordLit(*p.0, *p.1),
                None => !(*self is RecordLit),
            },
    {
        match self {
            Value::RecordLit(labels, values) => Some((labels, values)),
            _ => None,
        }
    }
}

/// Deep copy of a list whose entries are plain copyable data.
pub fn clone_copy_list<T: Copy>(l: &List<T>) -> (r: List<T>)
    ensures
        r == *l,
    decreases *l,
{
    match l {
        List::Nil => List::Nil,
        List::Cons(x, rest) => List::Cons(Box::new(**x), Box::new(clone_copy_list(rest))),
    }
}

/// Deep copy of a core term.
pub fn clone_term(t: &Term) -> (r: Term)
    ensures
        r == *t,
    decreases *t,
{
    match t {
        Term::RigidVar(i) => Term::RigidVar(*i),
        Term::FlexibleVar(m) => Term::FlexibleVar(*m),
        Term::FlexibleInsertion(m, infos) => Term::FlexibleInsertion(*m, clone_copy_list(infos)),
        Term::Ann(e, ty) => Term::Ann(Box::new(clone_term(e)), Box::new(clone_term(ty))),
        Term::Let(n, ty, d, b) => Term::Let(
            *n,
            Box::new(clone_term(ty)),
            Box::new(clone_term(d)),
            Box::new(clone_term(b)),
        ),
        Term::Universe => Term::Universe,
        Term::FunType(n, dom, cod) => Term::FunType(
            *n,
            Box::new(clone_term(dom)),
            Box::new(clone_term(cod)),
        ),
        Term::FunLit(n, b) => Term::FunLit(*n, Box::new(clone_term(b))),
        Term::FunApp(f, a) => Term::FunApp(Box::new(clone_term(f)), Box::new(clone_term(a))),
        Term::RecordType(ls, ts) => Term::RecordType(clone_copy_list(ls), clone_terms(ts)),
        Term::RecordLit(ls, ts) => Term::RecordLit(clone_copy_list(ls), clone_terms(ts)),
        Term::RecordProj(e, l) => Term::RecordProj(Box::new(clone_term(e)), *l),
        Term::ArrayLit(ts) => Term::ArrayLit(clone_terms(ts)),
        Term::FormatRecord(ls, ts) => Term::FormatRecord(clone_copy_list(ls), clone_terms(ts)),
        Term::FormatOverlap(ls, ts) => Term::FormatOverlap(clone_copy_list(ls), clone_terms(ts)),
        Term::Prim(p) => Term::Prim(*p),
        Term::ConstLit(c) => Term::ConstLit(*c),
        Term::ConstMatch(e, branches, default) => Term::ConstMatch(
            Box::new(clone_term(e)),
            clone_const_branches(branches),
            match default {
                Some(d) => Some(Box::new(clone_term(d))),
                None => None,
            },
        ),
    }
}

/// Deep copy of a list of core terms.
pub fn clone_terms(ts: &List<Term>) -> (r: List<Term>)
    ensures
        r == *ts,
    decreases *ts,
{
    match ts {
        List::Nil => List::Nil,
        List::Cons(t, rest) => List::Cons(Box::new(clone_term(t)), Box::new(clone_terms(rest))),
    }
}

/// Deep copy of constant-match branches.
pub fn clone_const_branches(bs: &List<(Const, Term)>) -> (r: List<(Const, Term)>)
    ensures
        r == *bs,
    decreases *bs,
{
    match bs {
        List::Nil => List::Nil,
        List::Cons(b, rest) => List::Cons(
            Box::new(((*b).0, clone_term(&(*b).1))),
            Box::new(clone_const_branches(rest)),
        ),
    }
}

/// Deep copy of a value.
pub fn clone_value(v: &Value) -> (r: Value)
    ensures
        r == *v,
    decreases *v,
{
    match v {
        Value::Universe => Value::Universe,
        Value::FunType(n, dom, cod) => Value::FunType(
            *n,
            Box::new(clone_value(dom)),
            clone_closure(cod),
        ),
        Value::FunLit(n, b) => Value::FunLit(*n, clone_closure(b)),
        Value::RecordType(ls, tele) => Value::RecordType(clone_copy_list(ls), clone_telescope(tele)),
        Value::RecordLit(ls, vs) => Value::RecordLit(clone_copy_list(ls), clone_values(vs)),
        Value::ArrayLit(vs) => Value::ArrayLit(clone_values(vs)),
        Value::FormatRecord(ls, tele) => Value::FormatRecord(
            clone_copy_list(ls),
            clone_telescope(tele),
        ),
        Value::FormatOverlap(ls, tele) => Value::FormatOverlap(
            clone_copy_list(ls),
            clone_telescope(tele),
        ),
        Value::ConstLit(c) => Value::ConstLit(*c),
        Value::Stuck(h, spine) => Value::Stuck(*h, clone_elims(spine)),
        Value::Error => Value::Error,
    }
}

/// Deep copy of a list of values.
pub fn clone_values(vs: &List<Value>) -> (r: List<Value>)
    ensures
        r == *vs,
    decreases *vs,
{
    match vs {
        List::Nil => List::Nil,
        List::Cons(v, rest) => List::Cons(Box::new(clone_value(v)), Box::new(clone_values(rest))),
    }
}

/// Deep copy of a closure.
pub fn clone_closure(c: &Closure) -> (r: Closure)
    ensures
        r == *c,
    decreases *c,
{
    Closure { env: Box::new(clone_values(&c.env)), term: Box::new(clone_term(&c.term)) }
}

/// Deep copy of a telescope.
pub fn clone_telescope(t: &Telescope) -> (r: Telescope)
    ensures
        r == *t,
    decreases *t,
{
    Telescope { env: Box::new(clone_values(&t.env)), terms: Box::new(clone_terms(&t.terms)) }
}

/// Deep copy of match branches.
pub fn clone_branches(b: &Branches) -> (r: Branches)
    ensures
        r == *b,
    decreases *b,
{
    Branches {
        env: Box::new(clone_values(&b.env)),
        branches: Box::new(clone_const_branches(&b.branches)),
        default: match &b.default {
            Some(d) => Some(Box::new(clone_term(d))),
            None => None,
        },
    }
}

/// Deep copy of a spine.
pub fn clone_elims(es: &List<Elim>) -> (r: List<Elim>)
    ensures
        r == *es,
    decreases *es,
{
    match es {
        List::Nil => List::Nil,
        List::Cons(e, rest) => List::Cons(Box::new(clone_elim(e)), Box::new(clone_elims(rest))),
    }
}

/// Deep copy of an elimination.
pub fn clone_elim(e: &Elim) -> (r: Elim)
    ensures
        r == *e,
    decreases *e,
{
    match e {
        Elim::FunApp(v) => Elim::FunApp(Box::new(clone_value(v))),
        Elim::RecordProj(l) => Elim::RecordProj(*l),
        Elim::ConstMatch(b) => Elim::ConstMatch(clone_branches(b)),
    }
}

/// What appending one elimination to a spine yields.
pub open spec fn snoc_elim_spec(spine: List<Elim>, e: Elim) -> List<Elim>
    decreases spine,
{
    match spine {
        List::Nil => List::Cons(Box::new(e), Box::new(List::Nil)),
        List::Cons(x, rest) => List::Cons(x, Box::new(snoc_elim_spec(*rest, e))),
    }
}

/// Append one elimination at the end of a spine.
pub fn snoc_elim(spine: &List<Elim>, e: Elim) -> (r: List<Elim>)
    ensures
        r == snoc_elim_spec(*spine, e),
    decreases *spine,
{
    match spine {
        List::Nil => List::Cons(Box::new(e), Box::new(List::Nil)),
        List::Cons(x, rest) => List::Cons(Box::new(clone_elim(x)), Box::new(snoc_elim(rest, e))),
    }
}

} // verus!
// == spec model ==

verus! {

/// The arguments of a spine made only of function applications; `None`
/// when some elimination is not an application.
pub open spec fn spine_args_spec(spine: List<Elim>) -> Option<List<Value>>
    decreases spine,
{
    match spine {
        List::Nil => Some(List::Nil),
        List::Cons(e, rest) => match *e {
            Elim::FunApp(v) => match spine_args_spec(*rest) {
                Some(vs) => Some(List::Cons(v, Box::new(vs))),
                None => None,
            },
            _ => None,
        },
    }
}

/// The field of a record literal at a label, if the label occurs.
pub open spec fn proj_lookup_spec(labels: List<StringId>, values: List<Value>, label: StringId)
    -> Option<Value>
    decreases labels,
{
    match (labels, values) {
        (List::Cons(l, lrest), List::Cons(v, vrest)) => if *l == label {
            Some(*v)
        } else {
            proj_lookup_spec(*lrest, *vrest, label)
        },
        (_, _) => None,
    }
}

/// Wrap each field format of a telescope in an application of `Repr`,
/// so that the representation of a record format is again a telescope.
pub open spec fn wrap_repr_terms_spec(ts: List<Term>) -> List<Term>
    decreases ts,
{
    match ts {
        List::Nil => List::Nil,
        List::Cons(t, rest) => List::Cons(
            Box::new(Term::FunApp(Box::new(Term::Prim(Prim::FormatRepr)), t)),
            Box::new(wrap_repr_terms_spec(*rest)),
        ),
    }
}

/// Whether two label lists are equal, entry for entry.
pub open spec fn labels_eq_spec(a: List<StringId>, b: List<StringId>) -> bool
    decreases a,
{
    match (a, b) {
        (List::Nil, List::Nil) => true,
        (List::Cons(x, xr), List::Cons(y, yr)) => *x == *y && labels_eq_spec(*xr, *yr),
        (_, _) => false,
    }
}

/// A fresh rigid variable at the given level.
pub open spec fn fresh_spec(size: usize) -> Value {
    Value::Stuck(Head::RigidVar(size), List::Nil)
}

/// What evaluating a core term under a rigid value environment yields.
/// `ms` is the flexible environment: solved metavariables evaluate to
/// their solutions. `None` means the fuel ran out.
pub open spec fn eval_spec(ms: List<MetaEntry>, env: Env, t: Term, fuel: nat) -> Option<Value>
    decreases fuel,
{
    if fuel == 0 {
        None
    } else {
        let f = (fuel - 1) as nat;
        match t {
            Term::RigidVar(i) => match env.sget(i as nat) {
                Some(v) => Some(v),
                None => Some(Value::Error),
            },
            Term::FlexibleVar(m) => match ms.sget(m as nat) {
                Some(MetaEntry::Solved(v)) => Some(*v),
                _ => Some(Value::Stuck(Head::FlexibleVar(m), List::Nil)),
            },
            Term::FlexibleInsertion(m, infos) => insert_spec(ms, env, infos, m, f),
            Term::Ann(e, _ty) => eval_spec(ms, env, *e, f),
            Term::Let(_n, _ty, d, b) => match eval_spec(ms, env, *d, f) {
                Some(dv) => eval_spec(ms, List::Cons(Box::new(dv), Box::new(env)), *b, f),
                None => None,
            },
            Term::Universe => Some(Value::Universe),
            Term::FunType(n, dom, cod) => match eval_spec(ms, env, *dom, f) {
                Some(dv) => Some(
                    Value::FunType(
                        n,
                        Box::new(dv),
                        Closure { env: Box::new(env), term: cod },
                    ),
                ),
                None => None,
            },
            Term::FunLit(n, b) => Some(
                Value::FunLit(n, Closure { env: Box::new(env), term: b }),
            ),
            Term::FunApp(fun, arg) => match eval_spec(ms, env, *fun, f) {
                Some(fv) => match eval_spec(ms, env, *arg, f) {
                    Some(av) => apply_spec(ms, fv, av, f),
                    None => None,
                },
                None => None,
            },
            Term::RecordType(ls, ts) => Some(
                Value::RecordType(ls, Telescope { env: Box::new(env), terms: Box::new(ts) }),
            ),
            Term::RecordLit(ls, ts) => match eval_list_spec(ms, env, ts, f) {
                Some(vs) => Some(Value::RecordLit(ls, vs)),
                None => None,
            },
            Term::RecordProj(e, l) => match eval_spec(ms, env, *e, f) {
                Some(hv) => proj_spec(ms, hv, l, f),
                None => None,
            },
            Term::ArrayLit(ts) => match eval_list_spec(ms, env, ts, f) {
                Some(vs) => Some(Value::ArrayLit(vs)),
                None => None,
            },
            Term::FormatRecord(ls, ts) => Some(
                Value::FormatRecord(ls, Telescope { env: Box::new(env), terms: Box::new(ts) }),
            ),
            Term::FormatOverlap(ls, ts) => Some(
                Value::FormatOverlap(ls, Telescope { env: Box::new(env), terms: Box::new(ts) }),
            ),
            Term::Prim(p) => Some(Value::Stuck(Head::Prim(p), List::Nil)),
            Term::ConstLit(c) => Some(Value::ConstLit(c)),
            Term::ConstMatch(e, branches, default) => match eval_spec(ms, env, *e, f) {
                Some(hv) => match_spec(
                    ms,
                    hv,
                    Branches { env: Box::new(env), branches: Box::new(branches), default },
                    f,
                ),
                None => None,
            },
        }
    }
}

/// Evaluation of a list of terms, in order.
pub open spec fn eval_list_spec(ms: List<MetaEntry>, env: Env, ts: List<Term>, fuel: nat)
    -> Option<List<Value>>
    decreases fuel,
{
    if fuel == 0 {
        None
    } else {
        let f = (fuel - 1) as nat;
        match ts {
            List::Nil => Some(List::Nil),
            List::Cons(t, rest) => match eval_spec(ms, env, *t, f) {
                Some(v) => match eval_list_spec(ms, env, *rest, f) {
                    Some(vs) => Some(List::Cons(Box::new(v), Box::new(vs))),
                    None => None,
                },
                None => None,
            },
        }
    }
}

/// Evaluation of a flexible insertion: the metavariable `m` applied to
/// the value of every environment entry that the insertion's entry list
/// marks as a parameter. When the environment is deeper than the entry
/// list (the insertion was created under fewer binders), the newest
/// entries are skipped.
pub open spec fn insert_spec(
    ms: List<MetaEntry>,
    env: Env,
    infos: List<EntryInfo>,
    m: usize,
    fuel: nat,
) -> Option<Value>
    decreases fuel,
{
    if fuel == 0 {
        None
    } else {
        let f = (fuel - 1) as nat;
        if env.slen() > infos.slen() {
            match env {
                List::Cons(_, rest) => insert_spec(ms, *rest, infos, m, f),
                List::Nil => Some(Value::Error),
            }
        } else {
            match (env, infos) {
                (List::Cons(v, erest), List::Cons(info, irest)) => match insert_spec(
                    ms,
                    *erest,
                    *irest,
                    m,
                    f,
                ) {
                    Some(h) => if *info == EntryInfo::Parameter {
                        apply_spec(ms, h, *v, f)
                    } else {
                        Some(h)
                    },
                    None => None,
                },
                (_, _) => match ms.sget(m as nat) {
                    Some(MetaEntry::Solved(v)) => Some(*v),
                    _ => Some(Value::Stuck(Head::FlexibleVar(m), List::Nil)),
                },
            }
        }
    }
}

/// What applying one value to another yields: beta reduction for
/// function literals, a spine extension (with primitives reduced when
/// saturated with constants) for neutral values, and the error sentinel
/// otherwise.
pub open spec fn apply_spec(ms: List<MetaEntry>, fun: Value, arg: Value, fuel: nat)
    -> Option<Value>
    decreases fuel,
{
    if fuel == 0 {
        None
    } else {
        let f = (fuel - 1) as nat;
        match fun {
            Value::FunLit(_, clo) => apply_closure_spec(ms, clo, arg, f),
            Value::Stuck(h, spine) => {
                let spine2 = snoc_elim_spec(spine, Elim::FunApp(Box::new(arg)));
                match h {
                    Head::Prim(p) => prim_spec(ms, p, spine2, f),
                    _ => Some(Value::Stuck(h, spine2)),
                }
            },
            _ => Some(Value::Error),
        }
    }
}

/// Applying a closure: evaluate its body with the argument bound.
pub open spec fn apply_closure_spec(ms: List<MetaEntry>, clo: Closure, arg: Value, fuel: nat)
    -> Option<Value>
    decreases fuel,
{
    if fuel == 0 {
        None
    } else {
        eval_spec(
            ms,
            List::Cons(Box::new(arg), clo.env),
            *clo.term,
            (fuel - 1) as nat,
        )
    }
}

/// What projecting a label out of a value yields.
pub open spec fn proj_spec(ms: List<MetaEntry>, head: Value, label: StringId, fuel: nat)
    -> Option<Value>
    decreases fuel,
{
    if fuel == 0 {
        None
    } else {
        match head {
            Value::RecordLit(ls, vs) => match proj_lookup_spec(ls, vs, label) {
                Some(v) => Some(v),
                None => Some(Value::Error),
            },
            Value::Stuck(h, spine) => Some(
                Value::Stuck(h, snoc_elim_spec(spine, Elim::RecordProj(label))),
            ),
            _ => Some(Value::Error),
        }
    }
}

/// What matching a value against constant branches yields.
pub open spec fn match_spec(ms: List<MetaEntry>, head: Value, brs: Branches, fuel: nat)
    -> Option<Value>
    decreases fuel,
{
    if fuel == 0 {
        None
    } else {
        let f = (fuel - 1) as nat;
        match head {
            Value::ConstLit(c) => match_branches_spec(ms, *brs.env, *brs.branches, c, brs.default, f),
            Value::Stuck(h, spine) => Some(
                Value::Stuck(h, snoc_elim_spec(spine, Elim::ConstMatch(brs))),
            ),
            _ => Some(Value::Error),
        }
    }
}

/// Walk the branches of a constant match: the first branch whose pattern
/// equals the scrutinee is taken; otherwise the default; a match with no
/// applicable branch is the error sentinel.
pub open spec fn match_branches_spec(
    ms: List<MetaEntry>,
    env: Env,
    bs: List<(Const, Term)>,
    c: Const,
    default: Option<Box<Term>>,
    fuel: nat,
) -> Option<Value>
    decreases fuel,
{
    if fuel == 0 {
        None
    } else {
        let f = (fuel - 1) as nat;
        match bs {
            List::Nil => match default {
                Some(d) => eval_spec(ms, env, *d, f),
                None => Some(Value::Error),
            },
            List::Cons(b, rest) => if const_eq_spec((*b).0, c) {
                eval_spec(ms, env, (*b).1, f)
            } else {
                match_branches_spec(ms, env, *rest, c, default, f)
            },
        }
    }
}

/// Reduction of a primitive application: `Repr` reduces structurally on
/// formats, the option eliminator reduces on `some` and `none`, and the
/// functional primitives reduce on saturated constant arguments; any
/// other application stays stuck.
pub open spec fn prim_spec(ms: List<MetaEntry>, p: Prim, spine: List<Elim>, fuel: nat)
    -> Option<Value>
    decreases fuel,
{
    if fuel == 0 {
        None
    } else {
        let f = (fuel - 1) as nat;
        let stuck = Value::Stuck(Head::Prim(p), spine);
        match spine_args_spec(spine) {
            None => Some(stuck),
            Some(args) => match p {
                Prim::FormatRepr => if args.slen() == 1 {
                    match args.sget(0) {
                        Some(fv) => repr_spec(ms, fv, f),
                        None => Some(stuck),
                    }
                } else {
                    Some(stuck)
                },
                Prim::OptionFold => if args.slen() == 5 {
                    match (args.sget(2), args.sget(3), args.sget(4)) {
                        (Some(none_v), Some(some_f), Some(opt)) => match opt {
                            Value::Stuck(Head::Prim(Prim::OptionSome), osp) => match spine_args_spec(
                                osp,
                            ) {
                                Some(oargs) => if oargs.slen() == 2 {
                                    match oargs.sget(1) {
                                        Some(v) => apply_spec(ms, some_f, v, f),
                                        None => Some(stuck),
                                    }
                                } else {
                                    Some(stuck)
                                },
                                None => Some(stuck),
                            },
                            Value::Stuck(Head::Prim(Prim::OptionNone), osp) => match spine_args_spec(
                                osp,
                            ) {
                                Some(oargs) => if oargs.slen() == 1 {
                                    Some(none_v)
                                } else {
                                    Some(stuck)
                                },
                                None => Some(stuck),
                            },
                            _ => Some(stuck),
                        },
                        (_, _, _) => Some(stuck),
                    }
                } else {
                    Some(stuck)
                },
                _ => match crate::prims::prim_arith_spec(p, args) {
                    Some(v) => Some(v),
                    None => Some(stuck),
                },
            },
        }
    }
}

/// The representation of a format value, as a host type: `Repr` applied
/// to a format primitive reduces to the corresponding host type, and the
/// representation of a record format is a record type whose fields are
/// the representations of the field formats.
pub open spec fn repr_spec(ms: List<MetaEntry>, fv: Value, fuel: nat) -> Option<Value>
    decreases fuel,
{
    if fuel == 0 {
        None
    } else {
        let f = (fuel - 1) as nat;
        let stuck = Value::Stuck(
            Head::Prim(Prim::FormatRepr),
            List::Cons(Box::new(Elim::FunApp(Box::new(fv))), Box::new(List::Nil)),
        );
        match fv {
            Value::FormatRecord(ls, tele) => Some(
                Value::RecordType(
                    ls,
                    Telescope { env: tele.env, terms: Box::new(wrap_repr_terms_spec(*tele.terms)) },
                ),
            ),
            Value::FormatOverlap(ls, tele) => Some(
                Value::RecordType(
                    ls,
                    Telescope { env: tele.env, terms: Box::new(wrap_repr_terms_spec(*tele.terms)) },
                ),
            ),
            Value::Stuck(Head::Prim(fp), fsp) => match spine_args_spec(fsp) {
                None => Some(stuck),
                Some(args) => match fp {
                    Prim::FormatU8 => if args.slen() == 0 {
                        Some(Value::Stuck(Head::Prim(Prim::U8Type), List::Nil))
                    } else {
                        Some(stuck)
                    },
                    Prim::FormatU16Be | Prim::FormatU16Le => if args.slen() == 0 {
                        Some(Value::Stuck(Head::Prim(Prim::U16Type), List::Nil))
                    } else {
                        Some(stuck)
                    },
                    Prim::FormatU32Be | Prim::FormatU32Le => if args.slen() == 0 {
                        Some(Value::Stuck(Head::Prim(Prim::U32Type), List::Nil))
                    } else {
                        Some(stuck)
                    },
                    Prim::FormatU64Be | Prim::FormatU64Le => if args.slen() == 0 {
                        Some(Value::Stuck(Head::Prim(Prim::U64Type), List::Nil))
                    } else {
                        Some(stuck)
                    },
                    Prim::FormatS8 => if args.slen() == 0 {
                        Some(Value::Stuck(Head::Prim(Prim::S8Type), List::Nil))
                    } else {
                        Some(stuck)
                    },
                    Prim::FormatS16Be | Prim::FormatS16Le => if args.slen() == 0 {
                        Some(Value::Stuck(Head::Prim(Prim::S16Type), List::Nil))
                    } else {
                        Some(stuck)
                    },
                    Prim::FormatS32Be | Prim::FormatS32Le => if args.slen() == 0 {
                        Some(Value::Stuck(Head::Prim(Prim::S32Type), List::Nil))
                    } else {
                        Some(stuck)
                    },
                    Prim::FormatS64Be | Prim::FormatS64Le => if args.slen() == 0 {
                        Some(Value::Stuck(Head::Prim(Prim::S64Type), List::Nil))
                    } else {
                        Some(stuck)
                    },
                    Prim::FormatF32Be | Prim::FormatF32Le => if args.slen() == 0 {
                        Some(Value::Stuck(Head::Prim(Prim::F32Type), List::Nil))
                    } else {
                        Some(stuck)
                    },
                    Prim::FormatF64Be | Prim::FormatF64Le => if args.slen() == 0 {
                        Some(Value::Stuck(Head::Prim(Prim::F64Type), List::Nil))
                    } else {
                        Some(stuck)
                    },
                    Prim::FormatStreamPos => if args.slen() == 0 {
                        Some(Value::Stuck(Head::Prim(Prim::PosType), List::Nil))
                    } else {
                        Some(stuck)
                    },
                    Prim::FormatArray8 | Prim::FormatArray16 | Prim::FormatArray32
                        | Prim::FormatArray64 => if args.slen() == 2 {
                        match (args.sget(0), args.sget(1)) {
                            (Some(n), Some(f2)) => match repr_spec(ms, f2, f) {
                                Some(rf) => Some(
                                    Value::Stuck(
                                        Head::Prim(array_type_of_format_spec(fp)),
                                        List::Cons(
                                            Box::new(Elim::FunApp(Box::new(n))),
                                            Box::new(
                                                List::Cons(
                                                    Box::new(Elim::FunApp(Box::new(rf))),
                                                    Box::new(List::Nil),
                                                ),
                                            ),
                                        ),
                                    ),
                                ),
                                None => None,
                            },
                            (_, _) => Some(stuck),
                        }
                    } else {
                        Some(stuck)
                    },
                    Prim::FormatRepeatUntilEnd => if args.slen() == 1 {
                        match args.sget(0) {
                            Some(f2) => match repr_spec(ms, f2, f) {
                                Some(rf) => Some(
                                    Value::Stuck(
                                        Head::Prim(Prim::ArrayType),
                                        List::Cons(
                                            Box::new(Elim::FunApp(Box::new(rf))),
                                            Box::new(List::Nil),
                                        ),
                                    ),
                                ),
                                None => None,
                            },
                            None => Some(stuck),
                        }
                    } else {
                        Some(stuck)
                    },
                    Prim::FormatLink => if args.slen() == 2 {
                        match args.sget(1) {
                            Some(f2) => match repr_spec(ms, f2, f) {
                                Some(rf) => Some(
                                    Value::Stuck(
                                        Head::Prim(Prim::RefType),
                                        List::Cons(
                                            Box::new(Elim::FunApp(Box::new(rf))),
                                            Box::new(List::Nil),
                                        ),
                                    ),
                                ),
                                None => None,
                            },
                            None => Some(stuck),
                        }
                    } else {
                        Some(stuck)
                    },
                    Prim::FormatDeref => if args.slen() == 2 {
                        match args.sget(0) {
                            Some(f2) => repr_spec(ms, f2, f),
                            None => Some(stuck),
                        }
                    } else {
                        Some(stuck)
                    },
                    Prim::FormatSucceed => if args.slen() == 2 {
                        match args.sget(0) {
                            Some(a) => Some(a),
                            None => Some(stuck),
                        }
                    } else {
                        Some(stuck)
                    },
                    Prim::FormatFail => if args.slen() == 1 {
                        match args.sget(0) {
                            Some(a) => Some(a),
                            None => Some(stuck),
                        }
                    } else {
                        Some(stuck)
                    },
                    Prim::FormatUnwrap => if args.slen() == 2 {
                        match args.sget(0) {
                            Some(a) => Some(a),
                            None => Some(stuck),
                        }
                    } else {
                        Some(stuck)
                    },
                    _ => Some(stuck),
                },
            },
            Value::Error => Some(Value::Error),
            _ => Some(stuck),
        }
    }
}

/// The array type constructor matching an array format constructor.
pub open spec fn array_type_of_format_spec(p: Prim) -> Prim {
    match p {
        Prim::FormatArray8 => Prim::Array8Type,
        Prim::FormatArray16 => Prim::Array16Type,
        Prim::FormatArray32 => Prim::Array32Type,
        _ => Prim::Array64Type,
    }
}

} // verus!

verus! {

/// Force a value: look through solved metavariables, replaying the spine
/// on the solution, until the head is no longer a solved metavariable.
pub open spec fn force_spec(ms: List<MetaEntry>, v: Value, fuel: nat) -> Option<Value>
    decreases fuel,
{
    if fuel == 0 {
        None
    } else {
        let f = (fuel - 1) as nat;
        match v {
            Value::Stuck(Head::FlexibleVar(m), spine) => match ms.sget(m as nat) {
                Some(MetaEntry::Solved(sol)) => match apply_spine_spec(ms, *sol, spine, f) {
                    Some(v2) => force_spec(ms, v2, f),
                    None => None,
                },
                _ => Some(v),
            },
            _ => Some(v),
        }
    }
}

/// Replay a spine of eliminations on a value, oldest elimination first.
pub open spec fn apply_spine_spec(ms: List<MetaEntry>, head: Value, spine: List<Elim>, fuel: nat)
    -> Option<Value>
    decreases fuel,
{
    if fuel == 0 {
        None
    } else {
        let f = (fuel - 1) as nat;
        match spine {
            List::Nil => Some(head),
            List::Cons(e, rest) => {
                let once = match *e {
                    Elim::FunApp(arg) => apply_spec(ms, head, *arg, f),
                    Elim::RecordProj(l) => proj_spec(ms, head, l, f),
                    Elim::ConstMatch(brs) => match_spec(ms, head, brs, f),
                };
                match once {
                    Some(h2) => apply_spine_spec(ms, h2, *rest, f),
                    None => None,
                }
            },
        }
    }
}

/// What quoting a value back to a core term yields, under `size` bound
/// rigid variables. The inverse of evaluation up to alpha equivalence:
/// closures are quoted by applying them to a fresh variable. `None`
/// means the fuel ran out or the value had a rigid variable at or above
/// `size` (it was ill-scoped).
pub open spec fn quote_spec(ms: List<MetaEntry>, size: usize, v: Value, fuel: nat) -> Option<Term>
    decreases fuel,
{
    if fuel == 0 {
        None
    } else {
        let f = (fuel - 1) as nat;
        match v {
            Value::Universe => Some(Term::Universe),
            Value::ConstLit(c) => Some(Term::ConstLit(c)),
            Value::Error => Some(Term::Prim(Prim::ReportedError)),
            Value::FunType(n, dom, cod) => if size < usize::MAX {
                match quote_spec(ms, size, *dom, f) {
                    Some(dt) => match apply_closure_spec(ms, cod, fresh_spec(size), f) {
                        Some(body) => match quote_spec(ms, (size + 1) as usize, body, f) {
                            Some(bt) => Some(Term::FunType(n, Box::new(dt), Box::new(bt))),
                            None => None,
                        },
                        None => None,
                    },
                    None => None,
                }
            } else {
                None
            },
            Value::FunLit(n, clo) => if size < usize::MAX {
                match apply_closure_spec(ms, clo, fresh_spec(size), f) {
                    Some(body) => match quote_spec(ms, (size + 1) as usize, body, f) {
                        Some(bt) => Some(Term::FunLit(n, Box::new(bt))),
                        None => None,
                    },
                    None => None,
                }
            } else {
                None
            },
            Value::RecordType(ls, tele) => match quote_tele_spec(ms, size, tele, f) {
                Some(ts) => Some(Term::RecordType(ls, ts)),
                None => None,
            },
            Value::RecordLit(ls, vs) => match quote_list_spec(ms, size, vs, f) {
                Some(ts) => Some(Term::RecordLit(ls, ts)),
                None => None,
            },
            Value::ArrayLit(vs) => match quote_list_spec(ms, size, vs, f) {
                Some(ts) => Some(Term::ArrayLit(ts)),
                None => None,
            },
            Value::FormatRecord(ls, tele) => match quote_tele_spec(ms, size, tele, f) {
                Some(ts) => Some(Term::FormatRecord(ls, ts)),
                None => None,
            },
            Value::FormatOverlap(ls, tele) => match quote_tele_spec(ms, size, tele, f) {
                Some(ts) => Some(Term::FormatOverlap(ls, ts)),
                None => None,
            },
            Value::Stuck(h, spine) => {
                let head_term = match h {
                    Head::RigidVar(level) => if level < size {
                        Some(Term::RigidVar((size - 1 - level) as usize))
                    } else {
                        None
                    },
                    Head::FlexibleVar(m) => Some(Term::FlexibleVar(m)),
                    Head::Prim(p) => Some(Term::Prim(p)),
                };
                match head_term {
                    Some(ht) => quote_spine_spec(ms, size, ht, spine, f),
                    None => None,
                }
            },
        }
    }
}

/// Quote a list of values.
pub open spec fn quote_list_spec(ms: List<MetaEntry>, size: usize, vs: List<Value>, fuel: nat)
    -> Option<List<Term>>
    decreases fuel,
{
    if fuel == 0 {
        None
    } else {
        let f = (fuel - 1) as nat;
        match vs {
            List::Nil => Some(List::Nil),
            List::Cons(v, rest) => match quote_spec(ms, size, *v, f) {
                Some(t) => match quote_list_spec(ms, size, *rest, f) {
                    Some(ts) => Some(List::Cons(Box::new(t), Box::new(ts))),
                    None => None,
                },
                None => None,
            },
        }
    }
}

/// Quote a telescope: each field type is evaluated under the telescope
/// environment extended with fresh variables for the fields before it.
pub open spec fn quote_tele_spec(ms: List<MetaEntry>, size: usize, tele: Telescope, fuel: nat)
    -> Option<List<Term>>
    decreases fuel,
{
    if fuel == 0 {
        None
    } else {
        let f = (fuel - 1) as nat;
        match *tele.terms {
            List::Nil => Some(List::Nil),
            List::Cons(t, rest) => if size < usize::MAX {
                match eval_spec(ms, *tele.env, *t, f) {
                    Some(tv) => match quote_spec(ms, size, tv, f) {
                        Some(tt) => match quote_tele_spec(
                            ms,
                            (size + 1) as usize,
                            Telescope {
                                env: Box::new(
                                    List::Cons(Box::new(fresh_spec(size)), tele.env),
                                ),
                                terms: rest,
                            },
                            f,
                        ) {
                            Some(ts) => Some(List::Cons(Box::new(tt), Box::new(ts))),
                            None => None,
                        },
                        None => None,
                    },
                    None => None,
                }
            } else {
                None
            },
        }
    }
}

/// Quote a spine of eliminations onto an already-quoted head term.
pub open spec fn quote_spine_spec(
    ms: List<MetaEntry>,
    size: usize,
    head: Term,
    spine: List<Elim>,
    fuel: nat,
) -> Option<Term>
    decreases fuel,
{
    if fuel == 0 {
        None
    } else {
        let f = (fuel - 1) as nat;
        match spine {
            List::Nil => Some(head),
            List::Cons(e, rest) => {
                let once = match *e {
                    Elim::FunApp(arg) => match quote_spec(ms, size, *arg, f) {
                        Some(at) => Some(Term::FunApp(Box::new(head), Box::new(at))),
                        None => None,
                    },
                    Elim::RecordProj(l) => Some(Term::RecordProj(Box::new(head), l)),
                    Elim::ConstMatch(brs) => match quote_branches_spec(
                        ms,
                        size,
                        *brs.env,
                        *brs.branches,
                        f,
                    ) {
                        Some(bs) => match brs.default {
                            Some(d) => match eval_spec(ms, *brs.env, *d, f) {
                                Some(dv) => match quote_spec(ms, size, dv, f) {
                                    Some(dt) => Some(
                                        Term::ConstMatch(Box::new(head), bs, Some(Box::new(dt))),
                                    ),
                                    None => None,
                                },
                                None => None,
                            },
                            None => Some(Term::ConstMatch(Box::new(head), bs, None)),
                        },
                        None => None,
                    },
                };
                match once {
                    Some(h2) => quote_spine_spec(ms, size, h2, *rest, f),
                    None => None,
                }
            },
        }
    }
}

/// Quote the branches of a stuck constant match: each branch body is
/// evaluated under the branch environment and quoted.
pub open spec fn quote_branches_spec(
    ms: List<MetaEntry>,
    size: usize,
    env: Env,
    bs: List<(Const, Term)>,
    fuel: nat,
) -> Option<List<(Const, Term)>>
    decreases fuel,
{
    if fuel == 0 {
        None
    } else {
        let f = (fuel - 1) as nat;
        match bs {
            List::Nil => Some(List::Nil),
            List::Cons(b, rest) => match eval_spec(ms, env, (*b).1, f) {
                Some(bv) => match quote_spec(ms, size, bv, f) {
                    Some(bt) => match quote_branches_spec(ms, size, env, *rest, f) {
                        Some(bts) => Some(
                            List::Cons(Box::new(((*b).0, bt)), Box::new(bts)),
                        ),
                        None => None,
                    },
                    None => None,
                },
                None => None,
            },
        }
    }
}

/// Normalization: evaluate, then quote at the environment's depth.
pub open spec fn normalize_spec(ms: List<MetaEntry>, env: Env, t: Term, fuel: nat) -> Option<Term>
    decreases fuel,
{
    if fuel == 0 {
        None
    } else if env.slen() > usize::MAX {
        None
    } else {
        let f = (fuel - 1) as nat;
        match eval_spec(ms, env, t, f) {
            Some(v) => quote_spec(ms, env.slen() as usize, v, f),
            None => None,
        }
    }
}

} // verus!

verus! {

/// Definitional equality of two values under `size` bound variables:
/// syntactic equality modulo eta for functions and records, with
/// constants compared by logical value and solved metavariables looked
/// through. The error sentinel absorbs: it is equal to anything, so one
/// reported error does not cascade. `None` means the fuel ran out.
pub open spec fn is_equal_spec(ms: List<MetaEntry>, size: usize, v1: Value, v2: Value, fuel: nat)
    -> Option<bool>
    decreases fuel,
{
    if fuel == 0 {
        None
    } else {
        let f = (fuel - 1) as nat;
        match (force_spec(ms, v1, f), force_spec(ms, v2, f)) {
            (Some(a), Some(b)) => is_equal_forced_spec(ms, size, a, b, f),
            (_, _) => None,
        }
    }
}

/// Equality of two already-forced values.
pub open spec fn is_equal_forced_spec(
    ms: List<MetaEntry>,
    size: usize,
    a: Value,
    b: Value,
    fuel: nat,
) -> Option<bool>
    decreases fuel,
{
    if fuel == 0 {
        None
    } else {
        let f = (fuel - 1) as nat;
        match (a, b) {
            (Value::Error, _) => Some(true),
            (_, Value::Error) => Some(true),
            (Value::Universe, Value::Universe) => Some(true),
            (Value::ConstLit(x), Value::ConstLit(y)) => Some(const_eq_spec(x, y)),
            (Value::FunType(_, d1, c1), Value::FunType(_, d2, c2)) => match is_equal_spec(
                ms,
                size,
                *d1,
                *d2,
                f,
            ) {
                Some(true) => closures_eq_spec(ms, size, c1, c2, f),
                other => other,
            },
            (Value::FunLit(_, c1), Value::FunLit(_, c2)) => closures_eq_spec(ms, size, c1, c2, f),
            (Value::FunLit(_, c1), Value::Stuck(h, sp)) => if size < usize::MAX {
                match (
                    apply_closure_spec(ms, c1, fresh_spec(size), f),
                    apply_spec(ms, Value::Stuck(h, sp), fresh_spec(size), f),
                ) {
                    (Some(b1), Some(b2)) => is_equal_spec(ms, (size + 1) as usize, b1, b2, f),
                    (_, _) => None,
                }
            } else {
                None
            },
            (Value::Stuck(h, sp), Value::FunLit(_, c2)) => if size < usize::MAX {
                match (
                    apply_spec(ms, Value::Stuck(h, sp), fresh_spec(size), f),
                    apply_closure_spec(ms, c2, fresh_spec(size), f),
                ) {
                    (Some(b1), Some(b2)) => is_equal_spec(ms, (size + 1) as usize, b1, b2, f),
                    (_, _) => None,
                }
            } else {
                None
            },
            (Value::RecordType(ls1, t1), Value::RecordType(ls2, t2)) => if labels_eq_spec(
                ls1,
                ls2,
            ) {
                teles_eq_spec(ms, size, t1, t2, f)
            } else {
                Some(false)
            },
            (Value::FormatRecord(ls1, t1), Value::FormatRecord(ls2, t2)) => if labels_eq_spec(
                ls1,
                ls2,
            ) {
                teles_eq_spec(ms, size, t1, t2, f)
            } else {
                Some(false)
            },
            (Value::FormatOverlap(ls1, t1), Value::FormatOverlap(ls2, t2)) => if labels_eq_spec(
                ls1,
                ls2,
            ) {
                teles_eq_spec(ms, size, t1, t2, f)
            } else {
                Some(false)
            },
            (Value::RecordLit(ls1, vs1), Value::RecordLit(ls2, vs2)) => if labels_eq_spec(
                ls1,
                ls2,
            ) {
                values_eq_spec(ms, size, vs1, vs2, f)
            } else {
                Some(false)
            },
            (Value::RecordLit(ls1, vs1), Value::Stuck(h, sp)) => eta_record_eq_spec(
                ms,
                size,
                ls1,
                vs1,
                Value::Stuck(h, sp),
                f,
            ),
            (Value::Stuck(h, sp), Value::RecordLit(ls2, vs2)) => eta_record_eq_spec(
                ms,
                size,
                ls2,
                vs2,
                Value::Stuck(h, sp),
                f,
            ),
            (Value::ArrayLit(vs1), Value::ArrayLit(vs2)) => values_eq_spec(ms, size, vs1, vs2, f),
            (Value::Stuck(h1, sp1), Value::Stuck(h2, sp2)) => if h1 == h2 {
                spines_eq_spec(ms, size, sp1, sp2, f)
            } else {
                Some(false)
            },
            (_, _) => Some(false),
        }
    }
}

/// Equality of two closures: apply both to the same fresh variable and
/// compare the results one binder deeper.
pub open spec fn closures_eq_spec(ms: List<MetaEntry>, size: usize, c1: Closure, c2: Closure, fuel: nat)
    -> Option<bool>
    decreases fuel,
{
    if fuel == 0 {
        None
    } else if size < usize::MAX {
        let f = (fuel - 1) as nat;
        match (
            apply_closure_spec(ms, c1, fresh_spec(size), f),
            apply_closure_spec(ms, c2, fresh_spec(size), f),
        ) {
            (Some(b1), Some(b2)) => is_equal_spec(ms, (size + 1) as usize, b1, b2, f),
            (_, _) => None,
        }
    } else {
        None
    }
}

/// Pointwise equality of two value lists.
pub open spec fn values_eq_spec(
    ms: List<MetaEntry>,
    size: usize,
    vs1: List<Value>,
    vs2: List<Value>,
    fuel: nat,
) -> Option<bool>
    decreases fuel,
{
    if fuel == 0 {
        None
    } else {
        let f = (fuel - 1) as nat;
        match (vs1, vs2) {
            (List::Nil, List::Nil) => Some(true),
            (List::Cons(v1, r1), List::Cons(v2, r2)) => match is_equal_spec(ms, size, *v1, *v2, f) {
                Some(true) => values_eq_spec(ms, size, *r1, *r2, f),
                other => other,
            },
            (_, _) => Some(false),
        }
    }
}

/// Equality of two telescopes: compare the field types in lockstep,
/// extending both environments with the same fresh variable.
pub open spec fn teles_eq_spec(ms: List<MetaEntry>, size: usize, t1: Telescope, t2: Telescope, fuel: nat)
    -> Option<bool>
    decreases fuel,
{
    if fuel == 0 {
        None
    } else {
        let f = (fuel - 1) as nat;
        match (*t1.terms, *t2.terms) {
            (List::Nil, List::Nil) => Some(true),
            (List::Cons(a1, r1), List::Cons(a2, r2)) => if size < usize::MAX {
                match (eval_spec(ms, *t1.env, *a1, f), eval_spec(ms, *t2.env, *a2, f)) {
                    (Some(x1), Some(x2)) => match is_equal_spec(ms, size, x1, x2, f) {
                        Some(true) => teles_eq_spec(
                            ms,
                            (size + 1) as usize,
                            Telescope {
                                env: Box::new(List::Cons(Box::new(fresh_spec(size)), t1.env)),
                                terms: r1,
                            },
                            Telescope {
                                env: Box::new(List::Cons(Box::new(fresh_spec(size)), t2.env)),
                                terms: r2,
                            },
                            f,
                        ),
                        other => other,
                    },
                    (_, _) => None,
                }
            } else {
                None
            },
            (_, _) => Some(false),
        }
    }
}

/// Eta equality of a record literal against a neutral value: each field
/// of the literal is compared against the matching projection out of the
/// neutral.
pub open spec fn eta_record_eq_spec(
    ms: List<MetaEntry>,
    size: usize,
    ls: List<StringId>,
    vs: List<Value>,
    neutral: Value,
    fuel: nat,
) -> Option<bool>
    decreases fuel,
{
    if fuel == 0 {
        None
    } else {
        let f = (fuel - 1) as nat;
        match (ls, vs) {
            (List::Nil, List::Nil) => Some(true),
            (List::Cons(l, lrest), List::Cons(v, vrest)) => match proj_spec(ms, neutral, *l, f) {
                Some(p) => match is_equal_spec(ms, size, *v, p, f) {
                    Some(true) => eta_record_eq_spec(ms, size, *lrest, *vrest, neutral, f),
                    other => other,
                },
                None => None,
            },
            (_, _) => Some(false),
        }
    }
}

/// Pointwise equality of two spines.
pub open spec fn spines_eq_spec(
    ms: List<MetaEntry>,
    size: usize,
    sp1: List<Elim>,
    sp2: List<Elim>,
    fuel: nat,
) -> Option<bool>
    decreases fuel,
{
    if fuel == 0 {
        None
    } else {
        let f = (fuel - 1) as nat;
        match (sp1, sp2) {
            (List::Nil, List::Nil) => Some(true),
            (List::Cons(e1, r1), List::Cons(e2, r2)) => {
                let once = match (*e1, *e2) {
                    (Elim::FunApp(a1), Elim::FunApp(a2)) => is_equal_spec(ms, size, *a1, *a2, f),
                    (Elim::RecordProj(l1), Elim::RecordProj(l2)) => Some(l1 == l2),
                    (Elim::ConstMatch(b1), Elim::ConstMatch(b2)) => branches_eq_spec(
                        ms,
                        size,
                        b1,
                        b2,
                        f,
                    ),
                    (_, _) => Some(false),
                };
                match once {
                    Some(true) => spines_eq_spec(ms, size, *r1, *r2, f),
                    other => other,
                }
            },
            (_, _) => Some(false),
        }
    }
}

/// Equality of two stuck constant matches: the patterns must agree as
/// constants and the branch bodies (and defaults) must be equal.
pub open spec fn branches_eq_spec(ms: List<MetaEntry>, size: usize, b1: Branches, b2: Branches, fuel: nat)
    -> Option<bool>
    decreases fuel,
{
    if fuel == 0 {
        None
    } else {
        let f = (fuel - 1) as nat;
        match branch_lists_eq_spec(ms, size, *b1.env, *b1.branches, *b2.env, *b2.branches, f) {
            Some(true) => match (b1.default, b2.default) {
                (None, None) => Some(true),
                (Some(d1), Some(d2)) => match (
                    eval_spec(ms, *b1.env, *d1, f),
                    eval_spec(ms, *b2.env, *d2, f),
                ) {
                    (Some(x1), Some(x2)) => is_equal_spec(ms, size, x1, x2, f),
                    (_, _) => None,
                },
                (_, _) => Some(false),
            },
            other => other,
        }
    }
}

/// Pointwise equality of two branch lists under their environments.
pub open spec fn branch_lists_eq_spec(
    ms: List<MetaEntry>,
    size: usize,
    env1: Env,
    bs1: List<(Const, Term)>,
    env2: Env,
    bs2: List<(Const, Term)>,
    fuel: nat,
) -> Option<bool>
    decreases fuel,
{
    if fuel == 0 {
        None
    } else {
        let f = (fuel - 1) as nat;
        match (bs1, bs2) {
            (List::Nil, List::Nil) => Some(true),
            (List::Cons(p1, r1), List::Cons(p2, r2)) => if const_eq_spec((*p1).0, (*p2).0) {
                match (eval_spec(ms, env1, (*p1).1, f), eval_spec(ms, env2, (*p2).1, f)) {
                    (Some(x1), Some(x2)) => match is_equal_spec(ms, size, x1, x2, f) {
                        Some(true) => branch_lists_eq_spec(ms, size, env1, *r1, env2, *r2, f),
                        other => other,
                    },
                    (_, _) => None,
                }
            } else {
                Some(false)
            },
            (_, _) => Some(false),
        }
    }
}

} // verus!

verus! {

/// A fresh rigid variable at the given level.
pub fn fresh(size: usize) -> (r: Value)
    ensures
        r == fresh_spec(size),
{
    Value::Stuck(Head::RigidVar(size), List::Nil)
}

/// Whether two label lists are equal, entry for entry.
pub fn labels_eq(a: &List<StringId>, b: &List<StringId>) -> (r: bool)
    ensures
        r == labels_eq_spec(*a, *b),
    decreases *a,
{
    match (a, b) {
        (List::Nil, List::Nil) => true,
        (List::Cons(x, xr), List::Cons(y, yr)) => **x == **y && labels_eq(xr, yr),
        (_, _) => false,
    }
}

/// The arguments of a spine made only of function applications.
pub fn spine_args(spine: &List<Elim>) -> (r: Option<List<Value>>)
    ensures
        r == spine_args_spec(*spine),
    decreases *spine,
{
    match spine {
        List::Nil => Some(List::Nil),
        List::Cons(e, rest) => match &**e {
            Elim::FunApp(v) => match spine_args(rest) {
                Some(vs) => Some(List::Cons(Box::new(clone_value(v)), Box::new(vs))),
                None => None,
            },
            _ => None,
        },
    }
}

/// The field of a record literal at a label, if the label occurs.
pub fn proj_lookup(labels: &List<StringId>, values: &List<Value>, label: StringId)
    -> (r: Option<Value>)
    ensures
        r == proj_lookup_spec(*labels, *values, label),
    decreases *labels,
{
    match (labels, values) {
        (List::Cons(l, lrest), List::Cons(v, vrest)) => if **l == label {
            Some(clone_value(v))
        } else {
            proj_lookup(lrest, vrest, label)
        },
        (_, _) => None,
    }
}

/// Wrap each field format of a telescope in an application of `Repr`.
pub fn wrap_repr_terms(ts: &List<Term>) -> (r: List<Term>)
    ensures
        r == wrap_repr_terms_spec(*ts),
    decreases *ts,
{
    match ts {
        List::Nil => List::Nil,
        List::Cons(t, rest) => List::Cons(
            Box::new(
                Term::FunApp(
                    Box::new(Term::Prim(Prim::FormatRepr)),
                    Box::new(clone_term(t)),
                ),
            ),
            Box::new(wrap_repr_terms(rest)),
        ),
    }
}

/// The array type constructor matching an array format constructor.
pub fn array_type_of_format(p: Prim) -> (r: Prim)
    ensures
        r == array_type_of_format_spec(p),
{
    match p {
        Prim::FormatArray8 => Prim::Array8Type,
        Prim::FormatArray16 => Prim::Array16Type,
        Prim::FormatArray32 => Prim::Array32Type,
        _ => Prim::Array64Type,
    }
}

/// Evaluate a core term under a rigid value environment and the flexible
/// environment `ms`. Returns exactly what `eval_spec` says; `None` only
/// when the fuel ran out.
pub fn eval(ms: &List<MetaEntry>, env: &Env, t: &Term, fuel: u64) -> (r: Option<Value>)
    ensures
        r == eval_spec(*ms, *env, *t, fuel as nat),
    decreases fuel,
{
    if fuel == 0 {
        return None;
    }
    let f = fuel - 1;
    match t {
        Term::RigidVar(i) => match env.get(*i) {
            Some(v) => Some(clone_value(v)),
            None => Some(Value::Error),
        },
        Term::FlexibleVar(m) => match ms.get(*m) {
            Some(e) => match e {
                MetaEntry::Solved(v) => Some(clone_value(v)),
                MetaEntry::Unsolved => Some(Value::Stuck(Head::FlexibleVar(*m), List::Nil)),
            },
            None => Some(Value::Stuck(Head::FlexibleVar(*m), List::Nil)),
        },
        Term::FlexibleInsertion(m, infos) => insert(ms, env, infos, *m, f),
        Term::Ann(e, _ty) => eval(ms, env, e, f),
        Term::Let(_n, _ty, d, b) => match eval(ms, env, d, f) {
            Some(dv) => {
                let env2 = List::Cons(Box::new(dv), Box::new(clone_values(env)));
                eval(ms, &env2, b, f)
            },
            None => None,
        },
        Term::Universe => Some(Value::Universe),
        Term::FunType(n, dom, cod) => match eval(ms, env, dom, f) {
            Some(dv) => Some(
                Value::FunType(
                    *n,
                    Box::new(dv),
                    Closure {
                        env: Box::new(clone_values(env)),
                        term: Box::new(clone_term(cod)),
                    },
                ),
            ),
            None => None,
        },
        Term::FunLit(n, b) => Some(
            Value::FunLit(
                *n,
                Closure { env: Box::new(clone_values(env)), term: Box::new(clone_term(b)) },
            ),
        ),
        Term::FunApp(fun, arg) => match eval(ms, env, fun, f) {
            Some(fv) => match eval(ms, env, arg, f) {
                Some(av) => apply(ms, fv, av, f),
                None => None,
            },
            None => None,
        },
        Term::RecordType(ls, ts) => Some(
            Value::RecordType(
                clone_copy_list(ls),
                Telescope {
                    env: Box::new(clone_values(env)),
                    terms: Box::new(clone_terms(ts)),
                },
            ),
        ),
        Term::RecordLit(ls, ts) => match eval_list(ms, env, ts, f) {
            Some(vs) => Some(Value::RecordLit(clone_copy_list(ls), vs)),
            None => None,
        },
        Term::RecordProj(e, l) => match eval(ms, env, e, f) {
            Some(hv) => proj(ms, hv, *l, f),
            None => None,
        },
        Term::ArrayLit(ts) => match eval_list(ms, env, ts, f) {
            Some(vs) => Some(Value::ArrayLit(vs)),
            None => None,
        },
        Term::FormatRecord(ls, ts) => Some(
            Value::FormatRecord(
                clone_copy_list(ls),
                Telescope {
                    env: Box::new(clone_values(env)),
                    terms: Box::new(clone_terms(ts)),
                },
            ),
        ),
        Term::FormatOverlap(ls, ts) => Some(
            Value::FormatOverlap(
                clone_copy_list(ls),
                Telescope {
                    env: Box::new(clone_values(env)),
                    terms: Box::new(clone_terms(ts)),
                },
            ),
        ),
        Term::Prim(p) => Some(Value::Stuck(Head::Prim(*p), List::Nil)),
        Term::ConstLit(c) => Some(Value::ConstLit(*c)),
        Term::ConstMatch(e, branches, default) => match eval(ms, env, e, f) {
            Some(hv) => match_value(
                ms,
                hv,
                Branches {
                    env: Box::new(clone_values(env)),
                    branches: Box::new(clone_const_branches(branches)),
                    default: match default {
                        Some(d) => Some(Box::new(clone_term(d))),
                        None => None,
                    },
                },
                f,
            ),
            None => None,
        },
    }
}

/// Evaluate a list of terms, in order.
pub fn eval_list(ms: &List<MetaEntry>, env: &Env, ts: &List<Term>, fuel: u64)
    -> (r: Option<List<Value>>)
    ensures
        r == eval_list_spec(*ms, *env, *ts, fuel as nat),
    decreases fuel,
{
    if fuel == 0 {
        return None;
    }
    let f = fuel - 1;
    match ts {
        List::Nil => Some(List::Nil),
        List::Cons(t, rest) => match eval(ms, env, t, f) {
            Some(v) => match eval_list(ms, env, rest, f) {
                Some(vs) => Some(List::Cons(Box::new(v), Box::new(vs))),
                None => None,
            },
            None => None,
        },
    }
}

/// Whether the environment is deeper than the insertion's entry list.
fn env_deeper(env: &Env, infos: &List<EntryInfo>) -> (r: bool)
    ensures
        r == (env.slen() > infos.slen()),
    decreases *env,
{
    match (env, infos) {
        (List::Cons(_, erest), List::Cons(_, irest)) => env_deeper(erest, irest),
        (List::Cons(_, _), List::Nil) => true,
        (List::Nil, _) => false,
    }
}

/// Evaluate a flexible insertion (see `insert_spec`).
pub fn insert(ms: &List<MetaEntry>, env: &Env, infos: &List<EntryInfo>, m: usize, fuel: u64)
    -> (r: Option<Value>)
    ensures
        r == insert_spec(*ms, *env, *infos, m, fuel as nat),
    decreases fuel,
{
    if fuel == 0 {
        return None;
    }
    let f = fuel - 1;
    if env_deeper(env, infos) {
        match env {
            List::Cons(_, rest) => insert(ms, rest, infos, m, f),
            List::Nil => Some(Value::Error),
        }
    } else {
        match (env, infos) {
            (List::Cons(v, erest), List::Cons(info, irest)) => match insert(ms, erest, irest, m, f) {
                Some(h) => if **info == EntryInfo::Parameter {
                    apply(ms, h, clone_value(v), f)
                } else {
                    Some(h)
                },
                None => None,
            },
            (_, _) => match ms.get(m) {
                Some(e) => match e {
                    MetaEntry::Solved(v) => Some(clone_value(v)),
                    MetaEntry::Unsolved => Some(Value::Stuck(Head::FlexibleVar(m), List::Nil)),
                },
                None => Some(Value::Stuck(Head::FlexibleVar(m), List::Nil)),
            },
        }
    }
}

/// Apply one value to another (see `apply_spec`).
pub fn apply(ms: &List<MetaEntry>, fun: Value, arg: Value, fuel: u64) -> (r: Option<Value>)
    ensures
        r == apply_spec(*ms, fun, arg, fuel as nat),
    decreases fuel,
{
    if fuel == 0 {
        return None;
    }
    let f = fuel - 1;
    match fun {
        Value::FunLit(_, clo) => apply_closure(ms, &clo, arg, f),
        Value::Stuck(h, spine) => {
            let spine2 = snoc_elim(&spine, Elim::FunApp(Box::new(arg)));
            match h {
                Head::Prim(p) => prim_step(ms, p, spine2, f),
                _ => Some(Value::Stuck(h, spine2)),
            }
        },
        _ => Some(Value::Error),
    }
}

/// Apply a closure: evaluate its body with the argument bound.
pub fn apply_closure(ms: &List<MetaEntry>, clo: &Closure, arg: Value, fuel: u64)
    -> (r: Option<Value>)
    ensures
        r == apply_closure_spec(*ms, *clo, arg, fuel as nat),
    decreases fuel,
{
    if fuel == 0 {
        return None;
    }
    let env2 = List::Cons(Box::new(arg), Box::new(clone_values(&clo.env)));
    eval(ms, &env2, &clo.term, fuel - 1)
}

/// Project a label out of a value (see `proj_spec`).
pub fn proj(ms: &List<MetaEntry>, head: Value, label: StringId, fuel: u64) -> (r: Option<Value>)
    ensures
        r == proj_spec(*ms, head, label, fuel as nat),
    decreases fuel,
{
    if fuel == 0 {
        return None;
    }
    match head {
        Value::RecordLit(ls, vs) => match proj_lookup(&ls, &vs, label) {
            Some(v) => Some(v),
            None => Some(Value::Error),
        },
        Value::Stuck(h, spine) => Some(
            Value::Stuck(h, snoc_elim(&spine, Elim::RecordProj(label))),
        ),
        _ => Some(Value::Error),
    }
}

/// Match a value against constant branches (see `match_spec`).
pub fn match_value(ms: &List<MetaEntry>, head: Value, brs: Branches, fuel: u64)
    -> (r: Option<Value>)
    ensures
        r == match_spec(*ms, head, brs, fuel as nat),
    decreases fuel,
{
    if fuel == 0 {
        return None;
    }
    let f = fuel - 1;
    match head {
        Value::ConstLit(c) => match_branches(ms, &brs.env, &brs.branches, c, &brs.default, f),
        Value::Stuck(h, spine) => Some(
            Value::Stuck(h, snoc_elim(&spine, Elim::ConstMatch(brs))),
        ),
        _ => Some(Value::Error),
    }
}

/// Walk the branches of a constant match (see `match_branches_spec`).
pub fn match_branches(
    ms: &List<MetaEntry>,
    env: &Env,
    bs: &List<(Const, Term)>,
    c: Const,
    default: &Option<Box<Term>>,
    fuel: u64,
) -> (r: Option<Value>)
    ensures
        r == match_branches_spec(*ms, *env, *bs, c, *default, fuel as nat),
    decreases fuel,
{
    if fuel == 0 {
        return None;
    }
    let f = fuel - 1;
    match bs {
        List::Nil => match default {
            Some(d) => eval(ms, env, d, f),
            None => Some(Value::Error),
        },
        List::Cons(b, rest) => if (**b).0 == c {
            eval(ms, env, &(**b).1, f)
        } else {
            match_branches(ms, env, rest, c, default, f)
        },
    }
}

/// Reduce a primitive application (see `prim_spec`).
pub fn prim_step(ms: &List<MetaEntry>, p: Prim, spine: List<Elim>, fuel: u64)
    -> (r: Option<Value>)
    ensures
        r == prim_spec(*ms, p, spine, fuel as nat),
    decreases fuel,
{
    if fuel == 0 {
        return None;
    }
    let f = fuel - 1;
    match spine_args(&spine) {
        None => Some(Value::Stuck(Head::Prim(p), spine)),
        Some(args) => match p {
            Prim::FormatRepr => if crate::prims::arity(&args, 1) {
                match args.get(0) {
                    Some(fv) => repr(ms, clone_value(fv), f),
                    None => Some(Value::Stuck(Head::Prim(p), spine)),
                }
            } else {
                Some(Value::Stuck(Head::Prim(p), spine))
            },
            Prim::OptionFold => if crate::prims::arity(&args, 5) {
                match (args.get(2), args.get(3), args.get(4)) {
                    (Some(none_v), Some(some_f), Some(opt)) => match opt {
                        Value::Stuck(Head::Prim(Prim::OptionSome), osp) => match spine_args(osp) {
                            Some(oargs) => if crate::prims::arity(&oargs, 2) {
                                match oargs.get(1) {
                                    Some(v) => apply(ms, clone_value(some_f), clone_value(v), f),
                                    None => Some(Value::Stuck(Head::Prim(p), spine)),
                                }
                            } else {
                                Some(Value::Stuck(Head::Prim(p), spine))
                            },
                            None => Some(Value::Stuck(Head::Prim(p), spine)),
                        },
                        Value::Stuck(Head::Prim(Prim::OptionNone), osp) => match spine_args(osp) {
                            Some(oargs) => if crate::prims::arity(&oargs, 1) {
                                Some(clone_value(none_v))
                            } else {
                                Some(Value::Stuck(Head::Prim(p), spine))
                            },
                            None => Some(Value::Stuck(Head::Prim(p), spine)),
                        },
                        _ => Some(Value::Stuck(Head::Prim(p), spine)),
                    },
                    (_, _, _) => Some(Value::Stuck(Head::Prim(p), spine)),
                }
            } else {
                Some(Value::Stuck(Head::Prim(p), spine))
            },
            _ => match crate::prims::prim_arith(p, &args) {
                Some(v) => Some(v),
                None => Some(Value::Stuck(Head::Prim(p), spine)),
            },
        },
    }
}

/// The representation of a format value (see `repr_spec`).
pub fn repr(ms: &List<MetaEntry>, fv: Value, fuel: u64) -> (r: Option<Value>)
    ensures
        r == repr_spec(*ms, fv, fuel as nat),
    decreases fuel,
{
    if fuel == 0 {
        return None;
    }
    let f = fuel - 1;
    match fv {
        Value::FormatRecord(ls, tele) => Some(
            Value::RecordType(
                ls,
                Telescope { env: tele.env, terms: Box::new(wrap_repr_terms(&tele.terms)) },
            ),
        ),
        Value::FormatOverlap(ls, tele) => Some(
            Value::RecordType(
                ls,
                Telescope { env: tele.env, terms: Box::new(wrap_repr_terms(&tele.terms)) },
            ),
        ),
        Value::Stuck(Head::Prim(fp), fsp) => {
            match spine_args(&fsp) {
                None => Some(repr_stuck(fp, fsp)),
                Some(args) => match fp {
                    Prim::FormatU8 => Some(repr_nullary(fp, fsp, args, Prim::U8Type)),
                    Prim::FormatU16Be | Prim::FormatU16Le => Some(repr_nullary(fp, fsp, args, Prim::U16Type)),
                    Prim::FormatU32Be | Prim::FormatU32Le => Some(repr_nullary(fp, fsp, args, Prim::U32Type)),
                    Prim::FormatU64Be | Prim::FormatU64Le => Some(repr_nullary(fp, fsp, args, Prim::U64Type)),
                    Prim::FormatS8 => Some(repr_nullary(fp, fsp, args, Prim::S8Type)),
                    Prim::FormatS16Be | Prim::FormatS16Le => Some(repr_nullary(fp, fsp, args, Prim::S16Type)),
                    Prim::FormatS32Be | Prim::FormatS32Le => Some(repr_nullary(fp, fsp, args, Prim::S32Type)),
                    Prim::FormatS64Be | Prim::FormatS64Le => Some(repr_nullary(fp, fsp, args, Prim::S64Type)),
                    Prim::FormatF32Be | Prim::FormatF32Le => Some(repr_nullary(fp, fsp, args, Prim::F32Type)),
                    Prim::FormatF64Be | Prim::FormatF64Le => Some(repr_nullary(fp, fsp, args, Prim::F64Type)),
                    Prim::FormatStreamPos => Some(repr_nullary(fp, fsp, args, Prim::PosType)),
                    Prim::FormatArray8 | Prim::FormatArray16 | Prim::FormatArray32
                        | Prim::FormatArray64 => if crate::prims::arity(&args, 2) {
                        match (args.get(0), args.get(1)) {
                            (Some(n), Some(f2)) => {
                                let n2 = clone_value(n);
                                match repr(ms, clone_value(f2), f) {
                                    Some(rf) => Some(
                                        Value::Stuck(
                                            Head::Prim(array_type_of_format(fp)),
                                            List::Cons(
                                                Box::new(Elim::FunApp(Box::new(n2))),
                                                Box::new(
                                                    List::Cons(
                                                        Box::new(Elim::FunApp(Box::new(rf))),
                                                        Box::new(List::Nil),
                                                    ),
                                                ),
                                            ),
                                        ),
                                    ),
                                    None => None,
                                }
                            },
                            (_, _) => Some(repr_stuck(fp, fsp)),
                        }
                    } else {
                        Some(repr_stuck(fp, fsp))
                    },
                    Prim::FormatRepeatUntilEnd => if crate::prims::arity(&args, 1) {
                        match args.get(0) {
                            Some(f2) => match repr(ms, clone_value(f2), f) {
                                Some(rf) => Some(
                                    Value::Stuck(
                                        Head::Prim(Prim::ArrayType),
                                        List::Cons(
                                            Box::new(Elim::FunApp(Box::new(rf))),
                                            Box::new(List::Nil),
                                        ),
                                    ),
                                ),
                                None => None,
                            },
                            None => Some(repr_stuck(fp, fsp)),
                        }
                    } else {
                        Some(repr_stuck(fp, fsp))
                    },
                    Prim::FormatLink => if crate::prims::arity(&args, 2) {
                        match args.get(1) {
                            Some(f2) => match repr(ms, clone_value(f2), f) {
                                Some(rf) => Some(
                                    Value::Stuck(
                                        Head::Prim(Prim::RefType),
                                        List::Cons(
                                            Box::new(Elim::FunApp(Box::new(rf))),
                                            Box::new(List::Nil),
                                        ),
                                    ),
                                ),
                                None => None,
                            },
                            None => Some(repr_stuck(fp, fsp)),
                        }
                    } else {
                        Some(repr_stuck(fp, fsp))
                    },
                    Prim::FormatDeref => if crate::prims::arity(&args, 2) {
                        match args.get(0) {
                            Some(f2) => repr(ms, clone_value(f2), f),
                            None => Some(repr_stuck(fp, fsp)),
                        }
                    } else {
                        Some(repr_stuck(fp, fsp))
                    },
                    Prim::FormatSucceed => if crate::prims::arity(&args, 2) {
                        match args.get(0) {
                            Some(a) => Some(clone_value(a)),
                            None => Some(repr_stuck(fp, fsp)),
                        }
                    } else {
                        Some(repr_stuck(fp, fsp))
                    },
                    Prim::FormatFail => if crate::prims::arity(&args, 1) {
                        match args.get(0) {
                            Some(a) => Some(clone_value(a)),
                            None => Some(repr_stuck(fp, fsp)),
                        }
                    } else {
                        Some(repr_stuck(fp, fsp))
                    },
                    Prim::FormatUnwrap => if crate::prims::arity(&args, 2) {
                        match args.get(0) {
                            Some(a) => Some(clone_value(a)),
                            None => Some(repr_stuck(fp, fsp)),
                        }
                    } else {
                        Some(repr_stuck(fp, fsp))
                    },
                    _ => Some(repr_stuck(fp, fsp)),
                },
            }
        },
        Value::Error => Some(Value::Error),
        _ => Some(
            Value::Stuck(
                Head::Prim(Prim::FormatRepr),
                List::Cons(Box::new(Elim::FunApp(Box::new(fv))), Box::new(List::Nil)),
            ),
        ),
    }
}

/// A stuck `Repr` application, rebuilt from the format's own pieces.
fn repr_stuck(fp: Prim, fsp: List<Elim>) -> (r: Value)
    ensures
        r == Value::Stuck(
            Head::Prim(Prim::FormatRepr),
            List::Cons(
                Box::new(Elim::FunApp(Box::new(Value::Stuck(Head::Prim(fp), fsp)))),
                Box::new(List::Nil),
            ),
        ),
{
    Value::Stuck(
        Head::Prim(Prim::FormatRepr),
        List::Cons(
            Box::new(Elim::FunApp(Box::new(Value::Stuck(Head::Prim(fp), fsp)))),
            Box::new(List::Nil),
        ),
    )
}

/// The representation of a nullary format primitive: the matching host
/// type when the spine is empty, otherwise the stuck `Repr` application.
fn repr_nullary(fp: Prim, fsp: List<Elim>, args: List<Value>, ty: Prim) -> (r: Value)
    requires
        spine_args_spec(fsp) == Some::<List<Value>>(args),
    ensures
        r == if args.slen() == 0 {
            Value::Stuck(Head::Prim(ty), List::<Elim>::Nil)
        } else {
            Value::Stuck(
                Head::Prim(Prim::FormatRepr),
                List::Cons(
                    Box::new(Elim::FunApp(Box::new(Value::Stuck(Head::Prim(fp), fsp)))),
                    Box::new(List::Nil),
                ),
            )
        },
{
    if crate::prims::arity(&args, 0) {
        Value::Stuck(Head::Prim(ty), List::Nil)
    } else {
        repr_stuck(fp, fsp)
    }
}

} // verus!

verus! {

/// Force a value: look through solved metavariables (see `force_spec`).
pub fn force(ms: &List<MetaEntry>, v: Value, fuel: u64) -> (r: Option<Value>)
    ensures
        r == force_spec(*ms, v, fuel as nat),
    decreases fuel,
{
    if fuel == 0 {
        return None;
    }
    let f = fuel - 1;
    match v {
        Value::Stuck(Head::FlexibleVar(m), spine) => match ms.get(m) {
            Some(e) => match e {
                MetaEntry::Solved(sol) => match apply_spine(ms, clone_value(sol), &spine, f) {
                    Some(v2) => force(ms, v2, f),
                    None => None,
                },
                MetaEntry::Unsolved => Some(Value::Stuck(Head::FlexibleVar(m), spine)),
            },
            None => Some(Value::Stuck(Head::FlexibleVar(m), spine)),
        },
        _ => Some(v),
    }
}

/// Replay a spine of eliminations on a value, oldest first.
pub fn apply_spine(ms: &List<MetaEntry>, head: Value, spine: &List<Elim>, fuel: u64)
    -> (r: Option<Value>)
    ensures
        r == apply_spine_spec(*ms, head, *spine, fuel as nat),
    decreases fuel,
{
    if fuel == 0 {
        return None;
    }
    let f = fuel - 1;
    match spine {
        List::Nil => Some(head),
        List::Cons(e, rest) => {
            let once = match &**e {
                Elim::FunApp(arg) => apply(ms, head, clone_value(arg), f),
                Elim::RecordProj(l) => proj(ms, head, *l, f),
                Elim::ConstMatch(brs) => match_value(ms, head, clone_branches(brs), f),
            };
            match once {
                Some(h2) => apply_spine(ms, h2, rest, f),
                None => None,
            }
        },
    }
}

/// Quote a value back to a core term under `size` bound rigid variables
/// (see `quote_spec`).
pub fn quote(ms: &List<MetaEntry>, size: usize, v: Value, fuel: u64) -> (r: Option<Term>)
    ensures
        r == quote_spec(*ms, size, v, fuel as nat),
    decreases fuel,
{
    if fuel == 0 {
        return None;
    }
    let f = fuel - 1;
    match v {
        Value::Universe => Some(Term::Universe),
        Value::ConstLit(c) => Some(Term::ConstLit(c)),
        Value::Error => Some(Term::Prim(Prim::ReportedError)),
        Value::FunType(n, dom, cod) => if size < usize::MAX {
            match quote(ms, size, *dom, f) {
                Some(dt) => match apply_closure(ms, &cod, fresh(size), f) {
                    Some(body) => match quote(ms, size + 1, body, f) {
                        Some(bt) => Some(Term::FunType(n, Box::new(dt), Box::new(bt))),
                        None => None,
                    },
                    None => None,
                },
                None => None,
            }
        } else {
            None
        },
        Value::FunLit(n, clo) => if size < usize::MAX {
            match apply_closure(ms, &clo, fresh(size), f) {
                Some(body) => match quote(ms, size + 1, body, f) {
                    Some(bt) => Some(Term::FunLit(n, Box::new(bt))),
                    None => None,
                },
                None => None,
            }
        } else {
            None
        },
        Value::RecordType(ls, tele) => match quote_tele(ms, size, tele, f) {
            Some(ts) => Some(Term::RecordType(ls, ts)),
            None => None,
        },
        Value::RecordLit(ls, vs) => match quote_list(ms, size, &vs, f) {
            Some(ts) => Some(Term::RecordLit(ls, ts)),
            None => None,
        },
        Value::ArrayLit(vs) => match quote_list(ms, size, &vs, f) {
            Some(ts) => Some(Term::ArrayLit(ts)),
            None => None,
        },
        Value::FormatRecord(ls, tele) => match quote_tele(ms, size, tele, f) {
            Some(ts) => Some(Term::FormatRecord(ls, ts)),
            None => None,
        },
        Value::FormatOverlap(ls, tele) => match quote_tele(ms, size, tele, f) {
            Some(ts) => Some(Term::FormatOverlap(ls, ts)),
            None => None,
        },
        Value::Stuck(h, spine) => {
            let head_term = match h {
                Head::RigidVar(level) => if level < size {
                    Some(Term::RigidVar(size - 1 - level))
                } else {
                    None
                },
                Head::FlexibleVar(m) => Some(Term::FlexibleVar(m)),
                Head::Prim(p) => Some(Term::Prim(p)),
            };
            match head_term {
                Some(ht) => quote_spine(ms, size, ht, &spine, f),
                None => None,
            }
        },
    }
}

/// Quote a list of values.
pub fn quote_list(ms: &List<MetaEntry>, size: usize, vs: &List<Value>, fuel: u64)
    -> (r: Option<List<Term>>)
    ensures
        r == quote_list_spec(*ms, size, *vs, fuel as nat),
    decreases fuel,
{
    if fuel == 0 {
        return None;
    }
    let f = fuel - 1;
    match vs {
        List::Nil => Some(List::Nil),
        List::Cons(v, rest) => match quote(ms, size, clone_value(v), f) {
            Some(t) => match quote_list(ms, size, rest, f) {
                Some(ts) => Some(List::Cons(Box::new(t), Box::new(ts))),
                None => None,
            },
            None => None,
        },
    }
}

/// Quote a telescope (see `quote_tele_spec`).
pub fn quote_tele(ms: &List<MetaEntry>, size: usize, tele: Telescope, fuel: u64)
    -> (r: Option<List<Term>>)
    ensures
        r == quote_tele_spec(*ms, size, tele, fuel as nat),
    decreases fuel,
{
    if fuel == 0 {
        return None;
    }
    let f = fuel - 1;
    match *tele.terms {
        List::Nil => Some(List::Nil),
        List::Cons(t, rest) => if size < usize::MAX {
            match eval(ms, &tele.env, &t, f) {
                Some(tv) => match quote(ms, size, tv, f) {
                    Some(tt) => match quote_tele(
                        ms,
                        size + 1,
                        Telescope {
                            env: Box::new(List::Cons(Box::new(fresh(size)), tele.env)),
                            terms: rest,
                        },
                        f,
                    ) {
                        Some(ts) => Some(List::Cons(Box::new(tt), Box::new(ts))),
                        None => None,
                    },
                    None => None,
                },
                None => None,
            }
        } else {
            None
        },
    }
}

/// Quote a spine of eliminations onto an already-quoted head term.
pub fn quote_spine(ms: &List<MetaEntry>, size: usize, head: Term, spine: &List<Elim>, fuel: u64)
    -> (r: Option<Term>)
    ensures
        r == quote_spine_spec(*ms, size, head, *spine, fuel as nat),
    decreases fuel,
{
    if fuel == 0 {
        return None;
    }
    let f = fuel - 1;
    match spine {
        List::Nil => Some(head),
        List::Cons(e, rest) => {
            let once = match &**e {
                Elim::FunApp(arg) => match quote(ms, size, clone_value(arg), f) {
                    Some(at) => Some(Term::FunApp(Box::new(head), Box::new(at))),
                    None => None,
                },
                Elim::RecordProj(l) => Some(Term::RecordProj(Box::new(head), *l)),
                Elim::ConstMatch(brs) => match quote_branches(ms, size, &brs.env, &brs.branches, f) {
                    Some(bs) => match &brs.default {
                        Some(d) => match eval(ms, &brs.env, d, f) {
                            Some(dv) => match quote(ms, size, dv, f) {
                                Some(dt) => Some(
                                    Term::ConstMatch(Box::new(head), bs, Some(Box::new(dt))),
                                ),
                                None => None,
                            },
                            None => None,
                        },
                        None => Some(Term::ConstMatch(Box::new(head), bs, None)),
                    },
                    None => None,
                },
            };
            match once {
                Some(h2) => quote_spine(ms, size, h2, rest, f),
                None => None,
            }
        },
    }
}

/// Quote the branches of a stuck constant match.
pub fn quote_branches(
    ms: &List<MetaEntry>,
    size: usize,
    env: &Env,
    bs: &List<(Const, Term)>,
    fuel: u64,
) -> (r: Option<List<(Const, Term)>>)
    ensures
        r == quote_branches_spec(*ms, size, *env, *bs, fuel as nat),
    decreases fuel,
{
    if fuel == 0 {
        return None;
    }
    let f = fuel - 1;
    match bs {
        List::Nil => Some(List::Nil),
        List::Cons(b, rest) => match eval(ms, env, &(**b).1, f) {
            Some(bv) => match quote(ms, size, bv, f) {
                Some(bt) => match quote_branches(ms, size, env, rest, f) {
                    Some(bts) => Some(List::Cons(Box::new(((**b).0, bt)), Box::new(bts))),
                    None => None,
                },
                None => None,
            },
            None => None,
        },
    }
}

/// Normalize a term: evaluate, then quote at the environment's depth.
pub fn normalize(ms: &List<MetaEntry>, env: &Env, t: &Term, fuel: u64) -> (r: Option<Term>)
    ensures
        r == normalize_spec(*ms, *env, *t, fuel as nat),
    decreases fuel,
{
    if fuel == 0 {
        return None;
    }
    match env.len() {
        None => None,
        Some(size) => {
            let f = fuel - 1;
            match eval(ms, env, t, f) {
                Some(v) => quote(ms, size, v, f),
                None => None,
            }
        },
    }
}

} // verus!

verus! {

/// Definitional equality of two values under `size` bound variables
/// (see `is_equal_spec`).
pub fn is_equal(ms: &List<MetaEntry>, size: usize, v1: Value, v2: Value, fuel: u64)
    -> (r: Option<bool>)
    ensures
        r == is_equal_spec(*ms, size, v1, v2, fuel as nat),
    decreases fuel,
{
    if fuel == 0 {
        return None;
    }
    let f = fuel - 1;
    match (force(ms, v1, f), force(ms, v2, f)) {
        (Some(a), Some(b)) => is_equal_forced(ms, size, a, b, f),
        (_, _) => None,
    }
}

/// Equality of two already-forced values.
pub fn is_equal_forced(ms: &List<MetaEntry>, size: usize, a: Value, b: Value, fuel: u64)
    -> (r: Option<bool>)
    ensures
        r == is_equal_forced_spec(*ms, size, a, b, fuel as nat),
    decreases fuel,
{
    if fuel == 0 {
        return None;
    }
    let f = fuel - 1;
    match (a, b) {
        (Value::Error, _) => Some(true),
        (_, Value::Error) => Some(true),
        (Value::Universe, Value::Universe) => Some(true),
        (Value::ConstLit(x), Value::ConstLit(y)) => Some(x == y),
        (Value::FunType(_, d1, c1), Value::FunType(_, d2, c2)) => match is_equal(
            ms,
            size,
            *d1,
            *d2,
            f,
        ) {
            Some(true) => closures_eq(ms, size, &c1, &c2, f),
            other => other,
        },
        (Value::FunLit(_, c1), Value::FunLit(_, c2)) => closures_eq(ms, size, &c1, &c2, f),
        (Value::FunLit(_, c1), Value::Stuck(h, sp)) => if size < usize::MAX {
            match (
                apply_closure(ms, &c1, fresh(size), f),
                apply(ms, Value::Stuck(h, sp), fresh(size), f),
            ) {
                (Some(b1), Some(b2)) => is_equal(ms, size + 1, b1, b2, f),
                (_, _) => None,
            }
        } else {
            None
        },
        (Value::Stuck(h, sp), Value::FunLit(_, c2)) => if size < usize::MAX {
            match (
                apply(ms, Value::Stuck(h, sp), fresh(size), f),
                apply_closure(ms, &c2, fresh(size), f),
            ) {
                (Some(b1), Some(b2)) => is_equal(ms, size + 1, b1, b2, f),
                (_, _) => None,
            }
        } else {
            None
        },
        (Value::RecordType(ls1, t1), Value::RecordType(ls2, t2)) => if labels_eq(&ls1, &ls2) {
            teles_eq(ms, size, t1, t2, f)
        } else {
            Some(false)
        },
        (Value::FormatRecord(ls1, t1), Value::FormatRecord(ls2, t2)) => if labels_eq(&ls1, &ls2) {
            teles_eq(ms, size, t1, t2, f)
        } else {
            Some(false)
        },
        (Value::FormatOverlap(ls1, t1), Value::FormatOverlap(ls2, t2)) => if labels_eq(&ls1, &ls2) {
            teles_eq(ms, size, t1, t2, f)
        } else {
            Some(false)
        },
        (Value::RecordLit(ls1, vs1), Value::RecordLit(ls2, vs2)) => if labels_eq(&ls1, &ls2) {
            values_eq(ms, size, &vs1, &vs2, f)
        } else {
            Some(false)
        },
        (Value::RecordLit(ls1, vs1), Value::Stuck(h, sp)) => eta_record_eq(
            ms,
            size,
            &ls1,
            &vs1,
            &Value::Stuck(h, sp),
            f,
        ),
        (Value::Stuck(h, sp), Value::RecordLit(ls2, vs2)) => eta_record_eq(
            ms,
            size,
            &ls2,
            &vs2,
            &Value::Stuck(h, sp),
            f,
        ),
        (Value::ArrayLit(vs1), Value::ArrayLit(vs2)) => values_eq(ms, size, &vs1, &vs2, f),
        (Value::Stuck(h1, sp1), Value::Stuck(h2, sp2)) => if h1 == h2 {
            spines_eq(ms, size, &sp1, &sp2, f)
        } else {
            Some(false)
        },
        (_, _) => Some(false),
    }
}

/// Equality of two closures: apply both to the same fresh variable.
pub fn closures_eq(ms: &List<MetaEntry>, size: usize, c1: &Closure, c2: &Closure, fuel: u64)
    -> (r: Option<bool>)
    ensures
        r == closures_eq_spec(*ms, size, *c1, *c2, fuel as nat),
    decreases fuel,
{
    if fuel == 0 {
        return None;
    }
    if size < usize::MAX {
        let f = fuel - 1;
        match (apply_closure(ms, c1, fresh(size), f), apply_closure(ms, c2, fresh(size), f)) {
            (Some(b1), Some(b2)) => is_equal(ms, size + 1, b1, b2, f),
            (_, _) => None,
        }
    } else {
        None
    }
}

/// Pointwise equality of two value lists.
pub fn values_eq(ms: &List<MetaEntry>, size: usize, vs1: &List<Value>, vs2: &List<Value>, fuel: u64)
    -> (r: Option<bool>)
    ensures
        r == values_eq_spec(*ms, size, *vs1, *vs2, fuel as nat),
    decreases fuel,
{
    if fuel == 0 {
        return None;
    }
    let f = fuel - 1;
    match (vs1, vs2) {
        (List::Nil, List::Nil) => Some(true),
        (List::Cons(v1, r1), List::Cons(v2, r2)) => match is_equal(
            ms,
            size,
            clone_value(v1),
            clone_value(v2),
            f,
        ) {
            Some(true) => values_eq(ms, size, r1, r2, f),
            other => other,
        },
        (_, _) => Some(false),
    }
}

/// Equality of two telescopes, field type by field type.
pub fn teles_eq(ms: &List<MetaEntry>, size: usize, t1: Telescope, t2: Telescope, fuel: u64)
    -> (r: Option<bool>)
    ensures
        r == teles_eq_spec(*ms, size, t1, t2, fuel as nat),
    decreases fuel,
{
    if fuel == 0 {
        return None;
    }
    let f = fuel - 1;
    match (*t1.terms, *t2.terms) {
        (List::Nil, List::Nil) => Some(true),
        (List::Cons(a1, r1), List::Cons(a2, r2)) => if size < usize::MAX {
            match (eval(ms, &t1.env, &a1, f), eval(ms, &t2.env, &a2, f)) {
                (Some(x1), Some(x2)) => match is_equal(ms, size, x1, x2, f) {
                    Some(true) => teles_eq(
                        ms,
                        size + 1,
                        Telescope {
                            env: Box::new(List::Cons(Box::new(fresh(size)), t1.env)),
                            terms: r1,
                        },
                        Telescope {
                            env: Box::new(List::Cons(Box::new(fresh(size)), t2.env)),
                            terms: r2,
                        },
                        f,
                    ),
                    other => other,
                },
                (_, _) => None,
            }
        } else {
            None
        },
        (_, _) => Some(false),
    }
}

/// Eta equality of a record literal against a neutral value.
pub fn eta_record_eq(
    ms: &List<MetaEntry>,
    size: usize,
    ls: &List<StringId>,
    vs: &List<Value>,
    neutral: &Value,
    fuel: u64,
) -> (r: Option<bool>)
    ensures
        r == eta_record_eq_spec(*ms, size, *ls, *vs, *neutral, fuel as nat),
    decreases fuel,
{
    if fuel == 0 {
        return None;
    }
    let f = fuel - 1;
    match (ls, vs) {
        (List::Nil, List::Nil) => Some(true),
        (List::Cons(l, lrest), List::Cons(v, vrest)) => match proj(ms, clone_value(neutral), **l, f) {
            Some(p) => match is_equal(ms, size, clone_value(v), p, f) {
                Some(true) => eta_record_eq(ms, size, lrest, vrest, neutral, f),
                other => other,
            },
            None => None,
        },
        (_, _) => Some(false),
    }
}

/// Pointwise equality of two spines.
pub fn spines_eq(ms: &List<MetaEntry>, size: usize, sp1: &List<Elim>, sp2: &List<Elim>, fuel: u64)
    -> (r: Option<bool>)
    ensures
        r == spines_eq_spec(*ms, size, *sp1, *sp2, fuel as nat),
    decreases fuel,
{
    if fuel == 0 {
        return None;
    }
    let f = fuel - 1;
    match (sp1, sp2) {
        (List::Nil, List::Nil) => Some(true),
        (List::Cons(e1, r1), List::Cons(e2, r2)) => {
            let once = match (&**e1, &**e2) {
                (Elim::FunApp(a1), Elim::FunApp(a2)) => is_equal(
                    ms,
                    size,
                    clone_value(a1),
                    clone_value(a2),
                    f,
                ),
                (Elim::RecordProj(l1), Elim::RecordProj(l2)) => Some(*l1 == *l2),
                (Elim::ConstMatch(b1), Elim::ConstMatch(b2)) => branches_eq(ms, size, b1, b2, f),
                (_, _) => Some(false),
            };
            match once {
                Some(true) => spines_eq(ms, size, r1, r2, f),
                other => other,
            }
        },
        (_, _) => Some(false),
    }
}

/// Equality of two stuck constant matches.
pub fn branches_eq(ms: &List<MetaEntry>, size: usize, b1: &Branches, b2: &Branches, fuel: u64)
    -> (r: Option<bool>)
    ensures
        r == branches_eq_spec(*ms, size, *b1, *b2, fuel as nat),
    decreases fuel,
{
    if fuel == 0 {
        return None;
    }
    let f = fuel - 1;
    match branch_lists_eq(ms, size, &b1.env, &b1.branches, &b2.env, &b2.branches, f) {
        Some(true) => match (&b1.default, &b2.default) {
            (None, None) => Some(true),
            (Some(d1), Some(d2)) => match (eval(ms, &b1.env, d1, f), eval(ms, &b2.env, d2, f)) {
                (Some(x1), Some(x2)) => is_equal(ms, size, x1, x2, f),
                (_, _) => None,
            },
            (_, _) => Some(false),
        },
        other => other,
    }
}

/// Pointwise equality of two branch lists under their environments.
pub fn branch_lists_eq(
    ms: &List<MetaEntry>,
    size: usize,
    env1: &Env,
    bs1: &List<(Const, Term)>,
    env2: &Env,
    bs2: &List<(Const, Term)>,
    fuel: u64,
) -> (r: Option<bool>)
    ensures
        r == branch_lists_eq_spec(*ms, size, *env1, *bs1, *env2, *bs2, fuel as nat),
    decreases fuel,
{
    if fuel == 0 {
        return None;
    }
    let f = fuel - 1;
    match (bs1, bs2) {
        (List::Nil, List::Nil) => Some(true),
        (List::Cons(p1, r1), List::Cons(p2, r2)) => if (**p1).0 == (**p2).0 {
            match (eval(ms, env1, &(**p1).1, f), eval(ms, env2, &(**p2).1, f)) {
                (Some(x1), Some(x2)) => match is_equal(ms, size, x1, x2, f) {
                    Some(true) => branch_lists_eq(ms, size, env1, r1, env2, r2, f),
                    other => other,
                },
                (_, _) => None,
            }
        } else {
            Some(false)
        },
        (_, _) => Some(false),
    }
}

} // verus!

verus! {

/// First-order values: constants, the universe, and arrays and records
/// of first-order values — no closures and no neutral values.
pub open spec fn first_order_spec(v: Value) -> bool
    decreases v,
{
    match v {
        Value::Universe => true,
        Value::ConstLit(_) => true,
        Value::ArrayLit(vs) => first_order_list_spec(vs),
        Value::RecordLit(_, vs) => first_order_list_spec(vs),
        _ => false,
    }
}

/// Every value of the list is first order.
pub open spec fn first_order_list_spec(vs: List<Value>) -> bool
    decreases vs,
{
    match vs {
        List::Nil => true,
        List::Cons(v, rest) => first_order_spec(*v) && first_order_list_spec(*rest),
    }
}

/// Law (evaluation–quotation round trip, first-order case): when quoting
/// a first-order value yields a term, evaluating that term under any
/// environment yields the value back, with the same fuel.
pub proof fn lemma_eval_quote_first_order(
    ms: List<MetaEntry>,
    env: Env,
    size: usize,
    v: Value,
    fuel: nat,
)
    requires
        first_order_spec(v),
    ensures
        match quote_spec(ms, size, v, fuel) {
            Some(t) => eval_spec(ms, env, t, fuel) == Some(v),
            None => true,
        },
    decreases fuel,
{
    if fuel > 0 {
        let f = (fuel - 1) as nat;
        match v {
            Value::ArrayLit(vs) => {
                lemma_eval_quote_list_first_order(ms, env, size, vs, f);
            },
            Value::RecordLit(_, vs) => {
                lemma_eval_quote_list_first_order(ms, env, size, vs, f);
            },
            _ => {},
        }
    }
}

/// As `lemma_eval_quote_first_order`, for lists of values.
pub proof fn lemma_eval_quote_list_first_order(
    ms: List<MetaEntry>,
    env: Env,
    size: usize,
    vs: List<Value>,
    fuel: nat,
)
    requires
        first_order_list_spec(vs),
    ensures
        match quote_list_spec(ms, size, vs, fuel) {
            Some(ts) => eval_list_spec(ms, env, ts, fuel) == Some(vs),
            None => true,
        },
    decreases fuel,
{
    if fuel > 0 {
        let f = (fuel - 1) as nat;
        match vs {
            List::Nil => {},
            List::Cons(v, rest) => {
                lemma_eval_quote_first_order(ms, env, size, *v, f);
                lemma_eval_quote_list_first_order(ms, env, size, *rest, f);
            },
        }
    }
}

/// Law (normalising twice is a fixed point, first-order case): when a
/// term evaluates to a first-order value, normalising its normal form
/// gives the normal form back.
pub proof fn lemma_normalize_fixed_point(ms: List<MetaEntry>, env: Env, t: Term, fuel: nat)
    requires
        fuel >= 1,
        match eval_spec(ms, env, t, (fuel - 1) as nat) {
            Some(v) => first_order_spec(v),
            None => true,
        },
    ensures
        match normalize_spec(ms, env, t, fuel) {
            Some(nt) => normalize_spec(ms, env, nt, fuel) == Some(nt),
            None => true,
        },
{
    if env.slen() <= usize::MAX {
        let f = (fuel - 1) as nat;
        let size = env.slen() as usize;
        match eval_spec(ms, env, t, f) {
            Some(v) => {
                lemma_eval_quote_first_order(ms, env, size, v, f);
            },
            None => {},
        }
    }
}

/// Format values built only from the format primitives (with their
/// arguments present) and from record and overlap formats.
pub open spec fn prim_format_spec(v: Value) -> bool
    decreases v,
{
    match v {
        Value::FormatRecord(_, _) => true,
        Value::FormatOverlap(_, _) => true,
        Value::Stuck(Head::Prim(fp), spine) => match fp {
            Prim::FormatU8 | Prim::FormatU16Be | Prim::FormatU16Le | Prim::FormatU32Be
                | Prim::FormatU32Le | Prim::FormatU64Be | Prim::FormatU64Le | Prim::FormatS8
                | Prim::FormatS16Be | Prim::FormatS16Le | Prim::FormatS32Be | Prim::FormatS32Le
                | Prim::FormatS64Be | Prim::FormatS64Le | Prim::FormatF32Be | Prim::FormatF32Le
                | Prim::FormatF64Be | Prim::FormatF64Le | Prim::FormatStreamPos => spine is Nil,
            Prim::FormatArray8 | Prim::FormatArray16 | Prim::FormatArray32 | Prim::FormatArray64 => match spine {
                List::Cons(e1, rest1) => match (*e1, *rest1) {
                    (Elim::FunApp(_), List::Cons(e2, rest2)) => match (*e2, *rest2) {
                        (Elim::FunApp(fv), List::Nil) => prim_format_spec(*fv),
                        (_, _) => false,
                    },
                    (_, _) => false,
                },
                List::Nil => false,
            },
            Prim::FormatRepeatUntilEnd => match spine {
                List::Cons(e1, rest1) => match (*e1, *rest1) {
                    (Elim::FunApp(fv), List::Nil) => prim_format_spec(*fv),
                    (_, _) => false,
                },
                List::Nil => false,
            },
            Prim::FormatLink => match spine {
                List::Cons(e1, rest1) => match (*e1, *rest1) {
                    (Elim::FunApp(_), List::Cons(e2, rest2)) => match (*e2, *rest2) {
                        (Elim::FunApp(fv), List::Nil) => prim_format_spec(*fv),
                        (_, _) => false,
                    },
                    (_, _) => false,
                },
                List::Nil => false,
            },
            Prim::FormatDeref => match spine {
                List::Cons(e1, rest1) => match (*e1, *rest1) {
                    (Elim::FunApp(fv), List::Cons(e2, rest2)) => match (*e2, *rest2) {
                        (Elim::FunApp(_), List::Nil) => prim_format_spec(*fv),
                        (_, _) => false,
                    },
                    (_, _) => false,
                },
                List::Nil => false,
            },
            _ => false,
        },
        _ => false,
    }
}

/// Whether a primitive is a type constructor.
pub open spec fn type_prim_spec(p: Prim) -> bool {
    match p {
        Prim::VoidType | Prim::BoolType | Prim::U8Type | Prim::U16Type | Prim::U32Type
            | Prim::U64Type | Prim::S8Type | Prim::S16Type | Prim::S32Type | Prim::S64Type
            | Prim::F32Type | Prim::F64Type | Prim::OptionType | Prim::ArrayType | Prim::Array8Type
            | Prim::Array16Type | Prim::Array32Type | Prim::Array64Type | Prim::PosType
            | Prim::RefType | Prim::FormatType => true,
        _ => false,
    }
}

/// Values of the type universe: the universe itself, record types, and
/// applied type-constructor primitives.
pub open spec fn is_type_value_spec(v: Value) -> bool {
    match v {
        Value::Universe => true,
        Value::RecordType(_, _) => true,
        Value::Stuck(Head::Prim(p), _) => type_prim_spec(p),
        _ => false,
    }
}

/// The arguments of a one-application spine.
pub proof fn lemma_spine_args_one(a0: Value)
    ensures
        ({
            let sp = List::Cons(
                Box::new(Elim::FunApp(Box::new(a0))),
                Box::new(List::<Elim>::Nil),
            );
            let args = List::Cons(Box::new(a0), Box::new(List::<Value>::Nil));
            spine_args_spec(sp) == Some(args) && args.slen() == 1 && args.sget(0) == Some(a0)
        }),
{
    let args = List::Cons(Box::new(a0), Box::new(List::<Value>::Nil));
    assert(spine_args_spec(List::<Elim>::Nil) == Some(List::<Value>::Nil));
    assert(List::<Value>::Nil.slen() == 0);
    assert(args.slen() == 1);
    assert(args.sget(0) == Some(a0));
}

/// The arguments of a two-application spine.
pub proof fn lemma_spine_args_two(a0: Value, a1: Value)
    ensures
        ({
            let sp = List::Cons(
                Box::new(Elim::FunApp(Box::new(a0))),
                Box::new(
                    List::Cons(Box::new(Elim::FunApp(Box::new(a1))), Box::new(List::<Elim>::Nil)),
                ),
            );
            let args = List::Cons(
                Box::new(a0),
                Box::new(List::Cons(Box::new(a1), Box::new(List::<Value>::Nil))),
            );
            spine_args_spec(sp) == Some(args) && args.slen() == 2 && args.sget(0) == Some(a0)
                && args.sget(1) == Some(a1)
        }),
{
    let rest = List::Cons(Box::new(Elim::FunApp(Box::new(a1))), Box::new(List::<Elim>::Nil));
    let args1 = List::Cons(Box::new(a1), Box::new(List::<Value>::Nil));
    assert(spine_args_spec(List::<Elim>::Nil) == Some(List::<Value>::Nil));
    assert(spine_args_spec(rest) == Some(args1));
    let args = List::Cons(
        Box::new(a0),
        Box::new(List::Cons(Box::new(a1), Box::new(List::<Value>::Nil))),
    );
    assert(List::<Value>::Nil.slen() == 0);
    assert(args1.slen() == 1);
    assert(args.slen() == 2);
    assert(args1.sget(0) == Some(a1));
    assert(args.sget(0) == Some(a0));
    assert(args.sget(1) == Some(a1));
}

/// Law (`Repr` totality on format primitives): the representation of a
/// format built only from the format primitives and record and overlap
/// formats is a value of the type universe, whenever the computation
/// completes within its fuel.
pub proof fn lemma_repr_type(ms: List<MetaEntry>, fv: Value, fuel: nat)
    requires
        prim_format_spec(fv),
    ensures
        match repr_spec(ms, fv, fuel) {
            Some(r) => is_type_value_spec(r),
            None => true,
        },
    decreases fuel,
{
    if fuel > 0 {
        let f = (fuel - 1) as nat;
        match fv {
            Value::Stuck(Head::Prim(fp), spine) => match fp {
                Prim::FormatU8 | Prim::FormatU16Be | Prim::FormatU16Le | Prim::FormatU32Be
                    | Prim::FormatU32Le | Prim::FormatU64Be | Prim::FormatU64Le | Prim::FormatS8
                    | Prim::FormatS16Be | Prim::FormatS16Le | Prim::FormatS32Be
                    | Prim::FormatS32Le | Prim::FormatS64Be | Prim::FormatS64Le
                    | Prim::FormatF32Be | Prim::FormatF32Le | Prim::FormatF64Be
                    | Prim::FormatF64Le | Prim::FormatStreamPos => {
                    assert(spine_args_spec(List::<Elim>::Nil) == Some(List::<Value>::Nil));
                },
                Prim::FormatArray8 | Prim::FormatArray16 | Prim::FormatArray32
                    | Prim::FormatArray64 => match spine {
                    List::Cons(e1, rest1) => match (*e1, *rest1) {
                        (Elim::FunApp(_), List::Cons(e2, rest2)) => match (*e2, *rest2) {
                            (Elim::FunApp(f2), List::Nil) => {
                                lemma_spine_args_two(*(*e1)->FunApp_0, *f2);
                                lemma_repr_type(ms, *f2, f);
                            },
                            (_, _) => {},
                        },
                        (_, _) => {},
                    },
                    List::Nil => {},
                },
                Prim::FormatRepeatUntilEnd => match spine {
                    List::Cons(e1, rest1) => match (*e1, *rest1) {
                        (Elim::FunApp(f2), List::Nil) => {
                            lemma_spine_args_one(*f2);
                            lemma_repr_type(ms, *f2, f);
                        },
                        (_, _) => {},
                    },
                    List::Nil => {},
                },
                Prim::FormatLink => match spine {
                    List::Cons(e1, rest1) => match (*e1, *rest1) {
                        (Elim::FunApp(_), List::Cons(e2, rest2)) => match (*e2, *rest2) {
                            (Elim::FunApp(f2), List::Nil) => {
                                lemma_spine_args_two(*(*e1)->FunApp_0, *f2);
                                lemma_repr_type(ms, *f2, f);
                            },
                            (_, _) => {},
                        },
                        (_, _) => {},
                    },
                    List::Nil => {},
                },
                Prim::FormatDeref => match spine {
                    List::Cons(e1, rest1) => match (*e1, *rest1) {
                        (Elim::FunApp(f2), List::Cons(e2, rest2)) => match (*e2, *rest2) {
                            (Elim::FunApp(_), List::Nil) => {
                                lemma_spine_args_two(*f2, *(*e2)->FunApp_0);
                                lemma_repr_type(ms, *f2, f);
                            },
                            (_, _) => {},
                        },
                        (_, _) => {},
                    },
                    List::Nil => {},
                },
                _ => {},
            },
            _ => {},
        }
    }
}

} // verus!

verus! {

/// Logical equality of constants is reflexive.
pub proof fn lemma_const_eq_refl(c: Const)
    ensures
        const_eq_spec(c, c),
{
}

/// Label-list equality is reflexive.
pub proof fn lemma_labels_eq_refl(ls: List<StringId>)
    ensures
        labels_eq_spec(ls, ls),
    decreases ls,
{
    match ls {
        List::Nil => {},
        List::Cons(_, rest) => {
            lemma_labels_eq_refl(*rest);
        },
    }
}

/// Law (definitional equality is reflexive): comparing a value with
/// itself never yields inequality — it yields equality, or runs out of
/// fuel.
pub proof fn lemma_is_equal_refl(ms: List<MetaEntry>, size: usize, v: Value, fuel: nat)
    ensures
        is_equal_spec(ms, size, v, v, fuel) != Some(false),
    decreases fuel,
{
    if fuel > 0 {
        let f = (fuel - 1) as nat;
        match force_spec(ms, v, f) {
            Some(a) => {
                lemma_is_equal_forced_refl(ms, size, a, f);
            },
            None => {},
        }
    }
}

/// Reflexivity for already-forced values.
pub proof fn lemma_is_equal_forced_refl(ms: List<MetaEntry>, size: usize, a: Value, fuel: nat)
    ensures
        is_equal_forced_spec(ms, size, a, a, fuel) != Some(false),
    decreases fuel,
{
    if fuel > 0 {
        let f = (fuel - 1) as nat;
        match a {
            Value::ConstLit(x) => {
                lemma_const_eq_refl(x);
            },
            Value::FunType(_, d, c) => {
                lemma_is_equal_refl(ms, size, *d, f);
                lemma_closures_eq_refl(ms, size, c, f);
            },
            Value::FunLit(_, c) => {
                lemma_closures_eq_refl(ms, size, c, f);
            },
            Value::RecordType(ls, t) => {
                lemma_labels_eq_refl(ls);
                lemma_teles_eq_refl(ms, size, t, f);
            },
            Value::FormatRecord(ls, t) => {
                lemma_labels_eq_refl(ls);
                lemma_teles_eq_refl(ms, size, t, f);
            },
            Value::FormatOverlap(ls, t) => {
                lemma_labels_eq_refl(ls);
                lemma_teles_eq_refl(ms, size, t, f);
            },
            Value::RecordLit(ls, vs) => {
                lemma_labels_eq_refl(ls);
                lemma_values_eq_refl(ms, size, vs, f);
            },
            Value::ArrayLit(vs) => {
                lemma_values_eq_refl(ms, size, vs, f);
            },
            Value::Stuck(_, sp) => {
                lemma_spines_eq_refl(ms, size, sp, f);
            },
            _ => {},
        }
    }
}

/// Reflexivity for closures: a closure applied twice to the same fresh
/// variable gives the same body.
pub proof fn lemma_closures_eq_refl(ms: List<MetaEntry>, size: usize, c: Closure, fuel: nat)
    ensures
        closures_eq_spec(ms, size, c, c, fuel) != Some(false),
    decreases fuel,
{
    if fuel > 0 && size < usize::MAX {
        let f = (fuel - 1) as nat;
        match apply_closure_spec(ms, c, fresh_spec(size), f) {
            Some(b) => {
                lemma_is_equal_refl(ms, (size + 1) as usize, b, f);
            },
            None => {},
        }
    }
}

/// Reflexivity for value lists.
pub proof fn lemma_values_eq_refl(ms: List<MetaEntry>, size: usize, vs: List<Value>, fuel: nat)
    ensures
        values_eq_spec(ms, size, vs, vs, fuel) != Some(false),
    decreases fuel,
{
    if fuel > 0 {
        let f = (fuel - 1) as nat;
        match vs {
            List::Nil => {},
            List::Cons(v, rest) => {
                lemma_is_equal_refl(ms, size, *v, f);
                lemma_values_eq_refl(ms, size, *rest, f);
            },
        }
    }
}

/// Reflexivity for telescopes.
pub proof fn lemma_teles_eq_refl(ms: List<MetaEntry>, size: usize, t: Telescope, fuel: nat)
    ensures
        teles_eq_spec(ms, size, t, t, fuel) != Some(false),
    decreases fuel,
{
    if fuel > 0 {
        let f = (fuel - 1) as nat;
        match *t.terms {
            List::Nil => {},
            List::Cons(a1, r1) => if size < usize::MAX {
                match eval_spec(ms, *t.env, *a1, f) {
                    Some(x) => {
                        lemma_is_equal_refl(ms, size, x, f);
                        lemma_teles_eq_refl(
                            ms,
                            (size + 1) as usize,
                            Telescope {
                                env: Box::new(List::Cons(Box::new(fresh_spec(size)), t.env)),
                                terms: r1,
                            },
                            f,
                        );
                    },
                    None => {},
                }
            } else {
            },
        }
    }
}

/// Reflexivity for spines.
pub proof fn lemma_spines_eq_refl(ms: List<MetaEntry>, size: usize, sp: List<Elim>, fuel: nat)
    ensures
        spines_eq_spec(ms, size, sp, sp, fuel) != Some(false),
    decreases fuel,
{
    if fuel > 0 {
        let f = (fuel - 1) as nat;
        match sp {
            List::Nil => {},
            List::Cons(e, rest) => {
                match *e {
                    Elim::FunApp(a1) => {
                        lemma_is_equal_refl(ms, size, *a1, f);
                    },
                    Elim::RecordProj(_) => {},
                    Elim::ConstMatch(b) => {
                        lemma_branches_eq_refl(ms, size, b, f);
                    },
                }
                lemma_spines_eq_refl(ms, size, *rest, f);
            },
        }
    }
}

/// Reflexivity for stuck constant matches.
pub proof fn lemma_branches_eq_refl(ms: List<MetaEntry>, size: usize, b: Branches, fuel: nat)
    ensures
        branches_eq_spec(ms, size, b, b, fuel) != Some(false),
    decreases fuel,
{
    if fuel > 0 {
        let f = (fuel - 1) as nat;
        lemma_branch_lists_eq_refl(ms, size, *b.env, *b.branches, f);
        match b.default {
            Some(d) => match eval_spec(ms, *b.env, *d, f) {
                Some(x) => {
                    lemma_is_equal_refl(ms, size, x, f);
                },
                None => {},
            },
            None => {},
        }
    }
}

/// Reflexivity for branch lists.
pub proof fn lemma_branch_lists_eq_refl(
    ms: List<MetaEntry>,
    size: usize,
    env: Env,
    bs: List<(Const, Term)>,
    fuel: nat,
)
    ensures
        branch_lists_eq_spec(ms, size, env, bs, env, bs, fuel) != Some(false),
    decreases fuel,
{
    if fuel > 0 {
        let f = (fuel - 1) as nat;
        match bs {
            List::Nil => {},
            List::Cons(p1, rest) => {
                lemma_const_eq_refl((*p1).0);
                match eval_spec(ms, env, (*p1).1, f) {
                    Some(x) => {
                        lemma_is_equal_refl(ms, size, x, f);
                        lemma_branch_lists_eq_refl(ms, size, env, *rest, f);
                    },
                    None => {},
                }
            },
        }
    }
}

} // verus!

verus! {

/// Logical equality of constants is symmetric.
pub proof fn lemma_const_eq_sym(a: Const, b: Const)
    ensures
        const_eq_spec(a, b) == const_eq_spec(b, a),
{
}

/// Label-list equality is symmetric.
pub proof fn lemma_labels_eq_sym(a: List<StringId>, b: List<StringId>)
    ensures
        labels_eq_spec(a, b) == labels_eq_spec(b, a),
    decreases a,
{
    match (a, b) {
        (List::Cons(_, ar), List::Cons(_, br)) => {
            lemma_labels_eq_sym(*ar, *br);
        },
        (_, _) => {},
    }
}

/// Law (definitional equality is symmetric): whenever comparing two
/// values yields an answer, comparing them the other way round yields
/// the same answer.
pub proof fn lemma_is_equal_sym(ms: List<MetaEntry>, size: usize, v1: Value, v2: Value, fuel: nat)
    ensures
        match is_equal_spec(ms, size, v1, v2, fuel) {
            Some(bb) => is_equal_spec(ms, size, v2, v1, fuel) == Some(bb),
            None => true,
        },
    decreases fuel,
{
    if fuel > 0 {
        let f = (fuel - 1) as nat;
        match (force_spec(ms, v1, f), force_spec(ms, v2, f)) {
            (Some(a), Some(b)) => {
                lemma_is_equal_forced_sym(ms, size, a, b, f);
            },
            (_, _) => {},
        }
    }
}

/// Symmetry for already-forced values.
#[verifier::rlimit(60)]
pub proof fn lemma_is_equal_forced_sym(ms: List<MetaEntry>, size: usize, a: Value, b: Value, fuel: nat)
    ensures
        match is_equal_forced_spec(ms, size, a, b, fuel) {
            Some(bb) => is_equal_forced_spec(ms, size, b, a, fuel) == Some(bb),
            None => true,
        },
    decreases fuel,
{
    if fuel > 0 {
        let f = (fuel - 1) as nat;
        match (a, b) {
            (Value::ConstLit(x), Value::ConstLit(y)) => {
                lemma_const_eq_sym(x, y);
            },
            (Value::FunType(_, d1, c1), Value::FunType(_, d2, c2)) => {
                lemma_is_equal_sym(ms, size, *d1, *d2, f);
                lemma_closures_eq_sym(ms, size, c1, c2, f);
            },
            (Value::FunLit(_, c1), Value::FunLit(_, c2)) => {
                lemma_closures_eq_sym(ms, size, c1, c2, f);
            },
            (Value::FunLit(_, c1), Value::Stuck(h, sp)) => if size < usize::MAX {
                match (
                    apply_closure_spec(ms, c1, fresh_spec(size), f),
                    apply_spec(ms, Value::Stuck(h, sp), fresh_spec(size), f),
                ) {
                    (Some(b1), Some(b2)) => {
                        lemma_is_equal_sym(ms, (size + 1) as usize, b1, b2, f);
                    },
                    (_, _) => {},
                }
            } else {
            },
            (Value::Stuck(h, sp), Value::FunLit(_, c2)) => if size < usize::MAX {
                match (
                    apply_spec(ms, Value::Stuck(h, sp), fresh_spec(size), f),
                    apply_closure_spec(ms, c2, fresh_spec(size), f),
                ) {
                    (Some(b1), Some(b2)) => {
                        lemma_is_equal_sym(ms, (size + 1) as usize, b1, b2, f);
                    },
                    (_, _) => {},
                }
            } else {
            },
            (Value::RecordType(ls1, t1), Value::RecordType(ls2, t2)) => {
                lemma_labels_eq_sym(ls1, ls2);
                lemma_teles_eq_sym(ms, size, t1, t2, f);
            },
            (Value::FormatRecord(ls1, t1), Value::FormatRecord(ls2, t2)) => {
                lemma_labels_eq_sym(ls1, ls2);
                lemma_teles_eq_sym(ms, size, t1, t2, f);
            },
            (Value::FormatOverlap(ls1, t1), Value::FormatOverlap(ls2, t2)) => {
                lemma_labels_eq_sym(ls1, ls2);
                lemma_teles_eq_sym(ms, size, t1, t2, f);
            },
            (Value::RecordLit(ls1, vs1), Value::RecordLit(ls2, vs2)) => {
                lemma_labels_eq_sym(ls1, ls2);
                lemma_values_eq_sym(ms, size, vs1, vs2, f);
            },
            (Value::ArrayLit(vs1), Value::ArrayLit(vs2)) => {
                lemma_values_eq_sym(ms, size, vs1, vs2, f);
            },
            (Value::Stuck(_, sp1), Value::Stuck(_, sp2)) => {
                lemma_spines_eq_sym(ms, size, sp1, sp2, f);
            },
            (_, _) => {},
        }
    }
}

/// Symmetry for closures.
pub proof fn lemma_closures_eq_sym(ms: List<MetaEntry>, size: usize, c1: Closure, c2: Closure, fuel: nat)
    ensures
        match closures_eq_spec(ms, size, c1, c2, fuel) {
            Some(bb) => closures_eq_spec(ms, size, c2, c1, fuel) == Some(bb),
            None => true,
        },
    decreases fuel,
{
    if fuel > 0 && size < usize::MAX {
        let f = (fuel - 1) as nat;
        match (
            apply_closure_spec(ms, c1, fresh_spec(size), f),
            apply_closure_spec(ms, c2, fresh_spec(size), f),
        ) {
            (Some(b1), Some(b2)) => {
                lemma_is_equal_sym(ms, (size + 1) as usize, b1, b2, f);
            },
            (_, _) => {},
        }
    }
}

/// Symmetry for value lists.
pub proof fn lemma_values_eq_sym(
    ms: List<MetaEntry>,
    size: usize,
    vs1: List<Value>,
    vs2: List<Value>,
    fuel: nat,
)
    ensures
        match values_eq_spec(ms, size, vs1, vs2, fuel) {
            Some(bb) => values_eq_spec(ms, size, vs2, vs1, fuel) == Some(bb),
            None => true,
        },
    decreases fuel,
{
    if fuel > 0 {
        let f = (fuel - 1) as nat;
        match (vs1, vs2) {
            (List::Cons(v1, r1), List::Cons(v2, r2)) => {
                lemma_is_equal_sym(ms, size, *v1, *v2, f);
                lemma_values_eq_sym(ms, size, *r1, *r2, f);
            },
            (_, _) => {},
        }
    }
}

/// Symmetry for telescopes.
pub proof fn lemma_teles_eq_sym(ms: List<MetaEntry>, size: usize, t1: Telescope, t2: Telescope, fuel: nat)
    ensures
        match teles_eq_spec(ms, size, t1, t2, fuel) {
            Some(bb) => teles_eq_spec(ms, size, t2, t1, fuel) == Some(bb),
            None => true,
        },
    decreases fuel,
{
    if fuel > 0 {
        let f = (fuel - 1) as nat;
        match (*t1.terms, *t2.terms) {
            (List::Cons(a1, r1), List::Cons(a2, r2)) => if size < usize::MAX {
                match (eval_spec(ms, *t1.env, *a1, f), eval_spec(ms, *t2.env, *a2, f)) {
                    (Some(x1), Some(x2)) => {
                        lemma_is_equal_sym(ms, size, x1, x2, f);
                        lemma_teles_eq_sym(
                            ms,
                            (size + 1) as usize,
                            Telescope {
                                env: Box::new(List::Cons(Box::new(fresh_spec(size)), t1.env)),
                                terms: r1,
                            },
                            Telescope {
                                env: Box::new(List::Cons(Box::new(fresh_spec(size)), t2.env)),
                                terms: r2,
                            },
                            f,
                        );
                    },
                    (_, _) => {},
                }
            } else {
            },
            (_, _) => {},
        }
    }
}

/// Symmetry for spines.
pub proof fn lemma_spines_eq_sym(
    ms: List<MetaEntry>,
    size: usize,
    sp1: List<Elim>,
    sp2: List<Elim>,
    fuel: nat,
)
    ensures
        match spines_eq_spec(ms, size, sp1, sp2, fuel) {
            Some(bb) => spines_eq_spec(ms, size, sp2, sp1, fuel) == Some(bb),
            None => true,
        },
    decreases fuel,
{
    if fuel > 0 {
        let f = (fuel - 1) as nat;
        match (sp1, sp2) {
            (List::Cons(e1, r1), List::Cons(e2, r2)) => {
                match (*e1, *e2) {
                    (Elim::FunApp(a1), Elim::FunApp(a2)) => {
                        lemma_is_equal_sym(ms, size, *a1, *a2, f);
                    },
                    (Elim::ConstMatch(b1), Elim::ConstMatch(b2)) => {
                        lemma_branches_eq_sym(ms, size, b1, b2, f);
                    },
                    (_, _) => {},
                }
                lemma_spines_eq_sym(ms, size, *r1, *r2, f);
            },
            (_, _) => {},
        }
    }
}

/// Symmetry for stuck constant matches.
pub proof fn lemma_branches_eq_sym(ms: List<MetaEntry>, size: usize, b1: Branches, b2: Branches, fuel: nat)
    ensures
        match branches_eq_spec(ms, size, b1, b2, fuel) {
            Some(bb) => branches_eq_spec(ms, size, b2, b1, fuel) == Some(bb),
            None => true,
        },
    decreases fuel,
{
    if fuel > 0 {
        let f = (fuel - 1) as nat;
        lemma_branch_lists_eq_sym(ms, size, *b1.env, *b1.branches, *b2.env, *b2.branches, f);
        match (b1.default, b2.default) {
            (Some(d1), Some(d2)) => {
                match (eval_spec(ms, *b1.env, *d1, f), eval_spec(ms, *b2.env, *d2, f)) {
                    (Some(x1), Some(x2)) => {
                        lemma_is_equal_sym(ms, size, x1, x2, f);
                    },
                    (_, _) => {},
                }
            },
            (_, _) => {},
        }
    }
}

/// Symmetry for branch lists.
pub proof fn lemma_branch_lists_eq_sym(
    ms: List<MetaEntry>,
    size: usize,
    env1: Env,
    bs1: List<(Const, Term)>,
    env2: Env,
    bs2: List<(Const, Term)>,
    fuel: nat,
)
    ensures
        match branch_lists_eq_spec(ms, size, env1, bs1, env2, bs2, fuel) {
            Some(bb) => branch_lists_eq_spec(ms, size, env2, bs2, env1, bs1, fuel) == Some(bb),
            None => true,
        },
    decreases fuel,
{
    if fuel > 0 {
        let f = (fuel - 1) as nat;
        match (bs1, bs2) {
            (List::Cons(p1, r1), List::Cons(p2, r2)) => {
                lemma_const_eq_sym((*p1).0, (*p2).0);
                match (eval_spec(ms, env1, (*p1).1, f), eval_spec(ms, env2, (*p2).1, f)) {
                    (Some(x1), Some(x2)) => {
                        lemma_is_equal_sym(ms, size, x1, x2, f);
                        lemma_branch_lists_eq_sym(ms, size, env1, *r1, env2, *r2, f);
                    },
                    (_, _) => {},
                }
            },
            (_, _) => {},
        }
    }
}

} // verus!
