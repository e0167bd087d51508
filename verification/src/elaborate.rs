//! The elaborator: bidirectional type checking of surface terms into
//! core terms, with metavariables solved by unification and local error
//! recovery (a failed sub-expression elaborates to the reported-error
//! primitive, and elaboration continues).
//!
//! As everywhere in this crate, each operation is a specification
//! function and an executable function proved to match it, with an
//! explicit fuel bound; `None` means the fuel (or an address-space-sized
//! counter) ran out, never a wrong answer.

use vstd::prelude::*;

use crate::diagnostics::Diagnostic;
use crate::diagnostics::MessageCode;
use crate::diagnostics::Severity;
use crate::diagnostics::one_label_spec;
use crate::semantics::Closure;
use crate::semantics::Env;
use crate::semantics::Head;
use crate::semantics::MetaEntry;
use crate::semantics::Telescope;
use crate::semantics::Value;
use crate::surface::Alias;
use crate::surface::Item;
use crate::surface::Module;
use crate::surface::Surface;
use crate::surface::TypeField;
use crate::syntax::Const;
use crate::syntax::EntryInfo;
use crate::syntax::List;
use crate::syntax::Prim;
use crate::syntax::StringId;
use crate::syntax::Term;
use crate::syntax::UIntStyle;

verus! {

/// The elaboration context: the rigid environments (all four lists have
/// the newest entry first and length `size`), the primitive name table,
/// the flexible environment, the named-hole table, and the diagnostics
/// issued so far (oldest first).
#[derive(Debug, PartialEq)]
pub struct Context {
    /// The number of rigid entries in scope.
    pub size: usize,
    /// Binder names, newest first.
    pub names: List<Option<StringId>>,
    /// How each entry was bound.
    pub infos: List<EntryInfo>,
    /// The type of each entry.
    pub types: List<Value>,
    /// The value of each entry (a fresh rigid variable for parameters).
    pub env: Env,
    /// Which names stand for primitives.
    pub prims: List<(StringId, Prim)>,
    /// The flexible (metavariable) environment.
    pub metas: List<MetaEntry>,
    /// Named holes seen so far, with the term each one elaborated to.
    pub holes: List<(StringId, Term)>,
    /// Diagnostics, oldest first.
    pub diags: List<Diagnostic>,
    /// The file elaborated, for diagnostic labels.
    pub file_id: usize,
}

impl Context {
    /// An empty context over the given primitive name table.
    pub fn new(file_id: usize, prims: List<(StringId, Prim)>) -> (r: Context)
        ensures
            r == (Context {
                size: 0usize,
                names: List::Nil,
                infos: List::Nil,
                types: List::Nil,
                env: List::Nil,
                prims: prims,
                metas: List::Nil,
                holes: List::Nil,
                diags: List::Nil,
                file_id: file_id,
            }),
    {
        Context {
            size: 0,
            names: List::Nil,
            infos: List::Nil,
            types: List::Nil,
            env: List::Nil,
            prims,
            metas: List::Nil,
            holes: List::Nil,
            diags: List::Nil,
            file_id,
        }
    }
}

/// The de Bruijn index of the nearest binder with this name.
pub open spec fn lookup_local_spec(names: List<Option<StringId>>, x: StringId) -> Option<usize>
    decreases names,
{
    match names {
        List::Nil => None,
        List::Cons(n, rest) => if *n == Some(x) {
            Some(0)
        } else {
            match lookup_local_spec(*rest, x) {
                Some(i) => if i < usize::MAX {
                    Some((i + 1) as usize)
                } else {
                    None
                },
                None => None,
            }
        },
    }
}

/// The primitive a name stands for, if any.
pub open spec fn lookup_prim_spec(prims: List<(StringId, Prim)>, x: StringId) -> Option<Prim>
    decreases prims,
{
    match prims {
        List::Nil => None,
        List::Cons(p, rest) => if (*p).0 == x {
            Some((*p).1)
        } else {
            lookup_prim_spec(*rest, x)
        },
    }
}

/// The term a named hole elaborated to, if the name was seen before.
pub open spec fn lookup_hole_spec(holes: List<(StringId, Term)>, x: StringId) -> Option<Term>
    decreases holes,
{
    match holes {
        List::Nil => None,
        List::Cons(h, rest) => if (*h).0 == x {
            Some((*h).1)
        } else {
            lookup_hole_spec(*rest, x)
        },
    }
}

/// Whether a label occurs in a list of labels.
pub open spec fn contains_label_spec(ls: List<StringId>, l: StringId) -> bool
    decreases ls,
{
    match ls {
        List::Nil => false,
        List::Cons(x, rest) => *x == l || contains_label_spec(*rest, l),
    }
}

/// Whether a constant occurs (by logical equality) in a list.
pub open spec fn contains_const_spec(cs: List<Const>, c: Const) -> bool
    decreases cs,
{
    match cs {
        List::Nil => false,
        List::Cons(x, rest) => crate::syntax::const_eq_spec(*x, c) || contains_const_spec(*rest, c),
    }
}

/// A diagnostic appended at the end (diagnostics stay in source order).
pub open spec fn snoc_diag_spec(ds: List<Diagnostic>, d: Diagnostic) -> List<Diagnostic>
    decreases ds,
{
    match ds {
        List::Nil => List::Cons(Box::new(d), Box::new(List::Nil)),
        List::Cons(x, rest) => List::Cons(x, Box::new(snoc_diag_spec(*rest, d))),
    }
}

/// The context with a new rigid entry: a definition (a known value) or a
/// parameter (a fresh rigid variable). `None` when `size` is saturated.
pub open spec fn ctx_bind_spec(
    ctx: Context,
    name: Option<StringId>,
    info: EntryInfo,
    ty: Value,
    value: Value,
) -> Option<Context> {
    if ctx.size < usize::MAX {
        Some(
            Context {
                size: (ctx.size + 1) as usize,
                names: List::Cons(Box::new(name), Box::new(ctx.names)),
                infos: List::Cons(Box::new(info), Box::new(ctx.infos)),
                types: List::Cons(Box::new(ty), Box::new(ctx.types)),
                env: List::Cons(Box::new(value), Box::new(ctx.env)),
                ..ctx
            },
        )
    } else {
        None
    }
}

/// The rigid parts of `old` with the flexible parts (metavariables,
/// holes, diagnostics) of `new`: used to leave a binder's scope.
pub open spec fn ctx_restore_spec(old: Context, new: Context) -> Context {
    Context { metas: new.metas, holes: new.holes, diags: new.diags, ..old }
}

/// The context with a fresh unsolved metavariable, and its id. `None`
/// when the flexible environment is saturated.
pub open spec fn ctx_fresh_meta_spec(ctx: Context) -> Option<(Context, usize)> {
    if ctx.metas.slen() > usize::MAX {
        None
    } else {
        Some(
            (
                Context { metas: crate::unify::push_meta_spec(ctx.metas), ..ctx },
                ctx.metas.slen() as usize,
            ),
        )
    }
}

/// How a number literal fits a type.
#[derive(Debug, PartialEq)]
pub enum NumberFit {
    /// It fits: the constant.
    Fit(Const),
    /// It is out of range: the constant with the raw value truncated.
    OutOfRange(Const),
    /// The type is not a numeric type that a number literal inhabits.
    NotNumeric,
}

/// How an unsigned number literal fits a (forced) expected type.
pub open spec fn number_fit_spec(ty: Value, v: u64, style: UIntStyle) -> NumberFit {
    match ty {
        Value::Stuck(Head::Prim(p), List::Nil) => match p {
            Prim::U8Type => if v <= u8::MAX as u64 {
                NumberFit::Fit(Const::U8(v as u8, style))
            } else {
                NumberFit::OutOfRange(Const::U8(v as u8, style))
            },
            Prim::U16Type => if v <= u16::MAX as u64 {
                NumberFit::Fit(Const::U16(v as u16, style))
            } else {
                NumberFit::OutOfRange(Const::U16(v as u16, style))
            },
            Prim::U32Type => if v <= u32::MAX as u64 {
                NumberFit::Fit(Const::U32(v as u32, style))
            } else {
                NumberFit::OutOfRange(Const::U32(v as u32, style))
            },
            Prim::U64Type => NumberFit::Fit(Const::U64(v, style)),
            Prim::S8Type => if v <= i8::MAX as u64 {
                NumberFit::Fit(Const::S8(v as i8))
            } else {
                NumberFit::OutOfRange(Const::S8(v as i8))
            },
            Prim::S16Type => if v <= i16::MAX as u64 {
                NumberFit::Fit(Const::S16(v as i16))
            } else {
                NumberFit::OutOfRange(Const::S16(v as i16))
            },
            Prim::S32Type => if v <= i32::MAX as u64 {
                NumberFit::Fit(Const::S32(v as i32))
            } else {
                NumberFit::OutOfRange(Const::S32(v as i32))
            },
            Prim::S64Type => if v <= i64::MAX as u64 {
                NumberFit::Fit(Const::S64(v as i64))
            } else {
                NumberFit::OutOfRange(Const::S64(v as i64))
            },
            Prim::PosType => NumberFit::Fit(Const::Pos(v)),
            _ => NumberFit::NotNumeric,
        },
        _ => NumberFit::NotNumeric,
    }
}

/// The closed type of each primitive, as a core term. Applications in
/// binder positions use de Bruijn indices into the enclosing function
/// type's parameters.
pub open spec fn prim_type_term_spec(p: Prim) -> Term {
    match p {
        Prim::VoidType | Prim::BoolType | Prim::U8Type | Prim::U16Type | Prim::U32Type
            | Prim::U64Type | Prim::S8Type | Prim::S16Type | Prim::S32Type | Prim::S64Type
            | Prim::F32Type | Prim::F64Type | Prim::PosType | Prim::FormatType => Term::Universe,
        Prim::OptionType | Prim::ArrayType | Prim::RefType => t_arrow_spec(
            Term::Universe,
            Term::Universe,
        ),
        Prim::Array8Type => t_arrow_spec(
            Term::Prim(Prim::U8Type),
            t_arrow_spec(Term::Universe, Term::Universe),
        ),
        Prim::Array16Type => t_arrow_spec(
            Term::Prim(Prim::U16Type),
            t_arrow_spec(Term::Universe, Term::Universe),
        ),
        Prim::Array32Type => t_arrow_spec(
            Term::Prim(Prim::U32Type),
            t_arrow_spec(Term::Universe, Term::Universe),
        ),
        Prim::Array64Type => t_arrow_spec(
            Term::Prim(Prim::U64Type),
            t_arrow_spec(Term::Universe, Term::Universe),
        ),
        Prim::FormatU8 | Prim::FormatU16Be | Prim::FormatU16Le | Prim::FormatU32Be
            | Prim::FormatU32Le | Prim::FormatU64Be | Prim::FormatU64Le | Prim::FormatS8
            | Prim::FormatS16Be | Prim::FormatS16Le | Prim::FormatS32Be | Prim::FormatS32Le
            | Prim::FormatS64Be | Prim::FormatS64Le | Prim::FormatF32Be | Prim::FormatF32Le
            | Prim::FormatF64Be | Prim::FormatF64Le | Prim::FormatStreamPos => Term::Prim(
            Prim::FormatType,
        ),
        Prim::FormatArray8 => t_arrow_spec(
            Term::Prim(Prim::U8Type),
            t_arrow_spec(Term::Prim(Prim::FormatType), Term::Prim(Prim::FormatType)),
        ),
        Prim::FormatArray16 => t_arrow_spec(
            Term::Prim(Prim::U16Type),
            t_arrow_spec(Term::Prim(Prim::FormatType), Term::Prim(Prim::FormatType)),
        ),
        Prim::FormatArray32 => t_arrow_spec(
            Term::Prim(Prim::U32Type),
            t_arrow_spec(Term::Prim(Prim::FormatType), Term::Prim(Prim::FormatType)),
        ),
        Prim::FormatArray64 => t_arrow_spec(
            Term::Prim(Prim::U64Type),
            t_arrow_spec(Term::Prim(Prim::FormatType), Term::Prim(Prim::FormatType)),
        ),
        Prim::FormatRepeatUntilEnd => t_arrow_spec(
            Term::Prim(Prim::FormatType),
            Term::Prim(Prim::FormatType),
        ),
        Prim::FormatLink => t_arrow_spec(
            Term::Prim(Prim::PosType),
            t_arrow_spec(Term::Prim(Prim::FormatType), Term::Prim(Prim::FormatType)),
        ),
        Prim::FormatDeref => Term::FunType(
            None,
            Box::new(Term::Prim(Prim::FormatType)),
            Box::new(
                t_arrow_spec(
                    Term::FunApp(
                        Box::new(Term::Prim(Prim::RefType)),
                        Box::new(
                            Term::FunApp(
                                Box::new(Term::Prim(Prim::FormatRepr)),
                                Box::new(Term::RigidVar(0)),
                            ),
                        ),
                    ),
                    Term::Prim(Prim::FormatType),
                ),
            ),
        ),
        Prim::FormatSucceed => Term::FunType(
            None,
            Box::new(Term::Universe),
            Box::new(t_arrow_spec(Term::RigidVar(0), Term::Prim(Prim::FormatType))),
        ),
        Prim::FormatFail => t_arrow_spec(Term::Universe, Term::Prim(Prim::FormatType)),
        Prim::FormatUnwrap => Term::FunType(
            None,
            Box::new(Term::Universe),
            Box::new(
                t_arrow_spec(
                    Term::FunApp(
                        Box::new(Term::Prim(Prim::OptionType)),
                        Box::new(Term::RigidVar(0)),
                    ),
                    Term::Prim(Prim::FormatType),
                ),
            ),
        ),
        Prim::FormatRepr => t_arrow_spec(Term::Prim(Prim::FormatType), Term::Universe),
        Prim::ReportedError => Term::Universe,
        Prim::BoolNot => t_un_op_spec(Prim::BoolType),
        Prim::BoolEq | Prim::BoolNeq | Prim::BoolAnd | Prim::BoolOr | Prim::BoolXor => t_bin_op_spec(
            Prim::BoolType,
            Prim::BoolType,
        ),
        Prim::U8Eq | Prim::U8Neq | Prim::U8Gt | Prim::U8Lt | Prim::U8Gte | Prim::U8Lte => t_bin_op_spec(
            Prim::U8Type,
            Prim::BoolType,
        ),
        Prim::U8Add | Prim::U8Sub | Prim::U8Mul | Prim::U8Div | Prim::U8Shl | Prim::U8Shr
            | Prim::U8And | Prim::U8Or | Prim::U8Xor => t_bin_op_spec(Prim::U8Type, Prim::U8Type),
        Prim::U8Not => t_un_op_spec(Prim::U8Type),
        Prim::U16Eq | Prim::U16Neq | Prim::U16Gt | Prim::U16Lt | Prim::U16Gte | Prim::U16Lte => t_bin_op_spec(
            Prim::U16Type,
            Prim::BoolType,
        ),
        Prim::U16Add | Prim::U16Sub | Prim::U16Mul | Prim::U16Div | Prim::U16Shl | Prim::U16Shr
            | Prim::U16And | Prim::U16Or | Prim::U16Xor => t_bin_op_spec(
            Prim::U16Type,
            Prim::U16Type,
        ),
        Prim::U16Not => t_un_op_spec(Prim::U16Type),
        Prim::U32Eq | Prim::U32Neq | Prim::U32Gt | Prim::U32Lt | Prim::U32Gte | Prim::U32Lte => t_bin_op_spec(
            Prim::U32Type,
            Prim::BoolType,
        ),
        Prim::U32Add | Prim::U32Sub | Prim::U32Mul | Prim::U32Div | Prim::U32Shl | Prim::U32Shr
            | Prim::U32And | Prim::U32Or | Prim::U32Xor => t_bin_op_spec(
            Prim::U32Type,
            Prim::U32Type,
        ),
        Prim::U32Not => t_un_op_spec(Prim::U32Type),
        Prim::U64Eq | Prim::U64Neq | Prim::U64Gt | Prim::U64Lt | Prim::U64Gte | Prim::U64Lte => t_bin_op_spec(
            Prim::U64Type,
            Prim::BoolType,
        ),
        Prim::U64Add | Prim::U64Sub | Prim::U64Mul | Prim::U64Div | Prim::U64Shl | Prim::U64Shr
            | Prim::U64And | Prim::U64Or | Prim::U64Xor => t_bin_op_spec(
            Prim::U64Type,
            Prim::U64Type,
        ),
        Prim::U64Not => t_un_op_spec(Prim::U64Type),
        Prim::S8Eq | Prim::S8Neq | Prim::S8Gt | Prim::S8Lt | Prim::S8Gte | Prim::S8Lte => t_bin_op_spec(
            Prim::S8Type,
            Prim::BoolType,
        ),
        Prim::S8Add | Prim::S8Sub | Prim::S8Mul | Prim::S8Div => t_bin_op_spec(
            Prim::S8Type,
            Prim::S8Type,
        ),
        Prim::S8Neg | Prim::S8Abs => t_un_op_spec(Prim::S8Type),
        Prim::S8UAbs => t_arrow_spec(Term::Prim(Prim::S8Type), Term::Prim(Prim::U8Type)),
        Prim::S16Eq | Prim::S16Neq | Prim::S16Gt | Prim::S16Lt | Prim::S16Gte | Prim::S16Lte => t_bin_op_spec(
            Prim::S16Type,
            Prim::BoolType,
        ),
        Prim::S16Add | Prim::S16Sub | Prim::S16Mul | Prim::S16Div => t_bin_op_spec(
            Prim::S16Type,
            Prim::S16Type,
        ),
        Prim::S16Neg | Prim::S16Abs => t_un_op_spec(Prim::S16Type),
        Prim::S16UAbs => t_arrow_spec(Term::Prim(Prim::S16Type), Term::Prim(Prim::U16Type)),
        Prim::S32Eq | Prim::S32Neq | Prim::S32Gt | Prim::S32Lt | Prim::S32Gte | Prim::S32Lte => t_bin_op_spec(
            Prim::S32Type,
            Prim::BoolType,
        ),
        Prim::S32Add | Prim::S32Sub | Prim::S32Mul | Prim::S32Div => t_bin_op_spec(
            Prim::S32Type,
            Prim::S32Type,
        ),
        Prim::S32Neg | Prim::S32Abs => t_un_op_spec(Prim::S32Type),
        Prim::S32UAbs => t_arrow_spec(Term::Prim(Prim::S32Type), Term::Prim(Prim::U32Type)),
        Prim::S64Eq | Prim::S64Neq | Prim::S64Gt | Prim::S64Lt | Prim::S64Gte | Prim::S64Lte => t_bin_op_spec(
            Prim::S64Type,
            Prim::BoolType,
        ),
        Prim::S64Add | Prim::S64Sub | Prim::S64Mul | Prim::S64Div => t_bin_op_spec(
            Prim::S64Type,
            Prim::S64Type,
        ),
        Prim::S64Neg | Prim::S64Abs => t_un_op_spec(Prim::S64Type),
        Prim::S64UAbs => t_arrow_spec(Term::Prim(Prim::S64Type), Term::Prim(Prim::U64Type)),
        Prim::OptionSome => Term::FunType(
            None,
            Box::new(Term::Universe),
            Box::new(
                t_arrow_spec(
                    Term::RigidVar(0),
                    Term::FunApp(
                        Box::new(Term::Prim(Prim::OptionType)),
                        Box::new(Term::RigidVar(1)),
                    ),
                ),
            ),
        ),
        Prim::OptionNone => Term::FunType(
            None,
            Box::new(Term::Universe),
            Box::new(
                Term::FunApp(Box::new(Term::Prim(Prim::OptionType)), Box::new(Term::RigidVar(0))),
            ),
        ),
        Prim::OptionFold => Term::FunType(
            None,
            Box::new(Term::Universe),
            Box::new(
                Term::FunType(
                    None,
                    Box::new(Term::Universe),
                    Box::new(
                        t_arrow_spec(
                            Term::RigidVar(0),
                            t_arrow_spec(
                                t_arrow_spec(Term::RigidVar(2), Term::RigidVar(2)),
                                t_arrow_spec(
                                    Term::FunApp(
                                        Box::new(Term::Prim(Prim::OptionType)),
                                        Box::new(Term::RigidVar(4)),
                                    ),
                                    Term::RigidVar(4),
                                ),
                            ),
                        ),
                    ),
                ),
            ),
        ),
        Prim::Array8Find => t_array_find_spec(Prim::U8Type, Prim::Array8Type),
        Prim::Array16Find => t_array_find_spec(Prim::U16Type, Prim::Array16Type),
        Prim::Array32Find => t_array_find_spec(Prim::U32Type, Prim::Array32Type),
        Prim::Array64Find => t_array_find_spec(Prim::U64Type, Prim::Array64Type),
        Prim::PosAddU8 => t_arrow_spec(
            Term::Prim(Prim::PosType),
            t_arrow_spec(Term::Prim(Prim::U8Type), Term::Prim(Prim::PosType)),
        ),
        Prim::PosAddU16 => t_arrow_spec(
            Term::Prim(Prim::PosType),
            t_arrow_spec(Term::Prim(Prim::U16Type), Term::Prim(Prim::PosType)),
        ),
        Prim::PosAddU32 => t_arrow_spec(
            Term::Prim(Prim::PosType),
            t_arrow_spec(Term::Prim(Prim::U32Type), Term::Prim(Prim::PosType)),
        ),
        Prim::PosAddU64 => t_arrow_spec(
            Term::Prim(Prim::PosType),
            t_arrow_spec(Term::Prim(Prim::U64Type), Term::Prim(Prim::PosType)),
        ),
    }
}

/// A non-dependent function type term.
pub open spec fn t_arrow_spec(dom: Term, cod: Term) -> Term {
    Term::FunType(None, Box::new(dom), Box::new(cod))
}

/// The type of a binary operator: `a -> a -> b`.
pub open spec fn t_bin_op_spec(a: Prim, b: Prim) -> Term {
    t_arrow_spec(Term::Prim(a), t_arrow_spec(Term::Prim(a), Term::Prim(b)))
}

/// The type of a unary operator: `a -> a`.
pub open spec fn t_un_op_spec(a: Prim) -> Term {
    t_arrow_spec(Term::Prim(a), Term::Prim(a))
}

/// The type of an array search primitive:
/// `fn (len : idx) (A : Type) -> (A -> Bool) -> Array len A -> Option A`.
pub open spec fn t_array_find_spec(idx: Prim, arr: Prim) -> Term {
    Term::FunType(
        None,
        Box::new(Term::Prim(idx)),
        Box::new(
            Term::FunType(
                None,
                Box::new(Term::Universe),
                Box::new(
                    t_arrow_spec(
                        t_arrow_spec(Term::RigidVar(0), Term::Prim(Prim::BoolType)),
                        t_arrow_spec(
                            Term::FunApp(
                                Box::new(
                                    Term::FunApp(
                                        Box::new(Term::Prim(arr)),
                                        Box::new(Term::RigidVar(3)),
                                    ),
                                ),
                                Box::new(Term::RigidVar(2)),
                            ),
                            Term::FunApp(
                                Box::new(Term::Prim(Prim::OptionType)),
                                Box::new(Term::RigidVar(3)),
                            ),
                        ),
                    ),
                ),
            ),
        ),
    )
}

} // verus!

verus! {

/// The context with one more diagnostic.
pub open spec fn ctx_diag_sev_spec(
    ctx: Context,
    severity: Severity,
    code: MessageCode,
    name: Option<StringId>,
) -> Context {
    Context {
        diags: snoc_diag_spec(
            ctx.diags,
            one_label_spec(severity, code, name, ctx.file_id, 0, 0),
        ),
        ..ctx
    }
}

/// The field type at a label of a record type, with the earlier fields
/// substituted by projections out of the record value `head`. The outer
/// `None` means the fuel ran out; the inner `None` that the label does
/// not occur.
pub open spec fn tele_field_type_spec(
    ms: List<MetaEntry>,
    head: Value,
    ls: List<StringId>,
    tele: Telescope,
    l: StringId,
    fuel: nat,
) -> Option<Option<Value>>
    decreases fuel,
{
    if fuel == 0 {
        None
    } else {
        let f = (fuel - 1) as nat;
        match (ls, *tele.terms) {
            (List::Cons(l0, lrest), List::Cons(t0, trest)) => match crate::semantics::eval_spec(
                ms,
                *tele.env,
                *t0,
                f,
            ) {
                Some(ty) => if *l0 == l {
                    Some(Some(ty))
                } else {
                    match crate::semantics::proj_spec(ms, head, *l0, f) {
                        Some(pv) => tele_field_type_spec(
                            ms,
                            head,
                            *lrest,
                            Telescope {
                                env: Box::new(List::Cons(Box::new(pv), tele.env)),
                                terms: trest,
                            },
                            l,
                            f,
                        ),
                        None => None,
                    }
                },
                None => None,
            },
            (_, _) => Some(None),
        }
    }
}

/// One reported-error core term per entry of a list.
pub open spec fn reported_terms_spec<T>(fields: List<T>) -> List<Term>
    decreases fields,
{
    match fields {
        List::Nil => List::Nil,
        List::Cons(_, rest) => List::Cons(
            Box::new(Term::Prim(Prim::ReportedError)),
            Box::new(reported_terms_spec(*rest)),
        ),
    }
}

/// What inferring the type of a surface term yields: the updated
/// context (new metavariables, solutions, holes and diagnostics), the
/// elaborated core term, and its type as a value. A failed
/// sub-expression becomes the reported-error primitive, with a
/// diagnostic, and elaboration continues.
pub open spec fn infer_spec(ctx: Context, e: Surface, fuel: nat) -> Option<(Context, Term, Value)>
    decreases fuel,
{
    if fuel == 0 {
        None
    } else {
        let f = (fuel - 1) as nat;
        match e {
            Surface::Name(x) => match lookup_local_spec(ctx.names, x) {
                Some(i) => match ctx.types.sget(i as nat) {
                    Some(ty) => Some((ctx, Term::RigidVar(i), ty)),
                    None => Some((ctx, Term::Prim(Prim::ReportedError), Value::Error)),
                },
                None => match lookup_prim_spec(ctx.prims, x) {
                    Some(p) => match crate::semantics::eval_spec(
                        ctx.metas,
                        List::Nil,
                        prim_type_term_spec(p),
                        f,
                    ) {
                        Some(ty) => Some((ctx, Term::Prim(p), ty)),
                        None => None,
                    },
                    None => Some(
                        (
                            ctx_diag_sev_spec(ctx, Severity::Error, MessageCode::UnboundName, Some(x)),
                            Term::Prim(Prim::ReportedError),
                            Value::Error,
                        ),
                    ),
                },
            },
            Surface::Universe => Some((ctx, Term::Universe, Value::Universe)),
            Surface::BoolLit(b) => Some(
                (
                    ctx,
                    Term::ConstLit(Const::Bool(b)),
                    Value::Stuck(Head::Prim(Prim::BoolType), List::Nil),
                ),
            ),
            Surface::Ann(e2, ty) => match check_spec(ctx, *ty, Value::Universe, f) {
                Some((ctx1, tty)) => match crate::semantics::eval_spec(ctx1.metas, ctx1.env, tty, f) {
                    Some(vty) => match check_spec(ctx1, *e2, vty, f) {
                        Some((ctx2, te)) => match crate::semantics::eval_spec(
                            ctx2.metas,
                            ctx2.env,
                            tty,
                            f,
                        ) {
                            Some(vty2) => Some(
                                (ctx2, Term::Ann(Box::new(te), Box::new(tty)), vty2),
                            ),
                            None => None,
                        },
                        None => None,
                    },
                    None => None,
                },
                None => None,
            },
            Surface::Let(n, ann, d, b) => {
                let head = match ann {
                    Some(a) => match check_spec(ctx, *a, Value::Universe, f) {
                        Some((ctx1, tann)) => match crate::semantics::eval_spec(
                            ctx1.metas,
                            ctx1.env,
                            tann,
                            f,
                        ) {
                            Some(vty) => match check_spec(ctx1, *d, vty, f) {
                                Some((ctx2, td)) => Some((ctx2, tann, td)),
                                None => None,
                            },
                            None => None,
                        },
                        None => None,
                    },
                    None => match infer_spec(ctx, *d, f) {
                        Some((ctx1, td, vty)) => match crate::semantics::quote_spec(
                            ctx1.metas,
                            ctx1.size,
                            vty,
                            f,
                        ) {
                            Some(tann) => Some((ctx1, tann, td)),
                            None => None,
                        },
                        None => None,
                    },
                };
                match head {
                    Some((ctx2, tann, td)) => match crate::semantics::eval_spec(
                        ctx2.metas,
                        ctx2.env,
                        tann,
                        f,
                    ) {
                        Some(vty) => match crate::semantics::eval_spec(ctx2.metas, ctx2.env, td, f) {
                            Some(dv) => match ctx_bind_spec(
                                ctx2,
                                n,
                                EntryInfo::Definition,
                                vty,
                                dv,
                            ) {
                                Some(ctx3) => match infer_spec(ctx3, *b, f) {
                                    Some((ctx4, tb, bty)) => Some(
                                        (
                                            ctx_restore_spec(ctx2, ctx4),
                                            Term::Let(
                                                n,
                                                Box::new(tann),
                                                Box::new(td),
                                                Box::new(tb),
                                            ),
                                            bty,
                                        ),
                                    ),
                                    None => None,
                                },
                                None => None,
                            },
                            None => None,
                        },
                        None => None,
                    },
                    None => None,
                }
            },
            Surface::FunType(n, dom, cod) => match check_spec(ctx, *dom, Value::Universe, f) {
                Some((ctx1, tdom)) => match crate::semantics::eval_spec(ctx1.metas, ctx1.env, tdom, f) {
                    Some(vdom) => match ctx_bind_spec(
                        ctx1,
                        n,
                        EntryInfo::Parameter,
                        vdom,
                        crate::semantics::fresh_spec(ctx1.size),
                    ) {
                        Some(ctx2) => match check_spec(ctx2, *cod, Value::Universe, f) {
                            Some((ctx3, tcod)) => Some(
                                (
                                    ctx_restore_spec(ctx1, ctx3),
                                    Term::FunType(n, Box::new(tdom), Box::new(tcod)),
                                    Value::Universe,
                                ),
                            ),
                            None => None,
                        },
                        None => None,
                    },
                    None => None,
                },
                None => None,
            },
            Surface::FunLit(x, body) => match ctx_fresh_meta_spec(ctx) {
                Some((ctx1, m)) => {
                    let dom_term = Term::FlexibleInsertion(m, ctx1.infos);
                    match crate::semantics::eval_spec(ctx1.metas, ctx1.env, dom_term, f) {
                        Some(vdom) => match ctx_bind_spec(
                            ctx1,
                            Some(x),
                            EntryInfo::Parameter,
                            vdom,
                            crate::semantics::fresh_spec(ctx1.size),
                        ) {
                            Some(ctx2) => match infer_spec(ctx2, *body, f) {
                                Some((ctx3, tb, bty)) => match crate::semantics::quote_spec(
                                    ctx3.metas,
                                    ctx3.size,
                                    bty,
                                    f,
                                ) {
                                    Some(tcod) => {
                                        let ctx4 = ctx_restore_spec(ctx1, ctx3);
                                        match crate::semantics::eval_spec(
                                            ctx4.metas,
                                            ctx4.env,
                                            dom_term,
                                            f,
                                        ) {
                                            Some(vdom2) => Some(
                                                (
                                                    ctx4,
                                                    Term::FunLit(Some(x), Box::new(tb)),
                                                    Value::FunType(
                                                        Some(x),
                                                        Box::new(vdom2),
                                                        Closure {
                                                            env: Box::new(ctx4.env),
                                                            term: Box::new(tcod),
                                                        },
                                                    ),
                                                ),
                                            ),
                                            None => None,
                                        }
                                    },
                                    None => None,
                                },
                                None => None,
                            },
                            None => None,
                        },
                        None => None,
                    }
                },
                None => None,
            },
            Surface::App(fun, arg) => match infer_spec(ctx, *fun, f) {
                Some((ctx1, tf, fty)) => match crate::semantics::force_spec(ctx1.metas, fty, f) {
                    Some(ffty) => match ffty {
                        Value::FunType(_, vdom, cod) => match check_spec(ctx1, *arg, *vdom, f) {
                            Some((ctx2, ta)) => match crate::semantics::eval_spec(
                                ctx2.metas,
                                ctx2.env,
                                ta,
                                f,
                            ) {
                                Some(va) => match crate::semantics::apply_closure_spec(
                                    ctx2.metas,
                                    cod,
                                    va,
                                    f,
                                ) {
                                    Some(vcod) => Some(
                                        (ctx2, Term::FunApp(Box::new(tf), Box::new(ta)), vcod),
                                    ),
                                    None => None,
                                },
                                None => None,
                            },
                            None => None,
                        },
                        Value::Error => Some((ctx1, Term::Prim(Prim::ReportedError), Value::Error)),
                        _ => Some(
                            (
                                ctx_diag_sev_spec(
                                    ctx1,
                                    Severity::Error,
                                    MessageCode::UnexpectedElim,
                                    None,
                                ),
                                Term::Prim(Prim::ReportedError),
                                Value::Error,
                            ),
                        ),
                    },
                    None => None,
                },
                None => None,
            },
            Surface::Proj(e2, l) => match infer_spec(ctx, *e2, f) {
                Some((ctx1, te, ety)) => match crate::semantics::force_spec(ctx1.metas, ety, f) {
                    Some(fety) => match fety {
                        Value::RecordType(ls, tele) => match crate::semantics::eval_spec(
                            ctx1.metas,
                            ctx1.env,
                            te,
                            f,
                        ) {
                            Some(ve) => match tele_field_type_spec(ctx1.metas, ve, ls, tele, l, f) {
                                Some(Some(fieldty)) => Some(
                                    (ctx1, Term::RecordProj(Box::new(te), l), fieldty),
                                ),
                                Some(None) => Some(
                                    (
                                        ctx_diag_sev_spec(
                                            ctx1,
                                            Severity::Error,
                                            MessageCode::UnboundName,
                                            Some(l),
                                        ),
                                        Term::Prim(Prim::ReportedError),
                                        Value::Error,
                                    ),
                                ),
                                None => None,
                            },
                            None => None,
                        },
                        Value::Error => Some((ctx1, Term::Prim(Prim::ReportedError), Value::Error)),
                        _ => Some(
                            (
                                ctx_diag_sev_spec(
                                    ctx1,
                                    Severity::Error,
                                    MessageCode::UnexpectedElim,
                                    None,
                                ),
                                Term::Prim(Prim::ReportedError),
                                Value::Error,
                            ),
                        ),
                    },
                    None => None,
                },
                None => None,
            },
            Surface::RecordType(fields) => match elab_record_type_spec(ctx, fields, List::Nil, f) {
                Some((ctx1, ls, ts)) => Some(
                    (ctx_restore_spec(ctx, ctx1), Term::RecordType(ls, ts), Value::Universe),
                ),
                None => None,
            },
            Surface::RecordLit(fields) => match infer_record_lit_spec(ctx, fields, List::Nil, f) {
                Some((ctx1, ls, ts, tys)) => Some(
                    (
                        ctx1,
                        Term::RecordLit(ls, ts),
                        Value::RecordType(
                            ls,
                            Telescope { env: Box::new(ctx1.env), terms: Box::new(tys) },
                        ),
                    ),
                ),
                None => None,
            },
            _ => match ctx_fresh_meta_spec(ctx) {
                Some((ctx1, m)) => {
                    let ty_term = Term::FlexibleInsertion(m, ctx1.infos);
                    match crate::semantics::eval_spec(ctx1.metas, ctx1.env, ty_term, f) {
                        Some(vty) => match check_spec(ctx1, e, vty, f) {
                            Some((ctx2, t)) => match crate::semantics::eval_spec(
                                ctx2.metas,
                                ctx2.env,
                                ty_term,
                                f,
                            ) {
                                Some(vty2) => Some((ctx2, t, vty2)),
                                None => None,
                            },
                            None => None,
                        },
                        None => None,
                    }
                },
                None => None,
            },
        }
    }
}

/// What checking a surface term against an expected type yields: the
/// updated context and the elaborated core term.
pub open spec fn check_spec(ctx: Context, e: Surface, expected: Value, fuel: nat)
    -> Option<(Context, Term)>
    decreases fuel,
{
    if fuel == 0 {
        None
    } else {
        let f = (fuel - 1) as nat;
        match e {
            Surface::FunLit(x, body) => match crate::semantics::force_spec(ctx.metas, expected, f) {
                Some(fexp) => match fexp {
                    Value::FunType(_, vdom, cod) => match ctx_bind_spec(
                        ctx,
                        Some(x),
                        EntryInfo::Parameter,
                        *vdom,
                        crate::semantics::fresh_spec(ctx.size),
                    ) {
                        Some(ctx1) => match crate::semantics::apply_closure_spec(
                            ctx.metas,
                            cod,
                            crate::semantics::fresh_spec(ctx.size),
                            f,
                        ) {
                            Some(vcod) => match check_spec(ctx1, *body, vcod, f) {
                                Some((ctx2, tb)) => Some(
                                    (ctx_restore_spec(ctx, ctx2), Term::FunLit(Some(x), Box::new(tb))),
                                ),
                                None => None,
                            },
                            None => None,
                        },
                        None => None,
                    },
                    Value::Error => Some((ctx, Term::Prim(Prim::ReportedError))),
                    other => check_via_infer_spec(ctx, e, other, f),
                },
                None => None,
            },
            Surface::NumberLit(v, style) => match crate::semantics::force_spec(ctx.metas, expected, f) {
                Some(fexp) => match number_fit_spec(fexp, v, style) {
                    NumberFit::Fit(c) => Some((ctx, Term::ConstLit(c))),
                    NumberFit::OutOfRange(c) => Some(
                        (
                            ctx_diag_sev_spec(
                                ctx,
                                Severity::Error,
                                MessageCode::IntegerOutOfBounds,
                                None,
                            ),
                            Term::ConstLit(c),
                        ),
                    ),
                    NumberFit::NotNumeric => match fexp {
                        Value::Error => Some((ctx, Term::Prim(Prim::ReportedError))),
                        Value::Stuck(Head::FlexibleVar(_), _) => Some(
                            (
                                ctx_diag_sev_spec(
                                    ctx,
                                    Severity::Error,
                                    MessageCode::UnconstrainedInt,
                                    None,
                                ),
                                Term::Prim(Prim::ReportedError),
                            ),
                        ),
                        _ => Some(
                            (
                                ctx_diag_sev_spec(
                                    ctx,
                                    Severity::Error,
                                    MessageCode::TypeMismatch,
                                    None,
                                ),
                                Term::Prim(Prim::ReportedError),
                            ),
                        ),
                    },
                },
                None => None,
            },
            Surface::ArrayLit(es) => match crate::semantics::force_spec(ctx.metas, expected, f) {
                Some(fexp) => match array_elem_type_spec(fexp) {
                    Some((count, elem_ty)) => {
                        let len_ok = match count {
                            Some(k) => es.slen() == k && es.slen() <= usize::MAX,
                            None => true,
                        };
                        match check_array_spec(ctx, es, elem_ty, f) {
                            Some((ctx1, ts)) => if len_ok {
                                Some((ctx1, Term::ArrayLit(ts)))
                            } else {
                                Some(
                                    (
                                        ctx_diag_sev_spec(
                                            ctx1,
                                            Severity::Error,
                                            MessageCode::TypeMismatch,
                                            None,
                                        ),
                                        Term::ArrayLit(ts),
                                    ),
                                )
                            },
                            None => None,
                        }
                    },
                    None => match fexp {
                        Value::Error => Some((ctx, Term::Prim(Prim::ReportedError))),
                        Value::Stuck(Head::FlexibleVar(_), _) => Some(
                            (
                                ctx_diag_sev_spec(
                                    ctx,
                                    Severity::Error,
                                    MessageCode::AmbiguousLiteral,
                                    None,
                                ),
                                Term::Prim(Prim::ReportedError),
                            ),
                        ),
                        _ => Some(
                            (
                                ctx_diag_sev_spec(
                                    ctx,
                                    Severity::Error,
                                    MessageCode::TypeMismatch,
                                    None,
                                ),
                                Term::Prim(Prim::ReportedError),
                            ),
                        ),
                    },
                },
                None => None,
            },
            Surface::RecordLit(fields) => match crate::semantics::force_spec(ctx.metas, expected, f) {
                Some(fexp) => match fexp {
                    Value::RecordType(ls, tele) => match check_fields_spec(ctx, fields, ls, tele, f) {
                        Some((ctx1, ts)) => Some((ctx1, Term::RecordLit(ls, ts))),
                        None => None,
                    },
                    Value::Error => Some((ctx, Term::Prim(Prim::ReportedError))),
                    other => check_via_infer_spec(ctx, e, other, f),
                },
                None => None,
            },
            Surface::Match(scrut, branches, default) => match infer_spec(ctx, *scrut, f) {
                Some((ctx1, ts, sty)) => match crate::semantics::force_spec(ctx1.metas, sty, f) {
                    Some(fsty) => match fsty {
                        Value::Error => Some((ctx1, Term::Prim(Prim::ReportedError))),
                        _ => match elab_branches_spec(ctx1, branches, fsty, expected, List::Nil, f) {
                            Some((ctx2, bs)) => match default {
                                Some(d) => match check_spec(ctx2, *d, expected, f) {
                                    Some((ctx3, td)) => Some(
                                        (
                                            ctx3,
                                            Term::ConstMatch(Box::new(ts), bs, Some(Box::new(td))),
                                        ),
                                    ),
                                    None => None,
                                },
                                None => Some((ctx2, Term::ConstMatch(Box::new(ts), bs, None))),
                            },
                            None => None,
                        },
                    },
                    None => None,
                },
                None => None,
            },
            Surface::Hole(name) => {
                let stored = match name {
                    Some(x) => lookup_hole_spec(ctx.holes, x),
                    None => None,
                };
                match stored {
                    Some(t) => Some((ctx, t)),
                    None => match ctx_fresh_meta_spec(ctx) {
                        Some((ctx1, m)) => {
                            let t = Term::FlexibleInsertion(m, ctx1.infos);
                            let ctx2 = match name {
                                Some(x) => Context {
                                    holes: List::Cons(
                                        Box::new((x, t)),
                                        Box::new(ctx1.holes),
                                    ),
                                    ..ctx1
                                },
                                None => ctx1,
                            };
                            Some((ctx2, Term::FlexibleInsertion(m, ctx2.infos)))
                        },
                        None => None,
                    },
                }
            },
            _ => match infer_spec(ctx, e, f) {
                Some((ctx1, t, ity)) => finish_check_spec(ctx1, t, ity, expected, f),
                None => None,
            },
        }
    }
}

/// Check by inference: infer the term's type and unify it with the
/// expected type; on a mismatch, report and recover with the
/// reported-error primitive.
pub open spec fn check_via_infer_spec(ctx: Context, e: Surface, expected: Value, fuel: nat)
    -> Option<(Context, Term)>
    decreases fuel,
{
    if fuel == 0 {
        None
    } else {
        let f = (fuel - 1) as nat;
        match infer_spec(ctx, e, f) {
            Some((ctx1, t, ity)) => finish_check_spec(ctx1, t, ity, expected, f),
            None => None,
        }
    }
}

/// Unify an inferred type with the expected one and finish the check.
pub open spec fn finish_check_spec(ctx: Context, t: Term, ity: Value, expected: Value, fuel: nat)
    -> Option<(Context, Term)>
    decreases fuel,
{
    if fuel == 0 {
        None
    } else {
        let f = (fuel - 1) as nat;
        match crate::unify::unify_spec(ctx.metas, ctx.size, ity, expected, f) {
            Some((ms2, Ok(()))) => Some((Context { metas: ms2, ..ctx }, t)),
            Some((ms2, Err(_))) => Some(
                (
                    ctx_diag_sev_spec(
                        Context { metas: ms2, ..ctx },
                        Severity::Error,
                        MessageCode::TypeMismatch,
                        None,
                    ),
                    Term::Prim(Prim::ReportedError),
                ),
            ),
            None => None,
        }
    }
}

/// The element count (if fixed and known) and element type of an
/// expected array type; `None` when the type is not an array type.
pub open spec fn array_elem_type_spec(fexp: Value) -> Option<(Option<u64>, Value)> {
    match fexp {
        Value::Stuck(Head::Prim(p), spine) => match crate::semantics::spine_args_spec(spine) {
            Some(args) => match p {
                Prim::ArrayType => if args.slen() == 1 {
                    match args.sget(0) {
                        Some(t) => Some((None, t)),
                        None => None,
                    }
                } else {
                    None
                },
                Prim::Array8Type | Prim::Array16Type | Prim::Array32Type | Prim::Array64Type => if args.slen()
                    == 2 {
                    match (args.sget(0), args.sget(1)) {
                        (Some(n), Some(t)) => {
                            let count = match n {
                                Value::ConstLit(Const::U8(k, _)) => Some(k as u64),
                                Value::ConstLit(Const::U16(k, _)) => Some(k as u64),
                                Value::ConstLit(Const::U32(k, _)) => Some(k as u64),
                                Value::ConstLit(Const::U64(k, _)) => Some(k),
                                _ => None,
                            };
                            Some((count, t))
                        },
                        (_, _) => None,
                    }
                } else {
                    None
                },
                _ => None,
            },
            None => None,
        },
        _ => None,
    }
}

/// Check each array element against the element type.
pub open spec fn check_array_spec(ctx: Context, es: List<Surface>, elem_ty: Value, fuel: nat)
    -> Option<(Context, List<Term>)>
    decreases fuel,
{
    if fuel == 0 {
        None
    } else {
        let f = (fuel - 1) as nat;
        match es {
            List::Nil => Some((ctx, List::Nil)),
            List::Cons(e, rest) => match check_spec(ctx, *e, elem_ty, f) {
                Some((ctx1, t)) => match check_array_spec(ctx1, *rest, elem_ty, f) {
                    Some((ctx2, ts)) => Some((ctx2, List::Cons(Box::new(t), Box::new(ts)))),
                    None => None,
                },
                None => None,
            },
        }
    }
}

/// Check the fields of a record literal against a record type's
/// telescope, in order: labels must match one for one, and each later
/// field type sees the values of the earlier fields.
pub open spec fn check_fields_spec(
    ctx: Context,
    fields: List<(StringId, Surface)>,
    ls: List<StringId>,
    tele: Telescope,
    fuel: nat,
) -> Option<(Context, List<Term>)>
    decreases fuel,
{
    if fuel == 0 {
        None
    } else {
        let f = (fuel - 1) as nat;
        match (fields, ls, *tele.terms) {
            (List::Nil, List::Nil, List::Nil) => Some((ctx, List::Nil)),
            (List::Cons(fe, frest), List::Cons(l, lrest), List::Cons(t0, trest)) => if (*fe).0 == *l {
                match crate::semantics::eval_spec(ctx.metas, *tele.env, *t0, f) {
                    Some(fty) => match check_spec(ctx, (*fe).1, fty, f) {
                        Some((ctx1, te)) => match crate::semantics::eval_spec(
                            ctx1.metas,
                            ctx1.env,
                            te,
                            f,
                        ) {
                            Some(ve) => match check_fields_spec(
                                ctx1,
                                *frest,
                                *lrest,
                                Telescope {
                                    env: Box::new(List::Cons(Box::new(ve), tele.env)),
                                    terms: trest,
                                },
                                f,
                            ) {
                                Some((ctx2, ts)) => Some(
                                    (ctx2, List::Cons(Box::new(te), Box::new(ts))),
                                ),
                                None => None,
                            },
                            None => None,
                        },
                        None => None,
                    },
                    None => None,
                }
            } else {
                Some(
                    (
                        ctx_diag_sev_spec(ctx, Severity::Error, MessageCode::TypeMismatch, Some((*fe).0)),
                        reported_terms_spec(fields),
                    ),
                )
            },
            (_, _, _) => Some(
                (
                    ctx_diag_sev_spec(ctx, Severity::Error, MessageCode::TypeMismatch, None),
                    reported_terms_spec(fields),
                ),
            ),
        }
    }
}

/// Elaborate the fields of a record type: each field type is checked
/// against the universe and bound as a parameter for the fields after
/// it. Repeated labels are reported.
pub open spec fn elab_record_type_spec(
    ctx: Context,
    fields: List<(StringId, Surface)>,
    seen: List<StringId>,
    fuel: nat,
) -> Option<(Context, List<StringId>, List<Term>)>
    decreases fuel,
{
    if fuel == 0 {
        None
    } else {
        let f = (fuel - 1) as nat;
        match fields {
            List::Nil => Some((ctx, List::Nil, List::Nil)),
            List::Cons(fe, frest) => {
                let l = (*fe).0;
                let ctx0 = if contains_label_spec(seen, l) {
                    ctx_diag_sev_spec(ctx, Severity::Error, MessageCode::DuplicateLabel, Some(l))
                } else {
                    ctx
                };
                match check_spec(ctx0, (*fe).1, Value::Universe, f) {
                    Some((ctx1, tt)) => match crate::semantics::eval_spec(ctx1.metas, ctx1.env, tt, f) {
                        Some(vt) => match ctx_bind_spec(
                            ctx1,
                            Some(l),
                            EntryInfo::Parameter,
                            vt,
                            crate::semantics::fresh_spec(ctx1.size),
                        ) {
                            Some(ctx2) => match elab_record_type_spec(
                                ctx2,
                                *frest,
                                List::Cons(Box::new(l), Box::new(seen)),
                                f,
                            ) {
                                Some((ctx3, ls, ts)) => Some(
                                    (
                                        ctx3,
                                        List::Cons(Box::new(l), Box::new(ls)),
                                        List::Cons(Box::new(tt), Box::new(ts)),
                                    ),
                                ),
                                None => None,
                            },
                            None => None,
                        },
                        None => None,
                    },
                    None => None,
                }
            },
        }
    }
}

/// Infer the fields of a record literal: each field is inferred in
/// turn, and its type is quoted one binder deeper per preceding field,
/// which weakens it into the record type's telescope.
pub open spec fn infer_record_lit_spec(
    ctx: Context,
    fields: List<(StringId, Surface)>,
    seen: List<StringId>,
    fuel: nat,
) -> Option<(Context, List<StringId>, List<Term>, List<Term>)>
    decreases fuel,
{
    if fuel == 0 {
        None
    } else {
        let f = (fuel - 1) as nat;
        match fields {
            List::Nil => Some((ctx, List::Nil, List::Nil, List::Nil)),
            List::Cons(fe, frest) => {
                let l = (*fe).0;
                let ctx0 = if contains_label_spec(seen, l) {
                    ctx_diag_sev_spec(ctx, Severity::Error, MessageCode::DuplicateLabel, Some(l))
                } else {
                    ctx
                };
                match infer_spec(ctx0, (*fe).1, f) {
                    Some((ctx1, te, ty)) => if ctx1.size <= usize::MAX - seen.slen() {
                        match crate::semantics::quote_spec(
                            ctx1.metas,
                            (ctx1.size + seen.slen()) as usize,
                            ty,
                            f,
                        ) {
                            Some(tyt) => match infer_record_lit_spec(
                                ctx1,
                                *frest,
                                List::Cons(Box::new(l), Box::new(seen)),
                                f,
                            ) {
                                Some((ctx2, ls, ts, tys)) => Some(
                                    (
                                        ctx2,
                                        List::Cons(Box::new(l), Box::new(ls)),
                                        List::Cons(Box::new(te), Box::new(ts)),
                                        List::Cons(Box::new(tyt), Box::new(tys)),
                                    ),
                                ),
                                None => None,
                            },
                            None => None,
                        }
                    } else {
                        None
                    },
                    None => None,
                }
            },
        }
    }
}

/// Elaborate the branches of a match: each number pattern is converted
/// at the scrutinee's type, repeated patterns are reported, and each
/// body is checked against the expected type.
pub open spec fn elab_branches_spec(
    ctx: Context,
    branches: List<(u64, Surface)>,
    fsty: Value,
    expected: Value,
    seen: List<Const>,
    fuel: nat,
) -> Option<(Context, List<(Const, Term)>)>
    decreases fuel,
{
    if fuel == 0 {
        None
    } else {
        let f = (fuel - 1) as nat;
        match branches {
            List::Nil => Some((ctx, List::Nil)),
            List::Cons(b, brest) => {
                let v = (*b).0;
                match number_fit_spec(fsty, v, UIntStyle::Decimal) {
                    NumberFit::NotNumeric => match check_spec(
                        ctx_diag_sev_spec(ctx, Severity::Error, MessageCode::ExpectedInteger, None),
                        (*b).1,
                        expected,
                        f,
                    ) {
                        Some((ctx1, _tb)) => elab_branches_spec(ctx1, *brest, fsty, expected, seen, f),
                        None => None,
                    },
                    NumberFit::OutOfRange(c) => elab_branch_body_spec(
                        ctx_diag_sev_spec(ctx, Severity::Error, MessageCode::IntegerOutOfBounds, None),
                        c,
                        (*b).1,
                        *brest,
                        fsty,
                        expected,
                        seen,
                        f,
                    ),
                    NumberFit::Fit(c) => {
                        let ctx0 = if contains_const_spec(seen, c) {
                            ctx_diag_sev_spec(ctx, Severity::Error, MessageCode::DuplicatePattern, None)
                        } else {
                            ctx
                        };
                        elab_branch_body_spec(ctx0, c, (*b).1, *brest, fsty, expected, seen, f)
                    },
                }
            },
        }
    }
}

/// Check one branch body and continue with the rest.
pub open spec fn elab_branch_body_spec(
    ctx: Context,
    c: Const,
    body: Surface,
    rest: List<(u64, Surface)>,
    fsty: Value,
    expected: Value,
    seen: List<Const>,
    fuel: nat,
) -> Option<(Context, List<(Const, Term)>)>
    decreases fuel,
{
    if fuel == 0 {
        None
    } else {
        let f = (fuel - 1) as nat;
        match check_spec(ctx, body, expected, f) {
            Some((ctx1, tb)) => match elab_branches_spec(
                ctx1,
                rest,
                fsty,
                expected,
                List::Cons(Box::new(c), Box::new(seen)),
                f,
            ) {
                Some((ctx2, bs)) => Some((ctx2, List::Cons(Box::new((c, tb)), Box::new(bs)))),
                None => None,
            },
            None => None,
        }
    }
}

} // verus!

verus! {

/// Whether any metavariable is still unsolved.
pub open spec fn any_unsolved_spec(ms: List<MetaEntry>) -> bool
    decreases ms,
{
    match ms {
        List::Nil => false,
        List::Cons(e, rest) => (*e is Unsolved) || any_unsolved_spec(*rest),
    }
}

/// What elaborating one item yields: the context with the item bound as
/// a definition, and the item's elaborated core term. An item whose name
/// is already bound is reported and skipped.
pub open spec fn elab_item_spec(ctx: Context, item: Item, fuel: nat)
    -> Option<(Context, Option<(StringId, Term)>)>
    decreases fuel,
{
    if fuel == 0 {
        None
    } else {
        let f = (fuel - 1) as nat;
        let name = match item {
            Item::Alias(a) => a.name,
            Item::Struct(s) => s.name,
        };
        if lookup_local_spec(ctx.names, name) is Some {
            Some(
                (
                    ctx_diag_sev_spec(ctx, Severity::Bug, MessageCode::ItemNameReused, Some(name)),
                    None,
                ),
            )
        } else {
            match item {
                Item::Alias(a) => match infer_spec(ctx, a.term, f) {
                    Some((ctx1, t, ty)) => match crate::semantics::eval_spec(
                        ctx1.metas,
                        ctx1.env,
                        t,
                        f,
                    ) {
                        Some(v) => match ctx_bind_spec(ctx1, Some(name), EntryInfo::Definition, ty, v) {
                            Some(ctx2) => Some((ctx2, Some((name, t)))),
                            None => None,
                        },
                        None => None,
                    },
                    None => None,
                },
                Item::Struct(s) => match elab_struct_fields_spec(ctx, s.fields, List::Nil, f) {
                    Some((ctx1, ls, ts)) => {
                        let ctx2 = ctx_restore_spec(ctx, ctx1);
                        let t = Term::FormatRecord(ls, ts);
                        match crate::semantics::eval_spec(ctx2.metas, ctx2.env, t, f) {
                            Some(v) => match ctx_bind_spec(
                                ctx2,
                                Some(name),
                                EntryInfo::Definition,
                                Value::Stuck(Head::Prim(Prim::FormatType), List::Nil),
                                v,
                            ) {
                                Some(ctx3) => Some((ctx3, Some((name, t)))),
                                None => None,
                            },
                            None => None,
                        }
                    },
                    None => None,
                },
            }
        }
    }
}

/// Elaborate the fields of a struct item: each field is checked against
/// the format universe, and bound for the later fields as a parameter
/// whose type is the representation of its format.
pub open spec fn elab_struct_fields_spec(
    ctx: Context,
    fields: List<TypeField>,
    seen: List<StringId>,
    fuel: nat,
) -> Option<(Context, List<StringId>, List<Term>)>
    decreases fuel,
{
    if fuel == 0 {
        None
    } else {
        let f = (fuel - 1) as nat;
        match fields {
            List::Nil => Some((ctx, List::Nil, List::Nil)),
            List::Cons(fe, frest) => {
                let l = (*fe).name;
                let ctx0 = if contains_label_spec(seen, l) {
                    ctx_diag_sev_spec(ctx, Severity::Error, MessageCode::DuplicateLabel, Some(l))
                } else {
                    ctx
                };
                match check_spec(
                    ctx0,
                    (*fe).term,
                    Value::Stuck(Head::Prim(Prim::FormatType), List::Nil),
                    f,
                ) {
                    Some((ctx1, tf)) => match crate::semantics::eval_spec(ctx1.metas, ctx1.env, tf, f) {
                        Some(vf) => match crate::semantics::repr_spec(ctx1.metas, vf, f) {
                            Some(vrepr) => match ctx_bind_spec(
                                ctx1,
                                Some(l),
                                EntryInfo::Parameter,
                                vrepr,
                                crate::semantics::fresh_spec(ctx1.size),
                            ) {
                                Some(ctx2) => match elab_struct_fields_spec(
                                    ctx2,
                                    *frest,
                                    List::Cons(Box::new(l), Box::new(seen)),
                                    f,
                                ) {
                                    Some((ctx3, ls, ts)) => Some(
                                        (
                                            ctx3,
                                            List::Cons(Box::new(l), Box::new(ls)),
                                            List::Cons(Box::new(tf), Box::new(ts)),
                                        ),
                                    ),
                                    None => None,
                                },
                                None => None,
                            },
                            None => None,
                        },
                        None => None,
                    },
                    None => None,
                }
            },
        }
    }
}

/// What elaborating a module's items in order yields: the final context
/// (each item bound as a definition, in order) and the elaborated core
/// term of each item that survived. A closing diagnostic reports any
/// metavariable left unsolved.
pub open spec fn elab_items_spec(ctx: Context, items: List<Item>, fuel: nat)
    -> Option<(Context, List<(StringId, Term)>)>
    decreases fuel,
{
    if fuel == 0 {
        None
    } else {
        let f = (fuel - 1) as nat;
        match items {
            List::Nil => Some((ctx, List::Nil)),
            List::Cons(item, rest) => match elab_item_spec(ctx, *item, f) {
                Some((ctx1, out)) => match elab_items_spec(ctx1, *rest, f) {
                    Some((ctx2, outs)) => Some(
                        (
                            ctx2,
                            match out {
                                Some(o) => List::Cons(Box::new(o), Box::new(outs)),
                                None => outs,
                            },
                        ),
                    ),
                    None => None,
                },
                None => None,
            },
        }
    }
}

/// What elaborating a whole module yields: the items elaborated in
/// order, with a closing diagnostic when a metavariable was left
/// unsolved (an ambiguous metavariable).
pub open spec fn elab_module_spec(ctx: Context, m: Module, fuel: nat)
    -> Option<(Context, List<(StringId, Term)>)>
    decreases fuel,
{
    if fuel == 0 {
        None
    } else {
        match elab_items_spec(ctx, m.items, (fuel - 1) as nat) {
            Some((ctx1, outs)) => if any_unsolved_spec(ctx1.metas) {
                Some(
                    (
                        ctx_diag_sev_spec(ctx1, Severity::Error, MessageCode::AmbiguousMeta, None),
                        outs,
                    ),
                )
            } else {
                Some((ctx1, outs))
            },
            None => None,
        }
    }
}

/// The value an elaborated module binds a name to, if the name is an
/// item of the module.
pub open spec fn item_value_spec(ctx: Context, name: StringId) -> Option<Value> {
    match lookup_local_spec(ctx.names, name) {
        Some(i) => ctx.env.sget(i as nat),
        None => None,
    }
}

} // verus!

verus! {

/// The de Bruijn index of the nearest binder with this name.
pub fn lookup_local(names: &List<Option<StringId>>, x: StringId) -> (r: Option<usize>)
    ensures
        r == lookup_local_spec(*names, x),
    decreases *names,
{
    match names {
        List::Nil => None,
        List::Cons(n, rest) => if **n == Some(x) {
            Some(0)
        } else {
            match lookup_local(rest, x) {
                Some(i) => if i < usize::MAX {
                    Some(i + 1)
                } else {
                    None
                },
                None => None,
            }
        },
    }
}

/// The primitive a name stands for, if any.
pub fn lookup_prim(prims: &List<(StringId, Prim)>, x: StringId) -> (r: Option<Prim>)
    ensures
        r == lookup_prim_spec(*prims, x),
    decreases *prims,
{
    match prims {
        List::Nil => None,
        List::Cons(p, rest) => if (**p).0 == x {
            Some((**p).1)
        } else {
            lookup_prim(rest, x)
        },
    }
}

/// The term a named hole elaborated to, if the name was seen before.
pub fn lookup_hole(holes: &List<(StringId, Term)>, x: StringId) -> (r: Option<Term>)
    ensures
        r == lookup_hole_spec(*holes, x),
    decreases *holes,
{
    match holes {
        List::Nil => None,
        List::Cons(h, rest) => if (**h).0 == x {
            Some(crate::semantics::clone_term(&(**h).1))
        } else {
            lookup_hole(rest, x)
        },
    }
}

/// Whether a label occurs in a list of labels.
pub fn contains_label(ls: &List<StringId>, l: StringId) -> (r: bool)
    ensures
        r == contains_label_spec(*ls, l),
    decreases *ls,
{
    match ls {
        List::Nil => false,
        List::Cons(x, rest) => **x == l || contains_label(rest, l),
    }
}

/// Whether a constant occurs (by logical equality) in a list.
pub fn contains_const(cs: &List<Const>, c: Const) -> (r: bool)
    ensures
        r == contains_const_spec(*cs, c),
    decreases *cs,
{
    match cs {
        List::Nil => false,
        List::Cons(x, rest) => **x == c || contains_const(rest, c),
    }
}

/// Deep copy of a diagnostic.
pub fn clone_diag(d: &Diagnostic) -> (r: Diagnostic)
    ensures
        r == *d,
{
    Diagnostic {
        severity: d.severity,
        code: d.code,
        name: d.name,
        labels: crate::semantics::clone_copy_list(&d.labels),
    }
}

/// Deep copy of a diagnostic list.
pub fn clone_diags(ds: &List<Diagnostic>) -> (r: List<Diagnostic>)
    ensures
        r == *ds,
    decreases *ds,
{
    match ds {
        List::Nil => List::Nil,
        List::Cons(d, rest) => List::Cons(Box::new(clone_diag(d)), Box::new(clone_diags(rest))),
    }
}

/// Deep copy of the named-hole table.
pub fn clone_holes(hs: &List<(StringId, Term)>) -> (r: List<(StringId, Term)>)
    ensures
        r == *hs,
    decreases *hs,
{
    match hs {
        List::Nil => List::Nil,
        List::Cons(h, rest) => List::Cons(
            Box::new(((**h).0, crate::semantics::clone_term(&(**h).1))),
            Box::new(clone_holes(rest)),
        ),
    }
}

/// Deep copy of an elaboration context.
pub fn clone_ctx(ctx: &Context) -> (r: Context)
    ensures
        r == *ctx,
{
    Context {
        size: ctx.size,
        names: crate::semantics::clone_copy_list(&ctx.names),
        infos: crate::semantics::clone_copy_list(&ctx.infos),
        types: crate::semantics::clone_values(&ctx.types),
        env: crate::semantics::clone_values(&ctx.env),
        prims: crate::semantics::clone_copy_list(&ctx.prims),
        metas: crate::unify::clone_metas(&ctx.metas),
        holes: clone_holes(&ctx.holes),
        diags: clone_diags(&ctx.diags),
        file_id: ctx.file_id,
    }
}

/// A diagnostic appended at the end.
pub fn snoc_diag(ds: &List<Diagnostic>, d: Diagnostic) -> (r: List<Diagnostic>)
    ensures
        r == snoc_diag_spec(*ds, d),
    decreases *ds,
{
    match ds {
        List::Nil => List::Cons(Box::new(d), Box::new(List::Nil)),
        List::Cons(x, rest) => List::Cons(Box::new(clone_diag(x)), Box::new(snoc_diag(rest, d))),
    }
}

/// The context with one more diagnostic.
pub fn ctx_diag_sev(ctx: Context, severity: Severity, code: MessageCode, name: Option<StringId>)
    -> (r: Context)
    ensures
        r == ctx_diag_sev_spec(ctx, severity, code, name),
{
    let d = crate::diagnostics::one_label(severity, code, name, ctx.file_id, 0, 0);
    let diags = snoc_diag(&ctx.diags, d);
    Context { diags, ..ctx }
}

/// The context with a new rigid entry.
pub fn ctx_bind(ctx: Context, name: Option<StringId>, info: EntryInfo, ty: Value, value: Value)
    -> (r: Option<Context>)
    ensures
        r == ctx_bind_spec(ctx, name, info, ty, value),
{
    if ctx.size < usize::MAX {
        Some(
            Context {
                size: ctx.size + 1,
                names: List::Cons(Box::new(name), Box::new(ctx.names)),
                infos: List::Cons(Box::new(info), Box::new(ctx.infos)),
                types: List::Cons(Box::new(ty), Box::new(ctx.types)),
                env: List::Cons(Box::new(value), Box::new(ctx.env)),
                prims: ctx.prims,
                metas: ctx.metas,
                holes: ctx.holes,
                diags: ctx.diags,
                file_id: ctx.file_id,
            },
        )
    } else {
        None
    }
}

/// The rigid parts of `old` with the flexible parts of `new`.
pub fn ctx_restore(old: Context, new: Context) -> (r: Context)
    ensures
        r == ctx_restore_spec(old, new),
{
    Context { metas: new.metas, holes: new.holes, diags: new.diags, ..old }
}

/// The context with a fresh unsolved metavariable, and its id.
pub fn ctx_fresh_meta(ctx: Context) -> (r: Option<(Context, usize)>)
    ensures
        r == ctx_fresh_meta_spec(ctx),
{
    match ctx.metas.len() {
        None => None,
        Some(k) => {
            let metas = crate::unify::push_meta(&ctx.metas);
            Some((Context { metas, ..ctx }, k))
        },
    }
}

/// How an unsigned number literal fits a (forced) expected type.
pub fn number_fit(ty: &Value, v: u64, style: UIntStyle) -> (r: NumberFit)
    ensures
        r == number_fit_spec(*ty, v, style),
{
    match ty {
        Value::Stuck(Head::Prim(p), List::Nil) => match p {
            Prim::U8Type => if v <= u8::MAX as u64 {
                NumberFit::Fit(Const::U8(v as u8, style))
            } else {
                NumberFit::OutOfRange(Const::U8(v as u8, style))
            },
            Prim::U16Type => if v <= u16::MAX as u64 {
                NumberFit::Fit(Const::U16(v as u16, style))
            } else {
                NumberFit::OutOfRange(Const::U16(v as u16, style))
            },
            Prim::U32Type => if v <= u32::MAX as u64 {
                NumberFit::Fit(Const::U32(v as u32, style))
            } else {
                NumberFit::OutOfRange(Const::U32(v as u32, style))
            },
            Prim::U64Type => NumberFit::Fit(Const::U64(v, style)),
            Prim::S8Type => if v <= i8::MAX as u64 {
                NumberFit::Fit(Const::S8(v as i8))
            } else {
                NumberFit::OutOfRange(Const::S8(v as i8))
            },
            Prim::S16Type => if v <= i16::MAX as u64 {
                NumberFit::Fit(Const::S16(v as i16))
            } else {
                NumberFit::OutOfRange(Const::S16(v as i16))
            },
            Prim::S32Type => if v <= i32::MAX as u64 {
                NumberFit::Fit(Const::S32(v as i32))
            } else {
                NumberFit::OutOfRange(Const::S32(v as i32))
            },
            Prim::S64Type => if v <= i64::MAX as u64 {
                NumberFit::Fit(Const::S64(v as i64))
            } else {
                NumberFit::OutOfRange(Const::S64(v as i64))
            },
            Prim::PosType => NumberFit::Fit(Const::Pos(v)),
            _ => NumberFit::NotNumeric,
        },
        _ => NumberFit::NotNumeric,
    }
}

/// One reported-error core term per entry of a list.
pub fn reported_terms<T>(fields: &List<T>) -> (r: List<Term>)
    ensures
        r == reported_terms_spec(*fields),
    decreases *fields,
{
    match fields {
        List::Nil => List::Nil,
        List::Cons(_, rest) => List::Cons(
            Box::new(Term::Prim(Prim::ReportedError)),
            Box::new(reported_terms(rest)),
        ),
    }
}

/// Whether any metavariable is still unsolved.
pub fn any_unsolved(ms: &List<MetaEntry>) -> (r: bool)
    ensures
        r == any_unsolved_spec(*ms),
    decreases *ms,
{
    match ms {
        List::Nil => false,
        List::Cons(e, rest) => match &**e {
            MetaEntry::Unsolved => true,
            MetaEntry::Solved(_) => any_unsolved(rest),
        },
    }
}

/// The value an elaborated module binds a name to.
pub fn item_value(ctx: &Context, name: StringId) -> (r: Option<Value>)
    ensures
        r == item_value_spec(*ctx, name),
{
    match lookup_local(&ctx.names, name) {
        Some(i) => match ctx.env.get(i) {
            Some(v) => Some(crate::semantics::clone_value(v)),
            None => None,
        },
        None => None,
    }
}

} // verus!

verus! {

/// A non-dependent function type term.
pub fn t_arrow(dom: Term, cod: Term) -> (r: Term)
    ensures
        r == t_arrow_spec(dom, cod),
{
    Term::FunType(None, Box::new(dom), Box::new(cod))
}

/// The type of a binary operator: `a -> a -> b`.
pub fn t_bin_op(a: Prim, b: Prim) -> (r: Term)
    ensures
        r == t_bin_op_spec(a, b),
{
    t_arrow(Term::Prim(a), t_arrow(Term::Prim(a), Term::Prim(b)))
}

/// The type of a unary operator: `a -> a`.
pub fn t_un_op(a: Prim) -> (r: Term)
    ensures
        r == t_un_op_spec(a),
{
    t_arrow(Term::Prim(a), Term::Prim(a))
}

/// The type of an array search primitive.
pub fn t_array_find(idx: Prim, arr: Prim) -> (r: Term)
    ensures
        r == t_array_find_spec(idx, arr),
{
    Term::FunType(
        None,
        Box::new(Term::Prim(idx)),
        Box::new(
            Term::FunType(
                None,
                Box::new(Term::Universe),
                Box::new(
                    t_arrow(
                        t_arrow(Term::RigidVar(0), Term::Prim(Prim::BoolType)),
                        t_arrow(
                            Term::FunApp(
                                Box::new(
                                    Term::FunApp(
                                        Box::new(Term::Prim(arr)),
                                        Box::new(Term::RigidVar(3)),
                                    ),
                                ),
                                Box::new(Term::RigidVar(2)),
                            ),
                            Term::FunApp(
                                Box::new(Term::Prim(Prim::OptionType)),
                                Box::new(Term::RigidVar(3)),
                            ),
                        ),
                    ),
                ),
            ),
        ),
    )
}

/// The closed type of each primitive, as a core term.
pub fn prim_type_term(p: Prim) -> (r: Term)
    ensures
        r == prim_type_term_spec(p),
{
    match p {
        Prim::VoidType | Prim::BoolType | Prim::U8Type | Prim::U16Type | Prim::U32Type
            | Prim::U64Type | Prim::S8Type | Prim::S16Type | Prim::S32Type | Prim::S64Type
            | Prim::F32Type | Prim::F64Type | Prim::PosType | Prim::FormatType => Term::Universe,
        Prim::OptionType | Prim::ArrayType | Prim::RefType => t_arrow(
            Term::Universe,
            Term::Universe,
        ),
        Prim::Array8Type => t_arrow(
            Term::Prim(Prim::U8Type),
            t_arrow(Term::Universe, Term::Universe),
        ),
        Prim::Array16Type => t_arrow(
            Term::Prim(Prim::U16Type),
            t_arrow(Term::Universe, Term::Universe),
        ),
        Prim::Array32Type => t_arrow(
            Term::Prim(Prim::U32Type),
            t_arrow(Term::Universe, Term::Universe),
        ),
        Prim::Array64Type => t_arrow(
            Term::Prim(Prim::U64Type),
            t_arrow(Term::Universe, Term::Universe),
        ),
        Prim::FormatU8 | Prim::FormatU16Be | Prim::FormatU16Le | Prim::FormatU32Be
            | Prim::FormatU32Le | Prim::FormatU64Be | Prim::FormatU64Le | Prim::FormatS8
            | Prim::FormatS16Be | Prim::FormatS16Le | Prim::FormatS32Be | Prim::FormatS32Le
            | Prim::FormatS64Be | Prim::FormatS64Le | Prim::FormatF32Be | Prim::FormatF32Le
            | Prim::FormatF64Be | Prim::FormatF64Le | Prim::FormatStreamPos => Term::Prim(
            Prim::FormatType,
        ),
        Prim::FormatArray8 => t_arrow(
            Term::Prim(Prim::U8Type),
            t_arrow(Term::Prim(Prim::FormatType), Term::Prim(Prim::FormatType)),
        ),
        Prim::FormatArray16 => t_arrow(
            Term::Prim(Prim::U16Type),
            t_arrow(Term::Prim(Prim::FormatType), Term::Prim(Prim::FormatType)),
        ),
        Prim::FormatArray32 => t_arrow(
            Term::Prim(Prim::U32Type),
            t_arrow(Term::Prim(Prim::FormatType), Term::Prim(Prim::FormatType)),
        ),
        Prim::FormatArray64 => t_arrow(
            Term::Prim(Prim::U64Type),
            t_arrow(Term::Prim(Prim::FormatType), Term::Prim(Prim::FormatType)),
        ),
        Prim::FormatRepeatUntilEnd => t_arrow(
            Term::Prim(Prim::FormatType),
            Term::Prim(Prim::FormatType),
        ),
        Prim::FormatLink => t_arrow(
            Term::Prim(Prim::PosType),
            t_arrow(Term::Prim(Prim::FormatType), Term::Prim(Prim::FormatType)),
        ),
        Prim::FormatDeref => Term::FunType(
            None,
            Box::new(Term::Prim(Prim::FormatType)),
            Box::new(
                t_arrow(
                    Term::FunApp(
                        Box::new(Term::Prim(Prim::RefType)),
                        Box::new(
                            Term::FunApp(
                                Box::new(Term::Prim(Prim::FormatRepr)),
                                Box::new(Term::RigidVar(0)),
                            ),
                        ),
                    ),
                    Term::Prim(Prim::FormatType),
                ),
            ),
        ),
        Prim::FormatSucceed => Term::FunType(
            None,
            Box::new(Term::Universe),
            Box::new(t_arrow(Term::RigidVar(0), Term::Prim(Prim::FormatType))),
        ),
        Prim::FormatFail => t_arrow(Term::Universe, Term::Prim(Prim::FormatType)),
        Prim::FormatUnwrap => Term::FunType(
            None,
            Box::new(Term::Universe),
            Box::new(
                t_arrow(
                    Term::FunApp(
                        Box::new(Term::Prim(Prim::OptionType)),
                        Box::new(Term::RigidVar(0)),
                    ),
                    Term::Prim(Prim::FormatType),
                ),
            ),
        ),
        Prim::FormatRepr => t_arrow(Term::Prim(Prim::FormatType), Term::Universe),
        Prim::ReportedError => Term::Universe,
        Prim::BoolNot => t_un_op(Prim::BoolType),
        Prim::BoolEq | Prim::BoolNeq | Prim::BoolAnd | Prim::BoolOr | Prim::BoolXor => t_bin_op(
            Prim::BoolType,
            Prim::BoolType,
        ),
        Prim::U8Eq | Prim::U8Neq | Prim::U8Gt | Prim::U8Lt | Prim::U8Gte | Prim::U8Lte => t_bin_op(
            Prim::U8Type,
            Prim::BoolType,
        ),
        Prim::U8Add | Prim::U8Sub | Prim::U8Mul | Prim::U8Div | Prim::U8Shl | Prim::U8Shr
            | Prim::U8And | Prim::U8Or | Prim::U8Xor => t_bin_op(Prim::U8Type, Prim::U8Type),
        Prim::U8Not => t_un_op(Prim::U8Type),
        Prim::U16Eq | Prim::U16Neq | Prim::U16Gt | Prim::U16Lt | Prim::U16Gte | Prim::U16Lte => t_bin_op(
            Prim::U16Type,
            Prim::BoolType,
        ),
        Prim::U16Add | Prim::U16Sub | Prim::U16Mul | Prim::U16Div | Prim::U16Shl | Prim::U16Shr
            | Prim::U16And | Prim::U16Or | Prim::U16Xor => t_bin_op(
            Prim::U16Type,
            Prim::U16Type,
        ),
        Prim::U16Not => t_un_op(Prim::U16Type),
        Prim::U32Eq | Prim::U32Neq | Prim::U32Gt | Prim::U32Lt | Prim::U32Gte | Prim::U32Lte => t_bin_op(
            Prim::U32Type,
            Prim::BoolType,
        ),
        Prim::U32Add | Prim::U32Sub | Prim::U32Mul | Prim::U32Div | Prim::U32Shl | Prim::U32Shr
            | Prim::U32And | Prim::U32Or | Prim::U32Xor => t_bin_op(
            Prim::U32Type,
            Prim::U32Type,
        ),
        Prim::U32Not => t_un_op(Prim::U32Type),
        Prim::U64Eq | Prim::U64Neq | Prim::U64Gt | Prim::U64Lt | Prim::U64Gte | Prim::U64Lte => t_bin_op(
            Prim::U64Type,
            Prim::BoolType,
        ),
        Prim::U64Add | Prim::U64Sub | Prim::U64Mul | Prim::U64Div | Prim::U64Shl | Prim::U64Shr
            | Prim::U64And | Prim::U64Or | Prim::U64Xor => t_bin_op(
            Prim::U64Type,
            Prim::U64Type,
        ),
        Prim::U64Not => t_un_op(Prim::U64Type),
        Prim::S8Eq | Prim::S8Neq | Prim::S8Gt | Prim::S8Lt | Prim::S8Gte | Prim::S8Lte => t_bin_op(
            Prim::S8Type,
            Prim::BoolType,
        ),
        Prim::S8Add | Prim::S8Sub | Prim::S8Mul | Prim::S8Div => t_bin_op(
            Prim::S8Type,
            Prim::S8Type,
        ),
        Prim::S8Neg | Prim::S8Abs => t_un_op(Prim::S8Type),
        Prim::S8UAbs => t_arrow(Term::Prim(Prim::S8Type), Term::Prim(Prim::U8Type)),
        Prim::S16Eq | Prim::S16Neq | Prim::S16Gt | Prim::S16Lt | Prim::S16Gte | Prim::S16Lte => t_bin_op(
            Prim::S16Type,
            Prim::BoolType,
        ),
        Prim::S16Add | Prim::S16Sub | Prim::S16Mul | Prim::S16Div => t_bin_op(
            Prim::S16Type,
            Prim::S16Type,
        ),
        Prim::S16Neg | Prim::S16Abs => t_un_op(Prim::S16Type),
        Prim::S16UAbs => t_arrow(Term::Prim(Prim::S16Type), Term::Prim(Prim::U16Type)),
        Prim::S32Eq | Prim::S32Neq | Prim::S32Gt | Prim::S32Lt | Prim::S32Gte | Prim::S32Lte => t_bin_op(
            Prim::S32Type,
            Prim::BoolType,
        ),
        Prim::S32Add | Prim::S32Sub | Prim::S32Mul | Prim::S32Div => t_bin_op(
            Prim::S32Type,
            Prim::S32Type,
        ),
        Prim::S32Neg | Prim::S32Abs => t_un_op(Prim::S32Type),
        Prim::S32UAbs => t_arrow(Term::Prim(Prim::S32Type), Term::Prim(Prim::U32Type)),
        Prim::S64Eq | Prim::S64Neq | Prim::S64Gt | Prim::S64Lt | Prim::S64Gte | Prim::S64Lte => t_bin_op(
            Prim::S64Type,
            Prim::BoolType,
        ),
        Prim::S64Add | Prim::S64Sub | Prim::S64Mul | Prim::S64Div => t_bin_op(
            Prim::S64Type,
            Prim::S64Type,
        ),
        Prim::S64Neg | Prim::S64Abs => t_un_op(Prim::S64Type),
        Prim::S64UAbs => t_arrow(Term::Prim(Prim::S64Type), Term::Prim(Prim::U64Type)),
        Prim::OptionSome => Term::FunType(
            None,
            Box::new(Term::Universe),
            Box::new(
                t_arrow(
                    Term::RigidVar(0),
                    Term::FunApp(
                        Box::new(Term::Prim(Prim::OptionType)),
                        Box::new(Term::RigidVar(1)),
                    ),
                ),
            ),
        ),
        Prim::OptionNone => Term::FunType(
            None,
            Box::new(Term::Universe),
            Box::new(
                Term::FunApp(Box::new(Term::Prim(Prim::OptionType)), Box::new(Term::RigidVar(0))),
            ),
        ),
        Prim::OptionFold => Term::FunType(
            None,
            Box::new(Term::Universe),
            Box::new(
                Term::FunType(
                    None,
                    Box::new(Term::Universe),
                    Box::new(
                        t_arrow(
                            Term::RigidVar(0),
                            t_arrow(
                                t_arrow(Term::RigidVar(2), Term::RigidVar(2)),
                                t_arrow(
                                    Term::FunApp(
                                        Box::new(Term::Prim(Prim::OptionType)),
                                        Box::new(Term::RigidVar(4)),
                                    ),
                                    Term::RigidVar(4),
                                ),
                            ),
                        ),
                    ),
                ),
            ),
        ),
        Prim::Array8Find => t_array_find(Prim::U8Type, Prim::Array8Type),
        Prim::Array16Find => t_array_find(Prim::U16Type, Prim::Array16Type),
        Prim::Array32Find => t_array_find(Prim::U32Type, Prim::Array32Type),
        Prim::Array64Find => t_array_find(Prim::U64Type, Prim::Array64Type),
        Prim::PosAddU8 => t_arrow(
            Term::Prim(Prim::PosType),
            t_arrow(Term::Prim(Prim::U8Type), Term::Prim(Prim::PosType)),
        ),
        Prim::PosAddU16 => t_arrow(
            Term::Prim(Prim::PosType),
            t_arrow(Term::Prim(Prim::U16Type), Term::Prim(Prim::PosType)),
        ),
        Prim::PosAddU32 => t_arrow(
            Term::Prim(Prim::PosType),
            t_arrow(Term::Prim(Prim::U32Type), Term::Prim(Prim::PosType)),
        ),
        Prim::PosAddU64 => t_arrow(
            Term::Prim(Prim::PosType),
            t_arrow(Term::Prim(Prim::U64Type), Term::Prim(Prim::PosType)),
        ),
    }
}

} // verus!

verus! {

/// The field type at a label of a record type (see
/// `tele_field_type_spec`).
pub fn tele_field_type(
    ms: &List<MetaEntry>,
    head: &Value,
    ls: &List<StringId>,
    tele: Telescope,
    l: StringId,
    fuel: u64,
) -> (r: Option<Option<Value>>)
    ensures
        r == tele_field_type_spec(*ms, *head, *ls, tele, l, fuel as nat),
    decreases fuel,
{
    if fuel == 0 {
        return None;
    }
    let f = fuel - 1;
    match (ls, *tele.terms) {
        (List::Cons(l0, lrest), List::Cons(t0, trest)) => match crate::semantics::eval(
            ms,
            &tele.env,
            &t0,
            f,
        ) {
            Some(ty) => if **l0 == l {
                Some(Some(ty))
            } else {
                match crate::semantics::proj(ms, crate::semantics::clone_value(head), **l0, f) {
                    Some(pv) => tele_field_type(
                        ms,
                        head,
                        lrest,
                        Telescope { env: Box::new(List::Cons(Box::new(pv), tele.env)), terms: trest },
                        l,
                        f,
                    ),
                    None => None,
                }
            },
            None => None,
        },
        (_, _) => Some(None),
    }
}

/// The element count and element type of an expected array type (see
/// `array_elem_type_spec`).
pub fn array_elem_type(fexp: &Value) -> (r: Option<(Option<u64>, Value)>)
    ensures
        r == array_elem_type_spec(*fexp),
{
    match fexp {
        Value::Stuck(Head::Prim(p), spine) => match crate::semantics::spine_args(spine) {
            Some(args) => match p {
                Prim::ArrayType => if crate::prims::arity(&args, 1) {
                    match args.get(0) {
                        Some(t) => Some((None, crate::semantics::clone_value(t))),
                        None => None,
                    }
                } else {
                    None
                },
                Prim::Array8Type | Prim::Array16Type | Prim::Array32Type | Prim::Array64Type => if crate::prims::arity(
                    &args,
                    2,
                ) {
                    match (args.get(0), args.get(1)) {
                        (Some(n), Some(t)) => {
                            let count: Option<u64> = match n {
                                Value::ConstLit(Const::U8(k, _)) => Some(*k as u64),
                                Value::ConstLit(Const::U16(k, _)) => Some(*k as u64),
                                Value::ConstLit(Const::U32(k, _)) => Some(*k as u64),
                                Value::ConstLit(Const::U64(k, _)) => Some(*k),
                                _ => None,
                            };
                            Some((count, crate::semantics::clone_value(t)))
                        },
                        (_, _) => None,
                    }
                } else {
                    None
                },
                _ => None,
            },
            None => None,
        },
        _ => None,
    }
}

/// Infer the type of a surface term (see `infer_spec`).
pub fn infer(ctx: Context, e: &Surface, fuel: u64) -> (r: Option<(Context, Term, Value)>)
    ensures
        r == infer_spec(ctx, *e, fuel as nat),
    decreases fuel, 1int,
{
    if fuel == 0 {
        return None;
    }
    let f = fuel - 1;
    match e {
        Surface::Name(x) => match lookup_local(&ctx.names, *x) {
            Some(i) => {
                let ty = match ctx.types.get(i) {
                    Some(ty) => Some(crate::semantics::clone_value(ty)),
                    None => None,
                };
                match ty {
                    Some(ty) => Some((ctx, Term::RigidVar(i), ty)),
                    None => Some((ctx, Term::Prim(Prim::ReportedError), Value::Error)),
                }
            },
            None => match lookup_prim(&ctx.prims, *x) {
                Some(p) => {
                    let tt = prim_type_term(p);
                    match crate::semantics::eval(&ctx.metas, &List::Nil, &tt, f) {
                        Some(ty) => Some((ctx, Term::Prim(p), ty)),
                        None => None,
                    }
                },
                None => Some(
                    (
                        ctx_diag_sev(ctx, Severity::Error, MessageCode::UnboundName, Some(*x)),
                        Term::Prim(Prim::ReportedError),
                        Value::Error,
                    ),
                ),
            },
        },
        Surface::Universe => Some((ctx, Term::Universe, Value::Universe)),
        Surface::BoolLit(b) => Some(
            (
                ctx,
                Term::ConstLit(Const::Bool(*b)),
                Value::Stuck(Head::Prim(Prim::BoolType), List::Nil),
            ),
        ),
        Surface::Ann(e2, ty) => match check(ctx, ty, Value::Universe, f) {
            Some((ctx1, tty)) => match crate::semantics::eval(&ctx1.metas, &ctx1.env, &tty, f) {
                Some(vty) => match check(ctx1, e2, vty, f) {
                    Some((ctx2, te)) => match crate::semantics::eval(&ctx2.metas, &ctx2.env, &tty, f) {
                        Some(vty2) => Some((ctx2, Term::Ann(Box::new(te), Box::new(tty)), vty2)),
                        None => None,
                    },
                    None => None,
                },
                None => None,
            },
            None => None,
        },
        Surface::Let(n, ann, d, b) => {
            let head = match ann {
                Some(a) => match check(ctx, a, Value::Universe, f) {
                    Some((ctx1, tann)) => match crate::semantics::eval(&ctx1.metas, &ctx1.env, &tann, f) {
                        Some(vty) => match check(ctx1, d, vty, f) {
                            Some((ctx2, td)) => Some((ctx2, tann, td)),
                            None => None,
                        },
                        None => None,
                    },
                    None => None,
                },
                None => match infer(ctx, d, f) {
                    Some((ctx1, td, vty)) => match crate::semantics::quote(
                        &ctx1.metas,
                        ctx1.size,
                        vty,
                        f,
                    ) {
                        Some(tann) => Some((ctx1, tann, td)),
                        None => None,
                    },
                    None => None,
                },
            };
            match head {
                Some((ctx2, tann, td)) => match crate::semantics::eval(&ctx2.metas, &ctx2.env, &tann, f) {
                    Some(vty) => match crate::semantics::eval(&ctx2.metas, &ctx2.env, &td, f) {
                        Some(dv) => {
                            let saved = clone_ctx(&ctx2);
                            match ctx_bind(ctx2, *n, EntryInfo::Definition, vty, dv) {
                                Some(ctx3) => match infer(ctx3, b, f) {
                                    Some((ctx4, tb, bty)) => Some(
                                        (
                                            ctx_restore(saved, ctx4),
                                            Term::Let(*n, Box::new(tann), Box::new(td), Box::new(tb)),
                                            bty,
                                        ),
                                    ),
                                    None => None,
                                },
                                None => None,
                            }
                        },
                        None => None,
                    },
                    None => None,
                },
                None => None,
            }
        },
        Surface::FunType(n, dom, cod) => match check(ctx, dom, Value::Universe, f) {
            Some((ctx1, tdom)) => match crate::semantics::eval(&ctx1.metas, &ctx1.env, &tdom, f) {
                Some(vdom) => {
                    let fv = crate::semantics::fresh(ctx1.size);
                    let saved = clone_ctx(&ctx1);
                    match ctx_bind(ctx1, *n, EntryInfo::Parameter, vdom, fv) {
                        Some(ctx2) => match check(ctx2, cod, Value::Universe, f) {
                            Some((ctx3, tcod)) => Some(
                                (
                                    ctx_restore(saved, ctx3),
                                    Term::FunType(*n, Box::new(tdom), Box::new(tcod)),
                                    Value::Universe,
                                ),
                            ),
                            None => None,
                        },
                        None => None,
                    }
                },
                None => None,
            },
            None => None,
        },
        Surface::FunLit(x, body) => match ctx_fresh_meta(ctx) {
            Some((ctx1, m)) => {
                let dom_term = Term::FlexibleInsertion(m, crate::semantics::clone_copy_list(&ctx1.infos));
                match crate::semantics::eval(&ctx1.metas, &ctx1.env, &dom_term, f) {
                    Some(vdom) => {
                        let fv = crate::semantics::fresh(ctx1.size);
                        let saved = clone_ctx(&ctx1);
                        match ctx_bind(ctx1, Some(*x), EntryInfo::Parameter, vdom, fv) {
                            Some(ctx2) => match infer(ctx2, body, f) {
                                Some((ctx3, tb, bty)) => match crate::semantics::quote(
                                    &ctx3.metas,
                                    ctx3.size,
                                    bty,
                                    f,
                                ) {
                                    Some(tcod) => {
                                        let ctx4 = ctx_restore(saved, ctx3);
                                        match crate::semantics::eval(&ctx4.metas, &ctx4.env, &dom_term, f) {
                                            Some(vdom2) => {
                                                let envc = crate::semantics::clone_values(&ctx4.env);
                                                Some(
                                                    (
                                                        ctx4,
                                                        Term::FunLit(Some(*x), Box::new(tb)),
                                                        Value::FunType(
                                                            Some(*x),
                                                            Box::new(vdom2),
                                                            Closure {
                                                                env: Box::new(envc),
                                                                term: Box::new(tcod),
                                                            },
                                                        ),
                                                    ),
                                                )
                                            },
                                            None => None,
                                        }
                                    },
                                    None => None,
                                },
                                None => None,
                            },
                            None => None,
                        }
                    },
                    None => None,
                }
            },
            None => None,
        },
        Surface::App(fun, arg) => match infer(ctx, fun, f) {
            Some((ctx1, tf, fty)) => match crate::semantics::force(&ctx1.metas, fty, f) {
                Some(ffty) => match ffty {
                    Value::FunType(_, vdom, cod) => match check(ctx1, arg, *vdom, f) {
                        Some((ctx2, ta)) => match crate::semantics::eval(&ctx2.metas, &ctx2.env, &ta, f) {
                            Some(va) => match crate::semantics::apply_closure(&ctx2.metas, &cod, va, f) {
                                Some(vcod) => Some(
                                    (ctx2, Term::FunApp(Box::new(tf), Box::new(ta)), vcod),
                                ),
                                None => None,
                            },
                            None => None,
                        },
                        None => None,
                    },
                    Value::Error => Some((ctx1, Term::Prim(Prim::ReportedError), Value::Error)),
                    _ => Some(
                        (
                            ctx_diag_sev(ctx1, Severity::Error, MessageCode::UnexpectedElim, None),
                            Term::Prim(Prim::ReportedError),
                            Value::Error,
                        ),
                    ),
                },
                None => None,
            },
            None => None,
        },
        Surface::Proj(e2, l) => match infer(ctx, e2, f) {
            Some((ctx1, te, ety)) => match crate::semantics::force(&ctx1.metas, ety, f) {
                Some(fety) => match fety {
                    Value::RecordType(ls, tele) => match crate::semantics::eval(
                        &ctx1.metas,
                        &ctx1.env,
                        &te,
                        f,
                    ) {
                        Some(ve) => match tele_field_type(&ctx1.metas, &ve, &ls, tele, *l, f) {
                            Some(Some(fieldty)) => Some(
                                (ctx1, Term::RecordProj(Box::new(te), *l), fieldty),
                            ),
                            Some(None) => Some(
                                (
                                    ctx_diag_sev(
                                        ctx1,
                                        Severity::Error,
                                        MessageCode::UnboundName,
                                        Some(*l),
                                    ),
                                    Term::Prim(Prim::ReportedError),
                                    Value::Error,
                                ),
                            ),
                            None => None,
                        },
                        None => None,
                    },
                    Value::Error => Some((ctx1, Term::Prim(Prim::ReportedError), Value::Error)),
                    _ => Some(
                        (
                            ctx_diag_sev(ctx1, Severity::Error, MessageCode::UnexpectedElim, None),
                            Term::Prim(Prim::ReportedError),
                            Value::Error,
                        ),
                    ),
                },
                None => None,
            },
            None => None,
        },
        Surface::RecordType(fields) => {
            let saved = clone_ctx(&ctx);
            match elab_record_type(ctx, fields, List::Nil, f) {
                Some((ctx1, ls, ts)) => Some(
                    (ctx_restore(saved, ctx1), Term::RecordType(ls, ts), Value::Universe),
                ),
                None => None,
            }
        },
        Surface::RecordLit(fields) => match infer_record_lit(ctx, fields, List::Nil, f) {
            Some((ctx1, ls, ts, tys)) => {
                let ls2 = crate::semantics::clone_copy_list(&ls);
                let envc = crate::semantics::clone_values(&ctx1.env);
                Some(
                    (
                        ctx1,
                        Term::RecordLit(ls, ts),
                        Value::RecordType(
                            ls2,
                            Telescope { env: Box::new(envc), terms: Box::new(tys) },
                        ),
                    ),
                )
            },
            None => None,
        },
        _ => match ctx_fresh_meta(ctx) {
            Some((ctx1, m)) => {
                let ty_term = Term::FlexibleInsertion(m, crate::semantics::clone_copy_list(&ctx1.infos));
                match crate::semantics::eval(&ctx1.metas, &ctx1.env, &ty_term, f) {
                    Some(vty) => match check(ctx1, e, vty, f) {
                        Some((ctx2, t)) => match crate::semantics::eval(&ctx2.metas, &ctx2.env, &ty_term, f) {
                            Some(vty2) => Some((ctx2, t, vty2)),
                            None => None,
                        },
                        None => None,
                    },
                    None => None,
                }
            },
            None => None,
        },
    }
}

/// Check a surface term against an expected type (see `check_spec`).
pub fn check(ctx: Context, e: &Surface, expected: Value, fuel: u64) -> (r: Option<(Context, Term)>)
    ensures
        r == check_spec(ctx, *e, expected, fuel as nat),
    decreases fuel, 1int,
{
    if fuel == 0 {
        return None;
    }
    match e {
        Surface::FunLit(x, body) => check_funlit_arm(ctx, e, *x, body, expected, fuel),
        Surface::NumberLit(v, style) => check_numlit_arm(ctx, e, *v, *style, expected, fuel),
        Surface::ArrayLit(es) => check_array_arm(ctx, e, es, expected, fuel),
        Surface::RecordLit(fields) => check_reclit_arm(ctx, e, fields, expected, fuel),
        Surface::Match(scrut, branches, default) => check_match_arm(
            ctx,
            e,
            scrut,
            branches,
            default,
            expected,
            fuel,
        ),
        Surface::Hole(name) => {
            let stored = match name {
                Some(x) => lookup_hole(&ctx.holes, *x),
                None => None,
            };
            match stored {
                Some(t) => Some((ctx, t)),
                None => match ctx_fresh_meta(ctx) {
                    Some((ctx1, m)) => {
                        let t = Term::FlexibleInsertion(m, crate::semantics::clone_copy_list(&ctx1.infos));
                        let ctx2 = match name {
                            Some(x) => Context {
                                holes: List::Cons(Box::new((*x, t)), Box::new(ctx1.holes)),
                                ..ctx1
                            },
                            None => ctx1,
                        };
                        let t2 = Term::FlexibleInsertion(m, crate::semantics::clone_copy_list(&ctx2.infos));
                        Some((ctx2, t2))
                    },
                    None => None,
                },
            }
        },
        _ => {
            let f = fuel - 1;
            match infer(ctx, e, f) {
                Some((ctx1, t, ity)) => finish_check(ctx1, t, ity, expected, f),
                None => None,
            }
        },
    }
}

/// The function-literal case of `check`: against a function type the
/// parameter is bound at the expected domain.
fn check_funlit_arm(ctx: Context, e: &Surface, x: StringId, body: &Surface, expected: Value, fuel: u64)
    -> (r: Option<(Context, Term)>)
    requires
        fuel >= 1,
        *e matches Surface::FunLit(x0, b0) && x0 == x && *b0 == *body,
    ensures
        r == check_spec(ctx, *e, expected, fuel as nat),
    decreases fuel, 0int,
{
    let f = fuel - 1;
    match crate::semantics::force(&ctx.metas, expected, f) {
        Some(fexp) => match fexp {
            Value::FunType(_, vdom, cod) => {
                let fv1 = crate::semantics::fresh(ctx.size);
                let fv2 = crate::semantics::fresh(ctx.size);
                let vcod = crate::semantics::apply_closure(&ctx.metas, &cod, fv2, f);
                let saved = clone_ctx(&ctx);
                match ctx_bind(ctx, Some(x), EntryInfo::Parameter, *vdom, fv1) {
                    Some(ctx1) => match vcod {
                        Some(vcod) => match check(ctx1, body, vcod, f) {
                            Some((ctx2, tb)) => Some(
                                (ctx_restore(saved, ctx2), Term::FunLit(Some(x), Box::new(tb))),
                            ),
                            None => None,
                        },
                        None => None,
                    },
                    None => None,
                }
            },
            Value::Error => Some((ctx, Term::Prim(Prim::ReportedError))),
            other => check_via_infer(ctx, e, other, f),
        },
        None => None,
    }
}

/// The number-literal case of `check`: the literal is checked against
/// the expected numeric type and its range.
fn check_numlit_arm(ctx: Context, e: &Surface, v: u64, style: UIntStyle, expected: Value, fuel: u64)
    -> (r: Option<(Context, Term)>)
    requires
        fuel >= 1,
        *e matches Surface::NumberLit(v0, s0) && v0 == v && s0 == style,
    ensures
        r == check_spec(ctx, *e, expected, fuel as nat),
{
    let f = fuel - 1;
    match crate::semantics::force(&ctx.metas, expected, f) {
        Some(fexp) => match number_fit(&fexp, v, style) {
            NumberFit::Fit(c) => Some((ctx, Term::ConstLit(c))),
            NumberFit::OutOfRange(c) => Some(
                (
                    ctx_diag_sev(ctx, Severity::Error, MessageCode::IntegerOutOfBounds, None),
                    Term::ConstLit(c),
                ),
            ),
            NumberFit::NotNumeric => match fexp {
                Value::Error => Some((ctx, Term::Prim(Prim::ReportedError))),
                Value::Stuck(Head::FlexibleVar(_), _) => Some(
                    (
                        ctx_diag_sev(ctx, Severity::Error, MessageCode::UnconstrainedInt, None),
                        Term::Prim(Prim::ReportedError),
                    ),
                ),
                _ => Some(
                    (
                        ctx_diag_sev(ctx, Severity::Error, MessageCode::TypeMismatch, None),
                        Term::Prim(Prim::ReportedError),
                    ),
                ),
            },
        },
        None => None,
    }
}

/// The array-literal case of `check`: every element is checked against
/// the element type, and a fixed-width array's length must agree.
#[verifier::rlimit(50)]
fn check_array_arm(ctx: Context, e: &Surface, es: &List<Surface>, expected: Value, fuel: u64)
    -> (r: Option<(Context, Term)>)
    requires
        fuel >= 1,
        *e matches Surface::ArrayLit(es0) && es0 == *es,
    ensures
        r == check_spec(ctx, *e, expected, fuel as nat),
    decreases fuel, 0int,
{
    let f = fuel - 1;
    match crate::semantics::force(&ctx.metas, expected, f) {
        Some(fexp) => match array_elem_type(&fexp) {
            Some((count, elem_ty)) => {
                let len_ok = match count {
                    Some(k) => match es.len() {
                        Some(n) => n as u64 == k,
                        None => false,
                    },
                    None => true,
                };
                match check_array(ctx, es, &elem_ty, f) {
                    Some((ctx1, ts)) => if len_ok {
                        Some((ctx1, Term::ArrayLit(ts)))
                    } else {
                        Some(
                            (
                                ctx_diag_sev(ctx1, Severity::Error, MessageCode::TypeMismatch, None),
                                Term::ArrayLit(ts),
                            ),
                        )
                    },
                    None => None,
                }
            },
            None => match fexp {
                Value::Error => Some((ctx, Term::Prim(Prim::ReportedError))),
                Value::Stuck(Head::FlexibleVar(_), _) => Some(
                    (
                        ctx_diag_sev(ctx, Severity::Error, MessageCode::AmbiguousLiteral, None),
                        Term::Prim(Prim::ReportedError),
                    ),
                ),
                _ => Some(
                    (
                        ctx_diag_sev(ctx, Severity::Error, MessageCode::TypeMismatch, None),
                        Term::Prim(Prim::ReportedError),
                    ),
                ),
            },
        },
        None => None,
    }
}

/// The record-literal case of `check`: against a record type the fields
/// are checked against the telescope.
fn check_reclit_arm(
    ctx: Context,
    e: &Surface,
    fields: &List<(StringId, Surface)>,
    expected: Value,
    fuel: u64,
) -> (r: Option<(Context, Term)>)
    requires
        fuel >= 1,
        *e matches Surface::RecordLit(fs0) && fs0 == *fields,
    ensures
        r == check_spec(ctx, *e, expected, fuel as nat),
    decreases fuel, 0int,
{
    let f = fuel - 1;
    match crate::semantics::force(&ctx.metas, expected, f) {
        Some(fexp) => match fexp {
            Value::RecordType(ls, tele) => {
                let ls2 = crate::semantics::clone_copy_list(&ls);
                match check_fields(ctx, fields, &ls, tele, f) {
                    Some((ctx1, ts)) => Some((ctx1, Term::RecordLit(ls2, ts))),
                    None => None,
                }
            },
            Value::Error => Some((ctx, Term::Prim(Prim::ReportedError))),
            other => check_via_infer(ctx, e, other, f),
        },
        None => None,
    }
}

/// The match case of `check`: the scrutinee is inferred, the patterns
/// are converted at its type, and every body is checked against the
/// expected type.
fn check_match_arm(
    ctx: Context,
    e: &Surface,
    scrut: &Surface,
    branches: &List<(u64, Surface)>,
    default: &Option<Box<Surface>>,
    expected: Value,
    fuel: u64,
) -> (r: Option<(Context, Term)>)
    requires
        fuel >= 1,
        *e matches Surface::Match(s0, bs0, d0) && *s0 == *scrut && bs0 == *branches && d0
            == *default,
    ensures
        r == check_spec(ctx, *e, expected, fuel as nat),
    decreases fuel, 0int,
{
    let f = fuel - 1;
    match infer(ctx, scrut, f) {
        Some((ctx1, ts, sty)) => match crate::semantics::force(&ctx1.metas, sty, f) {
            Some(fsty) => match fsty {
                Value::Error => Some((ctx1, Term::Prim(Prim::ReportedError))),
                fsty => {
                    let expected2 = crate::semantics::clone_value(&expected);
                    match elab_branches(ctx1, branches, &fsty, &expected2, List::Nil, f) {
                        Some((ctx2, bs)) => match default {
                            Some(d) => match check(ctx2, d, expected, f) {
                                Some((ctx3, td)) => Some(
                                    (ctx3, Term::ConstMatch(Box::new(ts), bs, Some(Box::new(td)))),
                                ),
                                None => None,
                            },
                            None => Some((ctx2, Term::ConstMatch(Box::new(ts), bs, None))),
                        },
                        None => None,
                    }
                },
            },
            None => None,
        },
        None => None,
    }
}


/// Check by inference (see `check_via_infer_spec`).
pub fn check_via_infer(ctx: Context, e: &Surface, expected: Value, fuel: u64)
    -> (r: Option<(Context, Term)>)
    ensures
        r == check_via_infer_spec(ctx, *e, expected, fuel as nat),
    decreases fuel, 1int,
{
    if fuel == 0 {
        return None;
    }
    let f = fuel - 1;
    match infer(ctx, e, f) {
        Some((ctx1, t, ity)) => finish_check(ctx1, t, ity, expected, f),
        None => None,
    }
}

/// Unify an inferred type with the expected one (see
/// `finish_check_spec`).
pub fn finish_check(ctx: Context, t: Term, ity: Value, expected: Value, fuel: u64)
    -> (r: Option<(Context, Term)>)
    ensures
        r == finish_check_spec(ctx, t, ity, expected, fuel as nat),
    decreases fuel,
{
    if fuel == 0 {
        return None;
    }
    let f = fuel - 1;
    match crate::unify::unify(&ctx.metas, ctx.size, ity, expected, f) {
        Some((ms2, Ok(()))) => Some((Context { metas: ms2, ..ctx }, t)),
        Some((ms2, Err(_))) => Some(
            (
                ctx_diag_sev(
                    Context { metas: ms2, ..ctx },
                    Severity::Error,
                    MessageCode::TypeMismatch,
                    None,
                ),
                Term::Prim(Prim::ReportedError),
            ),
        ),
        None => None,
    }
}

/// Check each array element against the element type.
pub fn check_array(ctx: Context, es: &List<Surface>, elem_ty: &Value, fuel: u64)
    -> (r: Option<(Context, List<Term>)>)
    ensures
        r == check_array_spec(ctx, *es, *elem_ty, fuel as nat),
    decreases fuel, 1int,
{
    if fuel == 0 {
        return None;
    }
    let f = fuel - 1;
    match es {
        List::Nil => Some((ctx, List::Nil)),
        List::Cons(e, rest) => match check(ctx, e, crate::semantics::clone_value(elem_ty), f) {
            Some((ctx1, t)) => match check_array(ctx1, rest, elem_ty, f) {
                Some((ctx2, ts)) => Some((ctx2, List::Cons(Box::new(t), Box::new(ts)))),
                None => None,
            },
            None => None,
        },
    }
}

/// Check the fields of a record literal against a record type's
/// telescope (see `check_fields_spec`).
pub fn check_fields(
    ctx: Context,
    fields: &List<(StringId, Surface)>,
    ls: &List<StringId>,
    tele: Telescope,
    fuel: u64,
) -> (r: Option<(Context, List<Term>)>)
    ensures
        r == check_fields_spec(ctx, *fields, *ls, tele, fuel as nat),
    decreases fuel, 1int,
{
    if fuel == 0 {
        return None;
    }
    let f = fuel - 1;
    match (fields, ls, *tele.terms) {
        (List::Nil, List::Nil, List::Nil) => Some((ctx, List::Nil)),
        (List::Cons(fe, frest), List::Cons(l, lrest), List::Cons(t0, trest)) => if (**fe).0 == **l {
            match crate::semantics::eval(&ctx.metas, &tele.env, &t0, f) {
                Some(fty) => match check(ctx, &(**fe).1, fty, f) {
                    Some((ctx1, te)) => match crate::semantics::eval(&ctx1.metas, &ctx1.env, &te, f) {
                        Some(ve) => match check_fields(
                            ctx1,
                            frest,
                            lrest,
                            Telescope {
                                env: Box::new(List::Cons(Box::new(ve), tele.env)),
                                terms: trest,
                            },
                            f,
                        ) {
                            Some((ctx2, ts)) => Some((ctx2, List::Cons(Box::new(te), Box::new(ts)))),
                            None => None,
                        },
                        None => None,
                    },
                    None => None,
                },
                None => None,
            }
        } else {
            let terms = reported_terms(fields);
            Some(
                (
                    ctx_diag_sev(ctx, Severity::Error, MessageCode::TypeMismatch, Some((**fe).0)),
                    terms,
                ),
            )
        },
        (_, _, _) => {
            let terms = reported_terms(fields);
            Some((ctx_diag_sev(ctx, Severity::Error, MessageCode::TypeMismatch, None), terms))
        },
    }
}

/// Elaborate the fields of a record type (see `elab_record_type_spec`).
pub fn elab_record_type(
    ctx: Context,
    fields: &List<(StringId, Surface)>,
    seen: List<StringId>,
    fuel: u64,
) -> (r: Option<(Context, List<StringId>, List<Term>)>)
    ensures
        r == elab_record_type_spec(ctx, *fields, seen, fuel as nat),
    decreases fuel, 1int,
{
    if fuel == 0 {
        return None;
    }
    let f = fuel - 1;
    match fields {
        List::Nil => Some((ctx, List::Nil, List::Nil)),
        List::Cons(fe, frest) => {
            let l = (**fe).0;
            let ctx0 = if contains_label(&seen, l) {
                ctx_diag_sev(ctx, Severity::Error, MessageCode::DuplicateLabel, Some(l))
            } else {
                ctx
            };
            match check(ctx0, &(**fe).1, Value::Universe, f) {
                Some((ctx1, tt)) => match crate::semantics::eval(&ctx1.metas, &ctx1.env, &tt, f) {
                    Some(vt) => {
                        let fv = crate::semantics::fresh(ctx1.size);
                        match ctx_bind(ctx1, Some(l), EntryInfo::Parameter, vt, fv) {
                            Some(ctx2) => match elab_record_type(
                                ctx2,
                                frest,
                                List::Cons(Box::new(l), Box::new(seen)),
                                f,
                            ) {
                                Some((ctx3, ls, ts)) => Some(
                                    (
                                        ctx3,
                                        List::Cons(Box::new(l), Box::new(ls)),
                                        List::Cons(Box::new(tt), Box::new(ts)),
                                    ),
                                ),
                                None => None,
                            },
                            None => None,
                        }
                    },
                    None => None,
                },
                None => None,
            }
        },
    }
}

/// Infer the fields of a record literal (see `infer_record_lit_spec`).
pub fn infer_record_lit(
    ctx: Context,
    fields: &List<(StringId, Surface)>,
    seen: List<StringId>,
    fuel: u64,
) -> (r: Option<(Context, List<StringId>, List<Term>, List<Term>)>)
    ensures
        r == infer_record_lit_spec(ctx, *fields, seen, fuel as nat),
    decreases fuel, 1int,
{
    if fuel == 0 {
        return None;
    }
    let f = fuel - 1;
    match fields {
        List::Nil => Some((ctx, List::Nil, List::Nil, List::Nil)),
        List::Cons(fe, frest) => {
            let l = (**fe).0;
            let ctx0 = if contains_label(&seen, l) {
                ctx_diag_sev(ctx, Severity::Error, MessageCode::DuplicateLabel, Some(l))
            } else {
                ctx
            };
            match infer(ctx0, &(**fe).1, f) {
                Some((ctx1, te, ty)) => match seen.len() {
                    Some(sl) => if ctx1.size <= usize::MAX - sl {
                        match crate::semantics::quote(&ctx1.metas, ctx1.size + sl, ty, f) {
                            Some(tyt) => match infer_record_lit(
                                ctx1,
                                frest,
                                List::Cons(Box::new(l), Box::new(seen)),
                                f,
                            ) {
                                Some((ctx2, ls, ts, tys)) => Some(
                                    (
                                        ctx2,
                                        List::Cons(Box::new(l), Box::new(ls)),
                                        List::Cons(Box::new(te), Box::new(ts)),
                                        List::Cons(Box::new(tyt), Box::new(tys)),
                                    ),
                                ),
                                None => None,
                            },
                            None => None,
                        }
                    } else {
                        None
                    },
                    None => None,
                },
                None => None,
            }
        },
    }
}

/// Elaborate the branches of a match (see `elab_branches_spec`).
pub fn elab_branches(
    ctx: Context,
    branches: &List<(u64, Surface)>,
    fsty: &Value,
    expected: &Value,
    seen: List<Const>,
    fuel: u64,
) -> (r: Option<(Context, List<(Const, Term)>)>)
    ensures
        r == elab_branches_spec(ctx, *branches, *fsty, *expected, seen, fuel as nat),
    decreases fuel, 1int,
{
    if fuel == 0 {
        return None;
    }
    let f = fuel - 1;
    match branches {
        List::Nil => Some((ctx, List::Nil)),
        List::Cons(b, brest) => {
            let v = (**b).0;
            match number_fit(fsty, v, UIntStyle::Decimal) {
                NumberFit::NotNumeric => {
                    let ctx0 = ctx_diag_sev(ctx, Severity::Error, MessageCode::ExpectedInteger, None);
                    match check(ctx0, &(**b).1, crate::semantics::clone_value(expected), f) {
                        Some((ctx1, _tb)) => elab_branches(ctx1, brest, fsty, expected, seen, f),
                        None => None,
                    }
                },
                NumberFit::OutOfRange(c) => {
                    let ctx0 = ctx_diag_sev(ctx, Severity::Error, MessageCode::IntegerOutOfBounds, None);
                    elab_branch_body(ctx0, c, &(**b).1, brest, fsty, expected, seen, f)
                },
                NumberFit::Fit(c) => {
                    let ctx0 = if contains_const(&seen, c) {
                        ctx_diag_sev(ctx, Severity::Error, MessageCode::DuplicatePattern, None)
                    } else {
                        ctx
                    };
                    elab_branch_body(ctx0, c, &(**b).1, brest, fsty, expected, seen, f)
                },
            }
        },
    }
}

/// Check one branch body and continue with the rest.
pub fn elab_branch_body(
    ctx: Context,
    c: Const,
    body: &Surface,
    rest: &List<(u64, Surface)>,
    fsty: &Value,
    expected: &Value,
    seen: List<Const>,
    fuel: u64,
) -> (r: Option<(Context, List<(Const, Term)>)>)
    ensures
        r == elab_branch_body_spec(ctx, c, *body, *rest, *fsty, *expected, seen, fuel as nat),
    decreases fuel, 1int,
{
    if fuel == 0 {
        return None;
    }
    let f = fuel - 1;
    match check(ctx, body, crate::semantics::clone_value(expected), f) {
        Some((ctx1, tb)) => match elab_branches(
            ctx1,
            rest,
            fsty,
            expected,
            List::Cons(Box::new(c), Box::new(seen)),
            f,
        ) {
            Some((ctx2, bs)) => Some((ctx2, List::Cons(Box::new((c, tb)), Box::new(bs)))),
            None => None,
        },
        None => None,
    }
}

} // verus!

verus! {

/// Elaborate one item (see `elab_item_spec`).
pub fn elab_item(ctx: Context, item: &Item, fuel: u64)
    -> (r: Option<(Context, Option<(StringId, Term)>)>)
    ensures
        r == elab_item_spec(ctx, *item, fuel as nat),
    decreases fuel,
{
    if fuel == 0 {
        return None;
    }
    let f = fuel - 1;
    let name = match item {
        Item::Alias(a) => a.name,
        Item::Struct(s) => s.name,
    };
    if lookup_local(&ctx.names, name).is_some() {
        Some((ctx_diag_sev(ctx, Severity::Bug, MessageCode::ItemNameReused, Some(name)), None))
    } else {
        match item {
            Item::Alias(a) => match infer(ctx, &a.term, f) {
                Some((ctx1, t, ty)) => match crate::semantics::eval(&ctx1.metas, &ctx1.env, &t, f) {
                    Some(v) => match ctx_bind(ctx1, Some(name), EntryInfo::Definition, ty, v) {
                        Some(ctx2) => Some((ctx2, Some((name, t)))),
                        None => None,
                    },
                    None => None,
                },
                None => None,
            },
            Item::Struct(s) => {
                let saved = clone_ctx(&ctx);
                match elab_struct_fields(ctx, &s.fields, List::Nil, f) {
                    Some((ctx1, ls, ts)) => {
                        let ctx2 = ctx_restore(saved, ctx1);
                        let t = Term::FormatRecord(ls, ts);
                        match crate::semantics::eval(&ctx2.metas, &ctx2.env, &t, f) {
                            Some(v) => match ctx_bind(
                                ctx2,
                                Some(name),
                                EntryInfo::Definition,
                                Value::Stuck(Head::Prim(Prim::FormatType), List::Nil),
                                v,
                            ) {
                                Some(ctx3) => Some((ctx3, Some((name, t)))),
                                None => None,
                            },
                            None => None,
                        }
                    },
                    None => None,
                }
            },
        }
    }
}

/// Elaborate the fields of a struct item (see `elab_struct_fields_spec`).
pub fn elab_struct_fields(ctx: Context, fields: &List<TypeField>, seen: List<StringId>, fuel: u64)
    -> (r: Option<(Context, List<StringId>, List<Term>)>)
    ensures
        r == elab_struct_fields_spec(ctx, *fields, seen, fuel as nat),
    decreases fuel,
{
    if fuel == 0 {
        return None;
    }
    let f = fuel - 1;
    match fields {
        List::Nil => Some((ctx, List::Nil, List::Nil)),
        List::Cons(fe, frest) => {
            let l = (**fe).name;
            let ctx0 = if contains_label(&seen, l) {
                ctx_diag_sev(ctx, Severity::Error, MessageCode::DuplicateLabel, Some(l))
            } else {
                ctx
            };
            match check(
                ctx0,
                &(**fe).term,
                Value::Stuck(Head::Prim(Prim::FormatType), List::Nil),
                f,
            ) {
                Some((ctx1, tf)) => match crate::semantics::eval(&ctx1.metas, &ctx1.env, &tf, f) {
                    Some(vf) => match crate::semantics::repr(&ctx1.metas, vf, f) {
                        Some(vrepr) => {
                            let fv = crate::semantics::fresh(ctx1.size);
                            match ctx_bind(ctx1, Some(l), EntryInfo::Parameter, vrepr, fv) {
                                Some(ctx2) => match elab_struct_fields(
                                    ctx2,
                                    frest,
                                    List::Cons(Box::new(l), Box::new(seen)),
                                    f,
                                ) {
                                    Some((ctx3, ls, ts)) => Some(
                                        (
                                            ctx3,
                                            List::Cons(Box::new(l), Box::new(ls)),
                                            List::Cons(Box::new(tf), Box::new(ts)),
                                        ),
                                    ),
                                    None => None,
                                },
                                None => None,
                            }
                        },
                        None => None,
                    },
                    None => None,
                },
                None => None,
            }
        },
    }
}

/// Elaborate a module's items in order (see `elab_items_spec`).
pub fn elab_items(ctx: Context, items: &List<Item>, fuel: u64)
    -> (r: Option<(Context, List<(StringId, Term)>)>)
    ensures
        r == elab_items_spec(ctx, *items, fuel as nat),
    decreases fuel,
{
    if fuel == 0 {
        return None;
    }
    let f = fuel - 1;
    match items {
        List::Nil => Some((ctx, List::Nil)),
        List::Cons(item, rest) => match elab_item(ctx, item, f) {
            Some((ctx1, out)) => match elab_items(ctx1, rest, f) {
                Some((ctx2, outs)) => Some(
                    (
                        ctx2,
                        match out {
                            Some(o) => List::Cons(Box::new(o), Box::new(outs)),
                            None => outs,
                        },
                    ),
                ),
                None => None,
            },
            None => None,
        },
    }
}

/// Elaborate a whole module (see `elab_module_spec`).
pub fn elab_module(ctx: Context, m: &Module, fuel: u64)
    -> (r: Option<(Context, List<(StringId, Term)>)>)
    ensures
        r == elab_module_spec(ctx, *m, fuel as nat),
    decreases fuel,
{
    if fuel == 0 {
        return None;
    }
    match elab_items(ctx, &m.items, fuel - 1) {
        Some((ctx1, outs)) => if any_unsolved(&ctx1.metas) {
            Some((ctx_diag_sev(ctx1, Severity::Error, MessageCode::AmbiguousMeta, None), outs))
        } else {
            Some((ctx1, outs))
        },
        None => None,
    }
}

} // verus!
