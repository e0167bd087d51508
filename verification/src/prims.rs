//! Reduction of the total functional primitives: boolean and integer
//! operations, and position arithmetic.
//!
//! `prim_arith` reduces a saturated application of such a primitive to
//! fully constant arguments. A result of `None` means no reduction
//! applies (wrong primitive, unsaturated or non-constant application,
//! division by zero, or arithmetic overflow): the application stays
//! stuck. Overflowing and zero-divisor applications never reduce.

use vstd::prelude::*;

use crate::semantics::Value;
use crate::syntax::Const;
use crate::syntax::List;
use crate::syntax::Prim;
use crate::syntax::UIntStyle;

verus! {

/// The `i`th argument of a spine argument list, when it is a constant.
pub open spec fn carg_spec(args: List<Value>, i: nat) -> Option<Const> {
    match args.sget(i) {
        Some(Value::ConstLit(c)) => Some(c),
        _ => None,
    }
}

/// Executable form of `carg_spec`.
pub fn carg(args: &List<Value>, i: usize) -> (r: Option<Const>)
    ensures
        r == carg_spec(*args, i as nat),
{
    match args.get(i) {
        Some(v) => match v {
            Value::ConstLit(c) => Some(*c),
            _ => None,
        },
        None => None,
    }
}

/// Whether the argument list has exactly `n` entries.
pub fn arity(args: &List<Value>, n: usize) -> (r: bool)
    ensures
        r == (args.slen() == n as nat),
{
    match args.len() {
        Some(m) => m == n,
        None => false,
    }
}

/// What reducing a `bool` primitive application yields.
pub open spec fn bool_ops_spec(p: Prim, args: List<Value>) -> Option<Value> {
    match p {
        Prim::BoolEq => match (carg_spec(args, 0), carg_spec(args, 1)) {
            (Some(Const::Bool(a)), Some(Const::Bool(b))) => if args.slen() == 2 {
                Some(Value::ConstLit(Const::Bool(a == b)))
            } else {
                None
            },
            _ => None,
        },
        Prim::BoolNeq => match (carg_spec(args, 0), carg_spec(args, 1)) {
            (Some(Const::Bool(a)), Some(Const::Bool(b))) => if args.slen() == 2 {
                Some(Value::ConstLit(Const::Bool(a != b)))
            } else {
                None
            },
            _ => None,
        },
        Prim::BoolAnd => match (carg_spec(args, 0), carg_spec(args, 1)) {
            (Some(Const::Bool(a)), Some(Const::Bool(b))) => if args.slen() == 2 {
                Some(Value::ConstLit(Const::Bool(a && b)))
            } else {
                None
            },
            _ => None,
        },
        Prim::BoolOr => match (carg_spec(args, 0), carg_spec(args, 1)) {
            (Some(Const::Bool(a)), Some(Const::Bool(b))) => if args.slen() == 2 {
                Some(Value::ConstLit(Const::Bool(a || b)))
            } else {
                None
            },
            _ => None,
        },
        Prim::BoolXor => match (carg_spec(args, 0), carg_spec(args, 1)) {
            (Some(Const::Bool(a)), Some(Const::Bool(b))) => if args.slen() == 2 {
                Some(Value::ConstLit(Const::Bool(a != b)))
            } else {
                None
            },
            _ => None,
        },
        Prim::BoolNot => match carg_spec(args, 0) {
            Some(Const::Bool(a)) => if args.slen() == 1 {
                Some(Value::ConstLit(Const::Bool(!a)))
            } else {
                None
            },
            _ => None,
        },
        _ => None,
    }
}

/// Executable form of `bool_ops_spec`.
pub fn bool_ops(p: Prim, args: &List<Value>) -> (r: Option<Value>)
    ensures
        r == bool_ops_spec(p, *args),
{
    match p {
        Prim::BoolEq => match (carg(args, 0), carg(args, 1)) {
            (Some(Const::Bool(a)), Some(Const::Bool(b))) => if arity(args, 2) {
                Some(Value::ConstLit(Const::Bool(a == b)))
            } else {
                None
            },
            _ => None,
        },
        Prim::BoolNeq => match (carg(args, 0), carg(args, 1)) {
            (Some(Const::Bool(a)), Some(Const::Bool(b))) => if arity(args, 2) {
                Some(Value::ConstLit(Const::Bool(a != b)))
            } else {
                None
            },
            _ => None,
        },
        Prim::BoolAnd => match (carg(args, 0), carg(args, 1)) {
            (Some(Const::Bool(a)), Some(Const::Bool(b))) => if arity(args, 2) {
                Some(Value::ConstLit(Const::Bool(a && b)))
            } else {
                None
            },
            _ => None,
        },
        Prim::BoolOr => match (carg(args, 0), carg(args, 1)) {
            (Some(Const::Bool(a)), Some(Const::Bool(b))) => if arity(args, 2) {
                Some(Value::ConstLit(Const::Bool(a || b)))
            } else {
                None
            },
            _ => None,
        },
        Prim::BoolXor => match (carg(args, 0), carg(args, 1)) {
            (Some(Const::Bool(a)), Some(Const::Bool(b))) => if arity(args, 2) {
                Some(Value::ConstLit(Const::Bool(a != b)))
            } else {
                None
            },
            _ => None,
        },
        Prim::BoolNot => match carg(args, 0) {
            Some(Const::Bool(a)) => if arity(args, 1) {
                Some(Value::ConstLit(Const::Bool(!a)))
            } else {
                None
            },
            _ => None,
        },
        _ => None,
    }
}

/// What reducing a `u8` primitive application yields.
pub open spec fn u8_ops_spec(p: Prim, args: List<Value>) -> Option<Value> {
    match p {
        Prim::U8Eq => match (carg_spec(args, 0), carg_spec(args, 1)) {
            (Some(Const::U8(a, _)), Some(Const::U8(b, _))) => if args.slen() == 2 {
                Some(Value::ConstLit(Const::Bool(a == b)))
            } else {
                None
            },
            _ => None,
        },
        Prim::U8Neq => match (carg_spec(args, 0), carg_spec(args, 1)) {
            (Some(Const::U8(a, _)), Some(Const::U8(b, _))) => if args.slen() == 2 {
                Some(Value::ConstLit(Const::Bool(a != b)))
            } else {
                None
            },
            _ => None,
        },
        Prim::U8Gt => match (carg_spec(args, 0), carg_spec(args, 1)) {
            (Some(Const::U8(a, _)), Some(Const::U8(b, _))) => if args.slen() == 2 {
                Some(Value::ConstLit(Const::Bool(a > b)))
            } else {
                None
            },
            _ => None,
        },
        Prim::U8Lt => match (carg_spec(args, 0), carg_spec(args, 1)) {
            (Some(Const::U8(a, _)), Some(Const::U8(b, _))) => if args.slen() == 2 {
                Some(Value::ConstLit(Const::Bool(a < b)))
            } else {
                None
            },
            _ => None,
        },
        Prim::U8Gte => match (carg_spec(args, 0), carg_spec(args, 1)) {
            (Some(Const::U8(a, _)), Some(Const::U8(b, _))) => if args.slen() == 2 {
                Some(Value::ConstLit(Const::Bool(a >= b)))
            } else {
                None
            },
            _ => None,
        },
        Prim::U8Lte => match (carg_spec(args, 0), carg_spec(args, 1)) {
            (Some(Const::U8(a, _)), Some(Const::U8(b, _))) => if args.slen() == 2 {
                Some(Value::ConstLit(Const::Bool(a <= b)))
            } else {
                None
            },
            _ => None,
        },
        Prim::U8Add => match (carg_spec(args, 0), carg_spec(args, 1)) {
            (Some(Const::U8(a, sa)), Some(Const::U8(b, sb))) => if args.slen() == 2 {
                match a.checked_add(b) {
                    Some(v) => Some(Value::ConstLit(Const::U8(v, UIntStyle::merge_spec(sa, sb)))),
                    None => None,
                }
            } else {
                None
            },
            _ => None,
        },
        Prim::U8Sub => match (carg_spec(args, 0), carg_spec(args, 1)) {
            (Some(Const::U8(a, sa)), Some(Const::U8(b, sb))) => if args.slen() == 2 {
                match a.checked_sub(b) {
                    Some(v) => Some(Value::ConstLit(Const::U8(v, UIntStyle::merge_spec(sa, sb)))),
                    None => None,
                }
            } else {
                None
            },
            _ => None,
        },
        Prim::U8Mul => match (carg_spec(args, 0), carg_spec(args, 1)) {
            (Some(Const::U8(a, sa)), Some(Const::U8(b, sb))) => if args.slen() == 2 {
                match a.checked_mul(b) {
                    Some(v) => Some(Value::ConstLit(Const::U8(v, UIntStyle::merge_spec(sa, sb)))),
                    None => None,
                }
            } else {
                None
            },
            _ => None,
        },
        Prim::U8Div => match (carg_spec(args, 0), carg_spec(args, 1)) {
            (Some(Const::U8(a, sa)), Some(Const::U8(b, sb))) => if args.slen() == 2 {
                match a.checked_div(b) {
                    Some(v) => Some(Value::ConstLit(Const::U8(v, UIntStyle::merge_spec(sa, sb)))),
                    None => None,
                }
            } else {
                None
            },
            _ => None,
        },
        Prim::U8Not => match carg_spec(args, 0) {
            Some(Const::U8(a, sa)) => if args.slen() == 1 {
                Some(Value::ConstLit(Const::U8(!a, sa)))
            } else {
                None
            },
            _ => None,
        },
        Prim::U8Shl => match (carg_spec(args, 0), carg_spec(args, 1)) {
            (Some(Const::U8(a, sa)), Some(Const::U8(b, _))) => if args.slen() == 2 && b < 8 {
                Some(Value::ConstLit(Const::U8(a << b, sa)))
            } else {
                None
            },
            _ => None,
        },
        Prim::U8Shr => match (carg_spec(args, 0), carg_spec(args, 1)) {
            (Some(Const::U8(a, sa)), Some(Const::U8(b, _))) => if args.slen() == 2 && b < 8 {
                Some(Value::ConstLit(Const::U8(a >> b, sa)))
            } else {
                None
            },
            _ => None,
        },
        Prim::U8And => match (carg_spec(args, 0), carg_spec(args, 1)) {
            (Some(Const::U8(a, sa)), Some(Const::U8(b, sb))) => if args.slen() == 2 {
                Some(Value::ConstLit(Const::U8(a & b, UIntStyle::merge_spec(sa, sb))))
            } else {
                None
            },
            _ => None,
        },
        Prim::U8Or => match (carg_spec(args, 0), carg_spec(args, 1)) {
            (Some(Const::U8(a, sa)), Some(Const::U8(b, sb))) => if args.slen() == 2 {
                Some(Value::ConstLit(Const::U8(a | b, UIntStyle::merge_spec(sa, sb))))
            } else {
                None
            },
            _ => None,
        },
        Prim::U8Xor => match (carg_spec(args, 0), carg_spec(args, 1)) {
            (Some(Const::U8(a, sa)), Some(Const::U8(b, sb))) => if args.slen() == 2 {
                Some(Value::ConstLit(Const::U8(a ^ b, UIntStyle::merge_spec(sa, sb))))
            } else {
                None
            },
            _ => None,
        },
        _ => None,
    }
}

/// Executable form of `u8_ops_spec`.
pub fn u8_ops(p: Prim, args: &List<Value>) -> (r: Option<Value>)
    ensures
        r == u8_ops_spec(p, *args),
{
    match p {
        Prim::U8Eq => match (carg(args, 0), carg(args, 1)) {
            (Some(Const::U8(a, _)), Some(Const::U8(b, _))) => if arity(args, 2) {
                Some(Value::ConstLit(Const::Bool(a == b)))
            } else {
                None
            },
            _ => None,
        },
        Prim::U8Neq => match (carg(args, 0), carg(args, 1)) {
            (Some(Const::U8(a, _)), Some(Const::U8(b, _))) => if arity(args, 2) {
                Some(Value::ConstLit(Const::Bool(a != b)))
            } else {
                None
            },
            _ => None,
        },
        Prim::U8Gt => match (carg(args, 0), carg(args, 1)) {
            (Some(Const::U8(a, _)), Some(Const::U8(b, _))) => if arity(args, 2) {
                Some(Value::ConstLit(Const::Bool(a > b)))
            } else {
                None
            },
            _ => None,
        },
        Prim::U8Lt => match (carg(args, 0), carg(args, 1)) {
            (Some(Const::U8(a, _)), Some(Const::U8(b, _))) => if arity(args, 2) {
                Some(Value::ConstLit(Const::Bool(a < b)))
            } else {
                None
            },
            _ => None,
        },
        Prim::U8Gte => match (carg(args, 0), carg(args, 1)) {
            (Some(Const::U8(a, _)), Some(Const::U8(b, _))) => if arity(args, 2) {
                Some(Value::ConstLit(Const::Bool(a >= b)))
            } else {
                None
            },
            _ => None,
        },
        Prim::U8Lte => match (carg(args, 0), carg(args, 1)) {
            (Some(Const::U8(a, _)), Some(Const::U8(b, _))) => if arity(args, 2) {
                Some(Value::ConstLit(Const::Bool(a <= b)))
            } else {
                None
            },
            _ => None,
        },
        Prim::U8Add => match (carg(args, 0), carg(args, 1)) {
            (Some(Const::U8(a, sa)), Some(Const::U8(b, sb))) => if arity(args, 2) {
                match a.checked_add(b) {
                    Some(v) => Some(Value::ConstLit(Const::U8(v, UIntStyle::merge(sa, sb)))),
                    None => None,
                }
            } else {
                None
            },
            _ => None,
        },
        Prim::U8Sub => match (carg(args, 0), carg(args, 1)) {
            (Some(Const::U8(a, sa)), Some(Const::U8(b, sb))) => if arity(args, 2) {
                match a.checked_sub(b) {
                    Some(v) => Some(Value::ConstLit(Const::U8(v, UIntStyle::merge(sa, sb)))),
                    None => None,
                }
            } else {
                None
            },
            _ => None,
        },
        Prim::U8Mul => match (carg(args, 0), carg(args, 1)) {
            (Some(Const::U8(a, sa)), Some(Const::U8(b, sb))) => if arity(args, 2) {
                match a.checked_mul(b) {
                    Some(v) => Some(Value::ConstLit(Const::U8(v, UIntStyle::merge(sa, sb)))),
                    None => None,
                }
            } else {
                None
            },
            _ => None,
        },
        Prim::U8Div => match (carg(args, 0), carg(args, 1)) {
            (Some(Const::U8(a, sa)), Some(Const::U8(b, sb))) => if arity(args, 2) {
                match a.checked_div(b) {
                    Some(v) => Some(Value::ConstLit(Const::U8(v, UIntStyle::merge(sa, sb)))),
                    None => None,
                }
            } else {
                None
            },
            _ => None,
        },
        Prim::U8Not => match carg(args, 0) {
            Some(Const::U8(a, sa)) => if arity(args, 1) {
                Some(Value::ConstLit(Const::U8(!a, sa)))
            } else {
                None
            },
            _ => None,
        },
        Prim::U8Shl => match (carg(args, 0), carg(args, 1)) {
            (Some(Const::U8(a, sa)), Some(Const::U8(b, _))) => if arity(args, 2) && b < 8 {
                Some(Value::ConstLit(Const::U8(a << b, sa)))
            } else {
                None
            },
            _ => None,
        },
        Prim::U8Shr => match (carg(args, 0), carg(args, 1)) {
            (Some(Const::U8(a, sa)), Some(Const::U8(b, _))) => if arity(args, 2) && b < 8 {
                Some(Value::ConstLit(Const::U8(a >> b, sa)))
            } else {
                None
            },
            _ => None,
        },
        Prim::U8And => match (carg(args, 0), carg(args, 1)) {
            (Some(Const::U8(a, sa)), Some(Const::U8(b, sb))) => if arity(args, 2) {
                Some(Value::ConstLit(Const::U8(a & b, UIntStyle::merge(sa, sb))))
            } else {
                None
            },
            _ => None,
        },
        Prim::U8Or => match (carg(args, 0), carg(args, 1)) {
            (Some(Const::U8(a, sa)), Some(Const::U8(b, sb))) => if arity(args, 2) {
                Some(Value::ConstLit(Const::U8(a | b, UIntStyle::merge(sa, sb))))
            } else {
                None
            },
            _ => None,
        },
        Prim::U8Xor => match (carg(args, 0), carg(args, 1)) {
            (Some(Const::U8(a, sa)), Some(Const::U8(b, sb))) => if arity(args, 2) {
                Some(Value::ConstLit(Const::U8(a ^ b, UIntStyle::merge(sa, sb))))
            } else {
                None
            },
            _ => None,
        },
        _ => None,
    }
}

/// What reducing a `u16` primitive application yields.
pub open spec fn u16_ops_spec(p: Prim, args: List<Value>) -> Option<Value> {
    match p {
        Prim::U16Eq => match (carg_spec(args, 0), carg_spec(args, 1)) {
            (Some(Const::U16(a, _)), Some(Const::U16(b, _))) => if args.slen() == 2 {
                Some(Value::ConstLit(Const::Bool(a == b)))
            } else {
                None
            },
            _ => None,
        },
        Prim::U16Neq => match (carg_spec(args, 0), carg_spec(args, 1)) {
            (Some(Const::U16(a, _)), Some(Const::U16(b, _))) => if args.slen() == 2 {
                Some(Value::ConstLit(Const::Bool(a != b)))
            } else {
                None
            },
            _ => None,
        },
        Prim::U16Gt => match (carg_spec(args, 0), carg_spec(args, 1)) {
            (Some(Const::U16(a, _)), Some(Const::U16(b, _))) => if args.slen() == 2 {
                Some(Value::ConstLit(Const::Bool(a > b)))
            } else {
                None
            },
            _ => None,
        },
        Prim::U16Lt => match (carg_spec(args, 0), carg_spec(args, 1)) {
            (Some(Const::U16(a, _)), Some(Const::U16(b, _))) => if args.slen() == 2 {
                Some(Value::ConstLit(Const::Bool(a < b)))
            } else {
                None
            },
            _ => None,
        },
        Prim::U16Gte => match (carg_spec(args, 0), carg_spec(args, 1)) {
            (Some(Const::U16(a, _)), Some(Const::U16(b, _))) => if args.slen() == 2 {
                Some(Value::ConstLit(Const::Bool(a >= b)))
            } else {
                None
            },
            _ => None,
        },
        Prim::U16Lte => match (carg_spec(args, 0), carg_spec(args, 1)) {
            (Some(Const::U16(a, _)), Some(Const::U16(b, _))) => if args.slen() == 2 {
                Some(Value::ConstLit(Const::Bool(a <= b)))
            } else {
                None
            },
            _ => None,
        },
        Prim::U16Add => match (carg_spec(args, 0), carg_spec(args, 1)) {
            (Some(Const::U16(a, sa)), Some(Const::U16(b, sb))) => if args.slen() == 2 {
                match a.checked_add(b) {
                    Some(v) => Some(Value::ConstLit(Const::U16(v, UIntStyle::merge_spec(sa, sb)))),
                    None => None,
                }
            } else {
                None
            },
            _ => None,
        },
        Prim::U16Sub => match (carg_spec(args, 0), carg_spec(args, 1)) {
            (Some(Const::U16(a, sa)), Some(Const::U16(b, sb))) => if args.slen() == 2 {
                match a.checked_sub(b) {
                    Some(v) => Some(Value::ConstLit(Const::U16(v, UIntStyle::merge_spec(sa, sb)))),
                    None => None,
                }
            } else {
                None
            },
            _ => None,
        },
        Prim::U16Mul => match (carg_spec(args, 0), carg_spec(args, 1)) {
            (Some(Const::U16(a, sa)), Some(Const::U16(b, sb))) => if args.slen() == 2 {
                match a.checked_mul(b) {
                    Some(v) => Some(Value::ConstLit(Const::U16(v, UIntStyle::merge_spec(sa, sb)))),
                    None => None,
                }
            } else {
                None
            },
            _ => None,
        },
        Prim::U16Div => match (carg_spec(args, 0), carg_spec(args, 1)) {
            (Some(Const::U16(a, sa)), Some(Const::U16(b, sb))) => if args.slen() == 2 {
                match a.checked_div(b) {
                    Some(v) => Some(Value::ConstLit(Const::U16(v, UIntStyle::merge_spec(sa, sb)))),
                    None => None,
                }
            } else {
                None
            },
            _ => None,
        },
        Prim::U16Not => match carg_spec(args, 0) {
            Some(Const::U16(a, sa)) => if args.slen() == 1 {
                Some(Value::ConstLit(Const::U16(!a, sa)))
            } else {
                None
            },
            _ => None,
        },
        Prim::U16Shl => match (carg_spec(args, 0), carg_spec(args, 1)) {
            (Some(Const::U16(a, sa)), Some(Const::U16(b, _))) => if args.slen() == 2 && b < 16 {
                Some(Value::ConstLit(Const::U16(a << b, sa)))
            } else {
                None
            },
            _ => None,
        },
        Prim::U16Shr => match (carg_spec(args, 0), carg_spec(args, 1)) {
            (Some(Const::U16(a, sa)), Some(Const::U16(b, _))) => if args.slen() == 2 && b < 16 {
                Some(Value::ConstLit(Const::U16(a >> b, sa)))
            } else {
                None
            },
            _ => None,
        },
        Prim::U16And => match (carg_spec(args, 0), carg_spec(args, 1)) {
            (Some(Const::U16(a, sa)), Some(Const::U16(b, sb))) => if args.slen() == 2 {
                Some(Value::ConstLit(Const::U16(a & b, UIntStyle::merge_spec(sa, sb))))
            } else {
                None
            },
            _ => None,
        },
        Prim::U16Or => match (carg_spec(args, 0), carg_spec(args, 1)) {
            (Some(Const::U16(a, sa)), Some(Const::U16(b, sb))) => if args.slen() == 2 {
                Some(Value::ConstLit(Const::U16(a | b, UIntStyle::merge_spec(sa, sb))))
            } else {
                None
            },
            _ => None,
        },
        Prim::U16Xor => match (carg_spec(args, 0), carg_spec(args, 1)) {
            (Some(Const::U16(a, sa)), Some(Const::U16(b, sb))) => if args.slen() == 2 {
                Some(Value::ConstLit(Const::U16(a ^ b, UIntStyle::merge_spec(sa, sb))))
            } else {
                None
            },
            _ => None,
        },
        _ => None,
    }
}

/// Executable form of `u16_ops_spec`.
pub fn u16_ops(p: Prim, args: &List<Value>) -> (r: Option<Value>)
    ensures
        r == u16_ops_spec(p, *args),
{
    match p {
        Prim::U16Eq => match (carg(args, 0), carg(args, 1)) {
            (Some(Const::U16(a, _)), Some(Const::U16(b, _))) => if arity(args, 2) {
                Some(Value::ConstLit(Const::Bool(a == b)))
            } else {
                None
            },
            _ => None,
        },
        Prim::U16Neq => match (carg(args, 0), carg(args, 1)) {
            (Some(Const::U16(a, _)), Some(Const::U16(b, _))) => if arity(args, 2) {
                Some(Value::ConstLit(Const::Bool(a != b)))
            } else {
                None
            },
            _ => None,
        },
        Prim::U16Gt => match (carg(args, 0), carg(args, 1)) {
            (Some(Const::U16(a, _)), Some(Const::U16(b, _))) => if arity(args, 2) {
                Some(Value::ConstLit(Const::Bool(a > b)))
            } else {
                None
            },
            _ => None,
        },
        Prim::U16Lt => match (carg(args, 0), carg(args, 1)) {
            (Some(Const::U16(a, _)), Some(Const::U16(b, _))) => if arity(args, 2) {
                Some(Value::ConstLit(Const::Bool(a < b)))
            } else {
                None
            },
            _ => None,
        },
        Prim::U16Gte => match (carg(args, 0), carg(args, 1)) {
            (Some(Const::U16(a, _)), Some(Const::U16(b, _))) => if arity(args, 2) {
                Some(Value::ConstLit(Const::Bool(a >= b)))
            } else {
                None
            },
            _ => None,
        },
        Prim::U16Lte => match (carg(args, 0), carg(args, 1)) {
            (Some(Const::U16(a, _)), Some(Const::U16(b, _))) => if arity(args, 2) {
                Some(Value::ConstLit(Const::Bool(a <= b)))
            } else {
                None
            },
            _ => None,
        },
        Prim::U16Add => match (carg(args, 0), carg(args, 1)) {
            (Some(Const::U16(a, sa)), Some(Const::U16(b, sb))) => if arity(args, 2) {
                match a.checked_add(b) {
                    Some(v) => Some(Value::ConstLit(Const::U16(v, UIntStyle::merge(sa, sb)))),
                    None => None,
                }
            } else {
                None
            },
            _ => None,
        },
        Prim::U16Sub => match (carg(args, 0), carg(args, 1)) {
            (Some(Const::U16(a, sa)), Some(Const::U16(b, sb))) => if arity(args, 2) {
                match a.checked_sub(b) {
                    Some(v) => Some(Value::ConstLit(Const::U16(v, UIntStyle::merge(sa, sb)))),
                    None => None,
                }
            } else {
                None
            },
            _ => None,
        },
        Prim::U16Mul => match (carg(args, 0), carg(args, 1)) {
            (Some(Const::U16(a, sa)), Some(Const::U16(b, sb))) => if arity(args, 2) {
                match a.checked_mul(b) {
                    Some(v) => Some(Value::ConstLit(Const::U16(v, UIntStyle::merge(sa, sb)))),
                    None => None,
                }
            } else {
                None
            },
            _ => None,
        },
        Prim::U16Div => match (carg(args, 0), carg(args, 1)) {
            (Some(Const::U16(a, sa)), Some(Const::U16(b, sb))) => if arity(args, 2) {
                match a.checked_div(b) {
                    Some(v) => Some(Value::ConstLit(Const::U16(v, UIntStyle::merge(sa, sb)))),
                    None => None,
                }
            } else {
                None
            },
            _ => None,
        },
        Prim::U16Not => match carg(args, 0) {
            Some(Const::U16(a, sa)) => if arity(args, 1) {
                Some(Value::ConstLit(Const::U16(!a, sa)))
            } else {
                None
            },
            _ => None,
        },
        Prim::U16Shl => match (carg(args, 0), carg(args, 1)) {
            (Some(Const::U16(a, sa)), Some(Const::U16(b, _))) => if arity(args, 2) && b < 16 {
                Some(Value::ConstLit(Const::U16(a << b, sa)))
            } else {
                None
            },
            _ => None,
        },
        Prim::U16Shr => match (carg(args, 0), carg(args, 1)) {
            (Some(Const::U16(a, sa)), Some(Const::U16(b, _))) => if arity(args, 2) && b < 16 {
                Some(Value::ConstLit(Const::U16(a >> b, sa)))
            } else {
                None
            },
            _ => None,
        },
        Prim::U16And => match (carg(args, 0), carg(args, 1)) {
            (Some(Const::U16(a, sa)), Some(Const::U16(b, sb))) => if arity(args, 2) {
                Some(Value::ConstLit(Const::U16(a & b, UIntStyle::merge(sa, sb))))
            } else {
                None
            },
            _ => None,
        },
        Prim::U16Or => match (carg(args, 0), carg(args, 1)) {
            (Some(Const::U16(a, sa)), Some(Const::U16(b, sb))) => if arity(args, 2) {
                Some(Value::ConstLit(Const::U16(a | b, UIntStyle::merge(sa, sb))))
            } else {
                None
            },
            _ => None,
        },
        Prim::U16Xor => match (carg(args, 0), carg(args, 1)) {
            (Some(Const::U16(a, sa)), Some(Const::U16(b, sb))) => if arity(args, 2) {
                Some(Value::ConstLit(Const::U16(a ^ b, UIntStyle::merge(sa, sb))))
            } else {
                None
            },
            _ => None,
        },
        _ => None,
    }
}

/// What reducing a `u32` primitive application yields.
pub open spec fn u32_ops_spec(p: Prim, args: List<Value>) -> Option<Value> {
    match p {
        Prim::U32Eq => match (carg_spec(args, 0), carg_spec(args, 1)) {
            (Some(Const::U32(a, _)), Some(Const::U32(b, _))) => if args.slen() == 2 {
                Some(Value::ConstLit(Const::Bool(a == b)))
            } else {
                None
            },
            _ => None,
        },
        Prim::U32Neq => match (carg_spec(args, 0), carg_spec(args, 1)) {
            (Some(Const::U32(a, _)), Some(Const::U32(b, _))) => if args.slen() == 2 {
                Some(Value::ConstLit(Const::Bool(a != b)))
            } else {
                None
            },
            _ => None,
        },
        Prim::U32Gt => match (carg_spec(args, 0), carg_spec(args, 1)) {
            (Some(Const::U32(a, _)), Some(Const::U32(b, _))) => if args.slen() == 2 {
                Some(Value::ConstLit(Const::Bool(a > b)))
            } else {
                None
            },
            _ => None,
        },
        Prim::U32Lt => match (carg_spec(args, 0), carg_spec(args, 1)) {
            (Some(Const::U32(a, _)), Some(Const::U32(b, _))) => if args.slen() == 2 {
                Some(Value::ConstLit(Const::Bool(a < b)))
            } else {
                None
            },
            _ => None,
        },
        Prim::U32Gte => match (carg_spec(args, 0), carg_spec(args, 1)) {
            (Some(Const::U32(a, _)), Some(Const::U32(b, _))) => if args.slen() == 2 {
                Some(Value::ConstLit(Const::Bool(a >= b)))
            } else {
                None
            },
            _ => None,
        },
        Prim::U32Lte => match (carg_spec(args, 0), carg_spec(args, 1)) {
            (Some(Const::U32(a, _)), Some(Const::U32(b, _))) => if args.slen() == 2 {
                Some(Value::ConstLit(Const::Bool(a <= b)))
            } else {
                None
            },
            _ => None,
        },
        Prim::U32Add => match (carg_spec(args, 0), carg_spec(args, 1)) {
            (Some(Const::U32(a, sa)), Some(Const::U32(b, sb))) => if args.slen() == 2 {
                match a.checked_add(b) {
                    Some(v) => Some(Value::ConstLit(Const::U32(v, UIntStyle::merge_spec(sa, sb)))),
                    None => None,
                }
            } else {
                None
            },
            _ => None,
        },
        Prim::U32Sub => match (carg_spec(args, 0), carg_spec(args, 1)) {
            (Some(Const::U32(a, sa)), Some(Const::U32(b, sb))) => if args.slen() == 2 {
                match a.checked_sub(b) {
                    Some(v) => Some(Value::ConstLit(Const::U32(v, UIntStyle::merge_spec(sa, sb)))),
                    None => None,
                }
            } else {
                None
            },
            _ => None,
        },
        Prim::U32Mul => match (carg_spec(args, 0), carg_spec(args, 1)) {
            (Some(Const::U32(a, sa)), Some(Const::U32(b, sb))) => if args.slen() == 2 {
                match a.checked_mul(b) {
                    Some(v) => Some(Value::ConstLit(Const::U32(v, UIntStyle::merge_spec(sa, sb)))),
                    None => None,
                }
            } else {
                None
            },
            _ => None,
        },
        Prim::U32Div => match (carg_spec(args, 0), carg_spec(args, 1)) {
            (Some(Const::U32(a, sa)), Some(Const::U32(b, sb))) => if args.slen() == 2 {
                match a.checked_div(b) {
                    Some(v) => Some(Value::ConstLit(Const::U32(v, UIntStyle::merge_spec(sa, sb)))),
                    None => None,
                }
            } else {
                None
            },
            _ => None,
        },
        Prim::U32Not => match carg_spec(args, 0) {
            Some(Const::U32(a, sa)) => if args.slen() == 1 {
                Some(Value::ConstLit(Const::U32(!a, sa)))
            } else {
                None
            },
            _ => None,
        },
        Prim::U32Shl => match (carg_spec(args, 0), carg_spec(args, 1)) {
            (Some(Const::U32(a, sa)), Some(Const::U32(b, _))) => if args.slen() == 2 && b < 32 {
                Some(Value::ConstLit(Const::U32(a << b, sa)))
            } else {
                None
            },
            _ => None,
        },
        Prim::U32Shr => match (carg_spec(args, 0), carg_spec(args, 1)) {
            (Some(Const::U32(a, sa)), Some(Const::U32(b, _))) => if args.slen() == 2 && b < 32 {
                Some(Value::ConstLit(Const::U32(a >> b, sa)))
            } else {
                None
            },
            _ => None,
        },
        Prim::U32And => match (carg_spec(args, 0), carg_spec(args, 1)) {
            (Some(Const::U32(a, sa)), Some(Const::U32(b, sb))) => if args.slen() == 2 {
                Some(Value::ConstLit(Const::U32(a & b, UIntStyle::merge_spec(sa, sb))))
            } else {
                None
            },
            _ => None,
        },
        Prim::U32Or => match (carg_spec(args, 0), carg_spec(args, 1)) {
            (Some(Const::U32(a, sa)), Some(Const::U32(b, sb))) => if args.slen() == 2 {
                Some(Value::ConstLit(Const::U32(a | b, UIntStyle::merge_spec(sa, sb))))
            } else {
                None
            },
            _ => None,
        },
        Prim::U32Xor => match (carg_spec(args, 0), carg_spec(args, 1)) {
            (Some(Const::U32(a, sa)), Some(Const::U32(b, sb))) => if args.slen() == 2 {
                Some(Value::ConstLit(Const::U32(a ^ b, UIntStyle::merge_spec(sa, sb))))
            } else {
                None
            },
            _ => None,
        },
        _ => None,
    }
}

/// Executable form of `u32_ops_spec`.
pub fn u32_ops(p: Prim, args: &List<Value>) -> (r: Option<Value>)
    ensures
        r == u32_ops_spec(p, *args),
{
    match p {
        Prim::U32Eq => match (carg(args, 0), carg(args, 1)) {
            (Some(Const::U32(a, _)), Some(Const::U32(b, _))) => if arity(args, 2) {
                Some(Value::ConstLit(Const::Bool(a == b)))
            } else {
                None
            },
            _ => None,
        },
        Prim::U32Neq => match (carg(args, 0), carg(args, 1)) {
            (Some(Const::U32(a, _)), Some(Const::U32(b, _))) => if arity(args, 2) {
                Some(Value::ConstLit(Const::Bool(a != b)))
            } else {
                None
            },
            _ => None,
        },
        Prim::U32Gt => match (carg(args, 0), carg(args, 1)) {
            (Some(Const::U32(a, _)), Some(Const::U32(b, _))) => if arity(args, 2) {
                Some(Value::ConstLit(Const::Bool(a > b)))
            } else {
                None
            },
            _ => None,
        },
        Prim::U32Lt => match (carg(args, 0), carg(args, 1)) {
            (Some(Const::U32(a, _)), Some(Const::U32(b, _))) => if arity(args, 2) {
                Some(Value::ConstLit(Const::Bool(a < b)))
            } else {
                None
            },
            _ => None,
        },
        Prim::U32Gte => match (carg(args, 0), carg(args, 1)) {
            (Some(Const::U32(a, _)), Some(Const::U32(b, _))) => if arity(args, 2) {
                Some(Value::ConstLit(Const::Bool(a >= b)))
            } else {
                None
            },
            _ => None,
        },
        Prim::U32Lte => match (carg(args, 0), carg(args, 1)) {
            (Some(Const::U32(a, _)), Some(Const::U32(b, _))) => if arity(args, 2) {
                Some(Value::ConstLit(Const::Bool(a <= b)))
            } else {
                None
            },
            _ => None,
        },
        Prim::U32Add => match (carg(args, 0), carg(args, 1)) {
            (Some(Const::U32(a, sa)), Some(Const::U32(b, sb))) => if arity(args, 2) {
                match a.checked_add(b) {
                    Some(v) => Some(Value::ConstLit(Const::U32(v, UIntStyle::merge(sa, sb)))),
                    None => None,
                }
            } else {
                None
            },
            _ => None,
        },
        Prim::U32Sub => match (carg(args, 0), carg(args, 1)) {
            (Some(Const::U32(a, sa)), Some(Const::U32(b, sb))) => if arity(args, 2) {
                match a.checked_sub(b) {
                    Some(v) => Some(Value::ConstLit(Const::U32(v, UIntStyle::merge(sa, sb)))),
                    None => None,
                }
            } else {
                None
            },
            _ => None,
        },
        Prim::U32Mul => match (carg(args, 0), carg(args, 1)) {
            (Some(Const::U32(a, sa)), Some(Const::U32(b, sb))) => if arity(args, 2) {
                match a.checked_mul(b) {
                    Some(v) => Some(Value::ConstLit(Const::U32(v, UIntStyle::merge(sa, sb)))),
                    None => None,
                }
            } else {
                None
            },
            _ => None,
        },
        Prim::U32Div => match (carg(args, 0), carg(args, 1)) {
            (Some(Const::U32(a, sa)), Some(Const::U32(b, sb))) => if arity(args, 2) {
                match a.checked_div(b) {
                    Some(v) => Some(Value::ConstLit(Const::U32(v, UIntStyle::merge(sa, sb)))),
                    None => None,
                }
            } else {
                None
            },
            _ => None,
        },
        Prim::U32Not => match carg(args, 0) {
            Some(Const::U32(a, sa)) => if arity(args, 1) {
                Some(Value::ConstLit(Const::U32(!a, sa)))
            } else {
                None
            },
            _ => None,
        },
        Prim::U32Shl => match (carg(args, 0), carg(args, 1)) {
            (Some(Const::U32(a, sa)), Some(Const::U32(b, _))) => if arity(args, 2) && b < 32 {
                Some(Value::ConstLit(Const::U32(a << b, sa)))
            } else {
                None
            },
            _ => None,
        },
        Prim::U32Shr => match (carg(args, 0), carg(args, 1)) {
            (Some(Const::U32(a, sa)), Some(Const::U32(b, _))) => if arity(args, 2) && b < 32 {
                Some(Value::ConstLit(Const::U32(a >> b, sa)))
            } else {
                None
            },
            _ => None,
        },
        Prim::U32And => match (carg(args, 0), carg(args, 1)) {
            (Some(Const::U32(a, sa)), Some(Const::U32(b, sb))) => if arity(args, 2) {
                Some(Value::ConstLit(Const::U32(a & b, UIntStyle::merge(sa, sb))))
            } else {
                None
            },
            _ => None,
        },
        Prim::U32Or => match (carg(args, 0), carg(args, 1)) {
            (Some(Const::U32(a, sa)), Some(Const::U32(b, sb))) => if arity(args, 2) {
                Some(Value::ConstLit(Const::U32(a | b, UIntStyle::merge(sa, sb))))
            } else {
                None
            },
            _ => None,
        },
        Prim::U32Xor => match (carg(args, 0), carg(args, 1)) {
            (Some(Const::U32(a, sa)), Some(Const::U32(b, sb))) => if arity(args, 2) {
                Some(Value::ConstLit(Const::U32(a ^ b, UIntStyle::merge(sa, sb))))
            } else {
                None
            },
            _ => None,
        },
        _ => None,
    }
}

/// What reducing a `u64` primitive application yields.
pub open spec fn u64_ops_spec(p: Prim, args: List<Value>) -> Option<Value> {
    match p {
        Prim::U64Eq => match (carg_spec(args, 0), carg_spec(args, 1)) {
            (Some(Const::U64(a, _)), Some(Const::U64(b, _))) => if args.slen() == 2 {
                Some(Value::ConstLit(Const::Bool(a == b)))
            } else {
                None
            },
            _ => None,
        },
        Prim::U64Neq => match (carg_spec(args, 0), carg_spec(args, 1)) {
            (Some(Const::U64(a, _)), Some(Const::U64(b, _))) => if args.slen() == 2 {
                Some(Value::ConstLit(Const::Bool(a != b)))
            } else {
                None
            },
            _ => None,
        },
        Prim::U64Gt => match (carg_spec(args, 0), carg_spec(args, 1)) {
            (Some(Const::U64(a, _)), Some(Const::U64(b, _))) => if args.slen() == 2 {
                Some(Value::ConstLit(Const::Bool(a > b)))
            } else {
                None
            },
            _ => None,
        },
        Prim::U64Lt => match (carg_spec(args, 0), carg_spec(args, 1)) {
            (Some(Const::U64(a, _)), Some(Const::U64(b, _))) => if args.slen() == 2 {
                Some(Value::ConstLit(Const::Bool(a < b)))
            } else {
                None
            },
            _ => None,
        },
        Prim::U64Gte => match (carg_spec(args, 0), carg_spec(args, 1)) {
            (Some(Const::U64(a, _)), Some(Const::U64(b, _))) => if args.slen() == 2 {
                Some(Value::ConstLit(Const::Bool(a >= b)))
            } else {
                None
            },
            _ => None,
        },
        Prim::U64Lte => match (carg_spec(args, 0), carg_spec(args, 1)) {
            (Some(Const::U64(a, _)), Some(Const::U64(b, _))) => if args.slen() == 2 {
                Some(Value::ConstLit(Const::Bool(a <= b)))
            } else {
                None
            },
            _ => None,
        },
        Prim::U64Add => match (carg_spec(args, 0), carg_spec(args, 1)) {
            (Some(Const::U64(a, sa)), Some(Const::U64(b, sb))) => if args.slen() == 2 {
                match a.checked_add(b) {
                    Some(v) => Some(Value::ConstLit(Const::U64(v, UIntStyle::merge_spec(sa, sb)))),
                    None => None,
                }
            } else {
                None
            },
            _ => None,
        },
        Prim::U64Sub => match (carg_spec(args, 0), carg_spec(args, 1)) {
            (Some(Const::U64(a, sa)), Some(Const::U64(b, sb))) => if args.slen() == 2 {
                match a.checked_sub(b) {
                    Some(v) => Some(Value::ConstLit(Const::U64(v, UIntStyle::merge_spec(sa, sb)))),
                    None => None,
                }
            } else {
                None
            },
            _ => None,
        },
        Prim::U64Mul => match (carg_spec(args, 0), carg_spec(args, 1)) {
            (Some(Const::U64(a, sa)), Some(Const::U64(b, sb))) => if args.slen() == 2 {
                match a.checked_mul(b) {
                    Some(v) => Some(Value::ConstLit(Const::U64(v, UIntStyle::merge_spec(sa, sb)))),
                    None => None,
                }
            } else {
                None
            },
            _ => None,
        },
        Prim::U64Div => match (carg_spec(args, 0), carg_spec(args, 1)) {
            (Some(Const::U64(a, sa)), Some(Const::U64(b, sb))) => if args.slen() == 2 {
                match a.checked_div(b) {
                    Some(v) => Some(Value::ConstLit(Const::U64(v, UIntStyle::merge_spec(sa, sb)))),
                    None => None,
                }
            } else {
                None
            },
            _ => None,
        },
        Prim::U64Not => match carg_spec(args, 0) {
            Some(Const::U64(a, sa)) => if args.slen() == 1 {
                Some(Value::ConstLit(Const::U64(!a, sa)))
            } else {
                None
            },
            _ => None,
        },
        Prim::U64Shl => match (carg_spec(args, 0), carg_spec(args, 1)) {
            (Some(Const::U64(a, sa)), Some(Const::U64(b, _))) => if args.slen() == 2 && b < 64 {
                Some(Value::ConstLit(Const::U64(a << b, sa)))
            } else {
                None
            },
            _ => None,
        },
        Prim::U64Shr => match (carg_spec(args, 0), carg_spec(args, 1)) {
            (Some(Const::U64(a, sa)), Some(Const::U64(b, _))) => if args.slen() == 2 && b < 64 {
                Some(Value::ConstLit(Const::U64(a >> b, sa)))
            } else {
                None
            },
            _ => None,
        },
        Prim::U64And => match (carg_spec(args, 0), carg_spec(args, 1)) {
            (Some(Const::U64(a, sa)), Some(Const::U64(b, sb))) => if args.slen() == 2 {
                Some(Value::ConstLit(Const::U64(a & b, UIntStyle::merge_spec(sa, sb))))
            } else {
                None
            },
            _ => None,
        },
        Prim::U64Or => match (carg_spec(args, 0), carg_spec(args, 1)) {
            (Some(Const::U64(a, sa)), Some(Const::U64(b, sb))) => if args.slen() == 2 {
                Some(Value::ConstLit(Const::U64(a | b, UIntStyle::merge_spec(sa, sb))))
            } else {
                None
            },
            _ => None,
        },
        Prim::U64Xor => match (carg_spec(args, 0), carg_spec(args, 1)) {
            (Some(Const::U64(a, sa)), Some(Const::U64(b, sb))) => if args.slen() == 2 {
                Some(Value::ConstLit(Const::U64(a ^ b, UIntStyle::merge_spec(sa, sb))))
            } else {
                None
            },
            _ => None,
        },
        _ => None,
    }
}

/// Executable form of `u64_ops_spec`.
pub fn u64_ops(p: Prim, args: &List<Value>) -> (r: Option<Value>)
    ensures
        r == u64_ops_spec(p, *args),
{
    match p {
        Prim::U64Eq => match (carg(args, 0), carg(args, 1)) {
            (Some(Const::U64(a, _)), Some(Const::U64(b, _))) => if arity(args, 2) {
                Some(Value::ConstLit(Const::Bool(a == b)))
            } else {
                None
            },
            _ => None,
        },
        Prim::U64Neq => match (carg(args, 0), carg(args, 1)) {
            (Some(Const::U64(a, _)), Some(Const::U64(b, _))) => if arity(args, 2) {
                Some(Value::ConstLit(Const::Bool(a != b)))
            } else {
                None
            },
            _ => None,
        },
        Prim::U64Gt => match (carg(args, 0), carg(args, 1)) {
            (Some(Const::U64(a, _)), Some(Const::U64(b, _))) => if arity(args, 2) {
                Some(Value::ConstLit(Const::Bool(a > b)))
            } else {
                None
            },
            _ => None,
        },
        Prim::U64Lt => match (carg(args, 0), carg(args, 1)) {
            (Some(Const::U64(a, _)), Some(Const::U64(b, _))) => if arity(args, 2) {
                Some(Value::ConstLit(Const::Bool(a < b)))
            } else {
                None
            },
            _ => None,
        },
        Prim::U64Gte => match (carg(args, 0), carg(args, 1)) {
            (Some(Const::U64(a, _)), Some(Const::U64(b, _))) => if arity(args, 2) {
                Some(Value::ConstLit(Const::Bool(a >= b)))
            } else {
                None
            },
            _ => None,
        },
        Prim::U64Lte => match (carg(args, 0), carg(args, 1)) {
            (Some(Const::U64(a, _)), Some(Const::U64(b, _))) => if arity(args, 2) {
                Some(Value::ConstLit(Const::Bool(a <= b)))
            } else {
                None
            },
            _ => None,
        },
        Prim::U64Add => match (carg(args, 0), carg(args, 1)) {
            (Some(Const::U64(a, sa)), Some(Const::U64(b, sb))) => if arity(args, 2) {
                match a.checked_add(b) {
                    Some(v) => Some(Value::ConstLit(Const::U64(v, UIntStyle::merge(sa, sb)))),
                    None => None,
                }
            } else {
                None
            },
            _ => None,
        },
        Prim::U64Sub => match (carg(args, 0), carg(args, 1)) {
            (Some(Const::U64(a, sa)), Some(Const::U64(b, sb))) => if arity(args, 2) {
                match a.checked_sub(b) {
                    Some(v) => Some(Value::ConstLit(Const::U64(v, UIntStyle::merge(sa, sb)))),
                    None => None,
                }
            } else {
                None
            },
            _ => None,
        },
        Prim::U64Mul => match (carg(args, 0), carg(args, 1)) {
            (Some(Const::U64(a, sa)), Some(Const::U64(b, sb))) => if arity(args, 2) {
                match a.checked_mul(b) {
                    Some(v) => Some(Value::ConstLit(Const::U64(v, UIntStyle::merge(sa, sb)))),
                    None => None,
                }
            } else {
                None
            },
            _ => None,
        },
        Prim::U64Div => match (carg(args, 0), carg(args, 1)) {
            (Some(Const::U64(a, sa)), Some(Const::U64(b, sb))) => if arity(args, 2) {
                match a.checked_div(b) {
                    Some(v) => Some(Value::ConstLit(Const::U64(v, UIntStyle::merge(sa, sb)))),
                    None => None,
                }
            } else {
                None
            },
            _ => None,
        },
        Prim::U64Not => match carg(args, 0) {
            Some(Const::U64(a, sa)) => if arity(args, 1) {
                Some(Value::ConstLit(Const::U64(!a, sa)))
            } else {
                None
            },
            _ => None,
        },
        Prim::U64Shl => match (carg(args, 0), carg(args, 1)) {
            (Some(Const::U64(a, sa)), Some(Const::U64(b, _))) => if arity(args, 2) && b < 64 {
                Some(Value::ConstLit(Const::U64(a << b, sa)))
            } else {
                None
            },
            _ => None,
        },
        Prim::U64Shr => match (carg(args, 0), carg(args, 1)) {
            (Some(Const::U64(a, sa)), Some(Const::U64(b, _))) => if arity(args, 2) && b < 64 {
                Some(Value::ConstLit(Const::U64(a >> b, sa)))
            } else {
                None
            },
            _ => None,
        },
        Prim::U64And => match (carg(args, 0), carg(args, 1)) {
            (Some(Const::U64(a, sa)), Some(Const::U64(b, sb))) => if arity(args, 2) {
                Some(Value::ConstLit(Const::U64(a & b, UIntStyle::merge(sa, sb))))
            } else {
                None
            },
            _ => None,
        },
        Prim::U64Or => match (carg(args, 0), carg(args, 1)) {
            (Some(Const::U64(a, sa)), Some(Const::U64(b, sb))) => if arity(args, 2) {
                Some(Value::ConstLit(Const::U64(a | b, UIntStyle::merge(sa, sb))))
            } else {
                None
            },
            _ => None,
        },
        Prim::U64Xor => match (carg(args, 0), carg(args, 1)) {
            (Some(Const::U64(a, sa)), Some(Const::U64(b, sb))) => if arity(args, 2) {
                Some(Value::ConstLit(Const::U64(a ^ b, UIntStyle::merge(sa, sb))))
            } else {
                None
            },
            _ => None,
        },
        _ => None,
    }
}

/// What reducing a `s8` primitive application yields.
pub open spec fn s8_ops_spec(p: Prim, args: List<Value>) -> Option<Value> {
    match p {
        Prim::S8Eq => match (carg_spec(args, 0), carg_spec(args, 1)) {
            (Some(Const::S8(a)), Some(Const::S8(b))) => if args.slen() == 2 {
                Some(Value::ConstLit(Const::Bool(a == b)))
            } else {
                None
            },
            _ => None,
        },
        Prim::S8Neq => match (carg_spec(args, 0), carg_spec(args, 1)) {
            (Some(Const::S8(a)), Some(Const::S8(b))) => if args.slen() == 2 {
                Some(Value::ConstLit(Const::Bool(a != b)))
            } else {
                None
            },
            _ => None,
        },
        Prim::S8Gt => match (carg_spec(args, 0), carg_spec(args, 1)) {
            (Some(Const::S8(a)), Some(Const::S8(b))) => if args.slen() == 2 {
                Some(Value::ConstLit(Const::Bool(a > b)))
            } else {
                None
            },
            _ => None,
        },
        Prim::S8Lt => match (carg_spec(args, 0), carg_spec(args, 1)) {
            (Some(Const::S8(a)), Some(Const::S8(b))) => if args.slen() == 2 {
                Some(Value::ConstLit(Const::Bool(a < b)))
            } else {
                None
            },
            _ => None,
        },
        Prim::S8Gte => match (carg_spec(args, 0), carg_spec(args, 1)) {
            (Some(Const::S8(a)), Some(Const::S8(b))) => if args.slen() == 2 {
                Some(Value::ConstLit(Const::Bool(a >= b)))
            } else {
                None
            },
            _ => None,
        },
        Prim::S8Lte => match (carg_spec(args, 0), carg_spec(args, 1)) {
            (Some(Const::S8(a)), Some(Const::S8(b))) => if args.slen() == 2 {
                Some(Value::ConstLit(Const::Bool(a <= b)))
            } else {
                None
            },
            _ => None,
        },
        Prim::S8Add => match (carg_spec(args, 0), carg_spec(args, 1)) {
            (Some(Const::S8(a)), Some(Const::S8(b))) => if args.slen() == 2 {
                match a.checked_add(b) {
                    Some(v) => Some(Value::ConstLit(Const::S8(v))),
                    None => None,
                }
            } else {
                None
            },
            _ => None,
        },
        Prim::S8Sub => match (carg_spec(args, 0), carg_spec(args, 1)) {
            (Some(Const::S8(a)), Some(Const::S8(b))) => if args.slen() == 2 {
                match a.checked_sub(b) {
                    Some(v) => Some(Value::ConstLit(Const::S8(v))),
                    None => None,
                }
            } else {
                None
            },
            _ => None,
        },
        Prim::S8Mul => match (carg_spec(args, 0), carg_spec(args, 1)) {
            (Some(Const::S8(a)), Some(Const::S8(b))) => if args.slen() == 2 {
                match a.checked_mul(b) {
                    Some(v) => Some(Value::ConstLit(Const::S8(v))),
                    None => None,
                }
            } else {
                None
            },
            _ => None,
        },
        Prim::S8Div => match (carg_spec(args, 0), carg_spec(args, 1)) {
            (Some(Const::S8(a)), Some(Const::S8(b))) => if args.slen() == 2 {
                match a.checked_div(b) {
                    Some(v) => Some(Value::ConstLit(Const::S8(v))),
                    None => None,
                }
            } else {
                None
            },
            _ => None,
        },
        Prim::S8Neg => match carg_spec(args, 0) {
            Some(Const::S8(a)) => if args.slen() == 1 {
                match (0i8).checked_sub(a) {
                    Some(v) => Some(Value::ConstLit(Const::S8(v))),
                    None => None,
                }
            } else {
                None
            },
            _ => None,
        },
        Prim::S8Abs => match carg_spec(args, 0) {
            Some(Const::S8(a)) => if args.slen() == 1 {
                if a >= 0 {
                    Some(Value::ConstLit(Const::S8(a)))
                } else {
                    match (0i8).checked_sub(a) {
                        Some(v) => Some(Value::ConstLit(Const::S8(v))),
                        None => None,
                    }
                }
            } else {
                None
            },
            _ => None,
        },
        Prim::S8UAbs => match carg_spec(args, 0) {
            Some(Const::S8(a)) => if args.slen() == 1 {
                if a == i8::MIN {
                    Some(Value::ConstLit(Const::U8(128u8, UIntStyle::Decimal)))
                } else if a < 0 {
                    Some(Value::ConstLit(Const::U8((-a) as u8, UIntStyle::Decimal)))
                } else {
                    Some(Value::ConstLit(Const::U8(a as u8, UIntStyle::Decimal)))
                }
            } else {
                None
            },
            _ => None,
        },
        _ => None,
    }
}

/// Executable form of `s8_ops_spec`.
pub fn s8_ops(p: Prim, args: &List<Value>) -> (r: Option<Value>)
    ensures
        r == s8_ops_spec(p, *args),
{
    match p {
        Prim::S8Eq => match (carg(args, 0), carg(args, 1)) {
            (Some(Const::S8(a)), Some(Const::S8(b))) => if arity(args, 2) {
                Some(Value::ConstLit(Const::Bool(a == b)))
            } else {
                None
            },
            _ => None,
        },
        Prim::S8Neq => match (carg(args, 0), carg(args, 1)) {
            (Some(Const::S8(a)), Some(Const::S8(b))) => if arity(args, 2) {
                Some(Value::ConstLit(Const::Bool(a != b)))
            } else {
                None
            },
            _ => None,
        },
        Prim::S8Gt => match (carg(args, 0), carg(args, 1)) {
            (Some(Const::S8(a)), Some(Const::S8(b))) => if arity(args, 2) {
                Some(Value::ConstLit(Const::Bool(a > b)))
            } else {
                None
            },
            _ => None,
        },
        Prim::S8Lt => match (carg(args, 0), carg(args, 1)) {
            (Some(Const::S8(a)), Some(Const::S8(b))) => if arity(args, 2) {
                Some(Value::ConstLit(Const::Bool(a < b)))
            } else {
                None
            },
            _ => None,
        },
        Prim::S8Gte => match (carg(args, 0), carg(args, 1)) {
            (Some(Const::S8(a)), Some(Const::S8(b))) => if arity(args, 2) {
                Some(Value::ConstLit(Const::Bool(a >= b)))
            } else {
                None
            },
            _ => None,
        },
        Prim::S8Lte => match (carg(args, 0), carg(args, 1)) {
            (Some(Const::S8(a)), Some(Const::S8(b))) => if arity(args, 2) {
                Some(Value::ConstLit(Const::Bool(a <= b)))
            } else {
                None
            },
            _ => None,
        },
        Prim::S8Add => match (carg(args, 0), carg(args, 1)) {
            (Some(Const::S8(a)), Some(Const::S8(b))) => if arity(args, 2) {
                match a.checked_add(b) {
                    Some(v) => Some(Value::ConstLit(Const::S8(v))),
                    None => None,
                }
            } else {
                None
            },
            _ => None,
        },
        Prim::S8Sub => match (carg(args, 0), carg(args, 1)) {
            (Some(Const::S8(a)), Some(Const::S8(b))) => if arity(args, 2) {
                match a.checked_sub(b) {
                    Some(v) => Some(Value::ConstLit(Const::S8(v))),
                    None => None,
                }
            } else {
                None
            },
            _ => None,
        },
        Prim::S8Mul => match (carg(args, 0), carg(args, 1)) {
            (Some(Const::S8(a)), Some(Const::S8(b))) => if arity(args, 2) {
                match a.checked_mul(b) {
                    Some(v) => Some(Value::ConstLit(Const::S8(v))),
                    None => None,
                }
            } else {
                None
            },
            _ => None,
        },
        Prim::S8Div => match (carg(args, 0), carg(args, 1)) {
            (Some(Const::S8(a)), Some(Const::S8(b))) => if arity(args, 2) {
                match a.checked_div(b) {
                    Some(v) => Some(Value::ConstLit(Const::S8(v))),
                    None => None,
                }
            } else {
                None
            },
            _ => None,
        },
        Prim::S8Neg => match carg(args, 0) {
            Some(Const::S8(a)) => if arity(args, 1) {
                match (0i8).checked_sub(a) {
                    Some(v) => Some(Value::ConstLit(Const::S8(v))),
                    None => None,
                }
            } else {
                None
            },
            _ => None,
        },
        Prim::S8Abs => match carg(args, 0) {
            Some(Const::S8(a)) => if arity(args, 1) {
                if a >= 0 {
                    Some(Value::ConstLit(Const::S8(a)))
                } else {
                    match (0i8).checked_sub(a) {
                        Some(v) => Some(Value::ConstLit(Const::S8(v))),
                        None => None,
                    }
                }
            } else {
                None
            },
            _ => None,
        },
        Prim::S8UAbs => match carg(args, 0) {
            Some(Const::S8(a)) => if arity(args, 1) {
                if a == i8::MIN {
                    Some(Value::ConstLit(Const::U8(128u8, UIntStyle::Decimal)))
                } else if a < 0 {
                    Some(Value::ConstLit(Const::U8((-a) as u8, UIntStyle::Decimal)))
                } else {
                    Some(Value::ConstLit(Const::U8(a as u8, UIntStyle::Decimal)))
                }
            } else {
                None
            },
            _ => None,
        },
        _ => None,
    }
}

/// What reducing a `s16` primitive application yields.
pub open spec fn s16_ops_spec(p: Prim, args: List<Value>) -> Option<Value> {
    match p {
        Prim::S16Eq => match (carg_spec(args, 0), carg_spec(args, 1)) {
            (Some(Const::S16(a)), Some(Const::S16(b))) => if args.slen() == 2 {
                Some(Value::ConstLit(Const::Bool(a == b)))
            } else {
                None
            },
            _ => None,
        },
        Prim::S16Neq => match (carg_spec(args, 0), carg_spec(args, 1)) {
            (Some(Const::S16(a)), Some(Const::S16(b))) => if args.slen() == 2 {
                Some(Value::ConstLit(Const::Bool(a != b)))
            } else {
                None
            },
            _ => None,
        },
        Prim::S16Gt => match (carg_spec(args, 0), carg_spec(args, 1)) {
            (Some(Const::S16(a)), Some(Const::S16(b))) => if args.slen() == 2 {
                Some(Value::ConstLit(Const::Bool(a > b)))
            } else {
                None
            },
            _ => None,
        },
        Prim::S16Lt => match (carg_spec(args, 0), carg_spec(args, 1)) {
            (Some(Const::S16(a)), Some(Const::S16(b))) => if args.slen() == 2 {
                Some(Value::ConstLit(Const::Bool(a < b)))
            } else {
                None
            },
            _ => None,
        },
        Prim::S16Gte => match (carg_spec(args, 0), carg_spec(args, 1)) {
            (Some(Const::S16(a)), Some(Const::S16(b))) => if args.slen() == 2 {
                Some(Value::ConstLit(Const::Bool(a >= b)))
            } else {
                None
            },
            _ => None,
        },
        Prim::S16Lte => match (carg_spec(args, 0), carg_spec(args, 1)) {
            (Some(Const::S16(a)), Some(Const::S16(b))) => if args.slen() == 2 {
                Some(Value::ConstLit(Const::Bool(a <= b)))
            } else {
                None
            },
            _ => None,
        },
        Prim::S16Add => match (carg_spec(args, 0), carg_spec(args, 1)) {
            (Some(Const::S16(a)), Some(Const::S16(b))) => if args.slen() == 2 {
                match a.checked_add(b) {
                    Some(v) => Some(Value::ConstLit(Const::S16(v))),
                    None => None,
                }
            } else {
                None
            },
            _ => None,
        },
        Prim::S16Sub => match (carg_spec(args, 0), carg_spec(args, 1)) {
            (Some(Const::S16(a)), Some(Const::S16(b))) => if args.slen() == 2 {
                match a.checked_sub(b) {
                    Some(v) => Some(Value::ConstLit(Const::S16(v))),
                    None => None,
                }
            } else {
                None
            },
            _ => None,
        },
        Prim::S16Mul => match (carg_spec(args, 0), carg_spec(args, 1)) {
            (Some(Const::S16(a)), Some(Const::S16(b))) => if args.slen() == 2 {
                match a.checked_mul(b) {
                    Some(v) => Some(Value::ConstLit(Const::S16(v))),
                    None => None,
                }
            } else {
                None
            },
            _ => None,
        },
        Prim::S16Div => match (carg_spec(args, 0), carg_spec(args, 1)) {
            (Some(Const::S16(a)), Some(Const::S16(b))) => if args.slen() == 2 {
                match a.checked_div(b) {
                    Some(v) => Some(Value::ConstLit(Const::S16(v))),
                    None => None,
                }
            } else {
                None
            },
            _ => None,
        },
        Prim::S16Neg => match carg_spec(args, 0) {
            Some(Const::S16(a)) => if args.slen() == 1 {
                match (0i16).checked_sub(a) {
                    Some(v) => Some(Value::ConstLit(Const::S16(v))),
                    None => None,
                }
            } else {
                None
            },
            _ => None,
        },
        Prim::S16Abs => match carg_spec(args, 0) {
            Some(Const::S16(a)) => if args.slen() == 1 {
                if a >= 0 {
                    Some(Value::ConstLit(Const::S16(a)))
                } else {
                    match (0i16).checked_sub(a) {
                        Some(v) => Some(Value::ConstLit(Const::S16(v))),
                        None => None,
                    }
                }
            } else {
                None
            },
            _ => None,
        },
        Prim::S16UAbs => match carg_spec(args, 0) {
            Some(Const::S16(a)) => if args.slen() == 1 {
                if a == i16::MIN {
                    Some(Value::ConstLit(Const::U16(32768u16, UIntStyle::Decimal)))
                } else if a < 0 {
                    Some(Value::ConstLit(Const::U16((-a) as u16, UIntStyle::Decimal)))
                } else {
                    Some(Value::ConstLit(Const::U16(a as u16, UIntStyle::Decimal)))
                }
            } else {
                None
            },
            _ => None,
        },
        _ => None,
    }
}

/// Executable form of `s16_ops_spec`.
pub fn s16_ops(p: Prim, args: &List<Value>) -> (r: Option<Value>)
    ensures
        r == s16_ops_spec(p, *args),
{
    match p {
        Prim::S16Eq => match (carg(args, 0), carg(args, 1)) {
            (Some(Const::S16(a)), Some(Const::S16(b))) => if arity(args, 2) {
                Some(Value::ConstLit(Const::Bool(a == b)))
            } else {
                None
            },
            _ => None,
        },
        Prim::S16Neq => match (carg(args, 0), carg(args, 1)) {
            (Some(Const::S16(a)), Some(Const::S16(b))) => if arity(args, 2) {
                Some(Value::ConstLit(Const::Bool(a != b)))
            } else {
                None
            },
            _ => None,
        },
        Prim::S16Gt => match (carg(args, 0), carg(args, 1)) {
            (Some(Const::S16(a)), Some(Const::S16(b))) => if arity(args, 2) {
                Some(Value::ConstLit(Const::Bool(a > b)))
            } else {
                None
            },
            _ => None,
        },
        Prim::S16Lt => match (carg(args, 0), carg(args, 1)) {
            (Some(Const::S16(a)), Some(Const::S16(b))) => if arity(args, 2) {
                Some(Value::ConstLit(Const::Bool(a < b)))
            } else {
                None
            },
            _ => None,
        },
        Prim::S16Gte => match (carg(args, 0), carg(args, 1)) {
            (Some(Const::S16(a)), Some(Const::S16(b))) => if arity(args, 2) {
                Some(Value::ConstLit(Const::Bool(a >= b)))
            } else {
                None
            },
            _ => None,
        },
        Prim::S16Lte => match (carg(args, 0), carg(args, 1)) {
            (Some(Const::S16(a)), Some(Const::S16(b))) => if arity(args, 2) {
                Some(Value::ConstLit(Const::Bool(a <= b)))
            } else {
                None
            },
            _ => None,
        },
        Prim::S16Add => match (carg(args, 0), carg(args, 1)) {
            (Some(Const::S16(a)), Some(Const::S16(b))) => if arity(args, 2) {
                match a.checked_add(b) {
                    Some(v) => Some(Value::ConstLit(Const::S16(v))),
                    None => None,
                }
            } else {
                None
            },
            _ => None,
        },
        Prim::S16Sub => match (carg(args, 0), carg(args, 1)) {
            (Some(Const::S16(a)), Some(Const::S16(b))) => if arity(args, 2) {
                match a.checked_sub(b) {
                    Some(v) => Some(Value::ConstLit(Const::S16(v))),
                    None => None,
                }
            } else {
                None
            },
            _ => None,
        },
        Prim::S16Mul => match (carg(args, 0), carg(args, 1)) {
            (Some(Const::S16(a)), Some(Const::S16(b))) => if arity(args, 2) {
                match a.checked_mul(b) {
                    Some(v) => Some(Value::ConstLit(Const::S16(v))),
                    None => None,
                }
            } else {
                None
            },
            _ => None,
        },
        Prim::S16Div => match (carg(args, 0), carg(args, 1)) {
            (Some(Const::S16(a)), Some(Const::S16(b))) => if arity(args, 2) {
                match a.checked_div(b) {
                    Some(v) => Some(Value::ConstLit(Const::S16(v))),
                    None => None,
                }
            } else {
                None
            },
            _ => None,
        },
        Prim::S16Neg => match carg(args, 0) {
            Some(Const::S16(a)) => if arity(args, 1) {
                match (0i16).checked_sub(a) {
                    Some(v) => Some(Value::ConstLit(Const::S16(v))),
                    None => None,
                }
            } else {
                None
            },
            _ => None,
        },
        Prim::S16Abs => match carg(args, 0) {
            Some(Const::S16(a)) => if arity(args, 1) {
                if a >= 0 {
                    Some(Value::ConstLit(Const::S16(a)))
                } else {
                    match (0i16).checked_sub(a) {
                        Some(v) => Some(Value::ConstLit(Const::S16(v))),
                        None => None,
                    }
                }
            } else {
                None
            },
            _ => None,
        },
        Prim::S16UAbs => match carg(args, 0) {
            Some(Const::S16(a)) => if arity(args, 1) {
                if a == i16::MIN {
                    Some(Value::ConstLit(Const::U16(32768u16, UIntStyle::Decimal)))
                } else if a < 0 {
                    Some(Value::ConstLit(Const::U16((-a) as u16, UIntStyle::Decimal)))
                } else {
                    Some(Value::ConstLit(Const::U16(a as u16, UIntStyle::Decimal)))
                }
            } else {
                None
            },
            _ => None,
        },
        _ => None,
    }
}

/// What reducing a `s32` primitive application yields.
pub open spec fn s32_ops_spec(p: Prim, args: List<Value>) -> Option<Value> {
    match p {
        Prim::S32Eq => match (carg_spec(args, 0), carg_spec(args, 1)) {
            (Some(Const::S32(a)), Some(Const::S32(b))) => if args.slen() == 2 {
                Some(Value::ConstLit(Const::Bool(a == b)))
            } else {
                None
            },
            _ => None,
        },
        Prim::S32Neq => match (carg_spec(args, 0), carg_spec(args, 1)) {
            (Some(Const::S32(a)), Some(Const::S32(b))) => if args.slen() == 2 {
                Some(Value::ConstLit(Const::Bool(a != b)))
            } else {
                None
            },
            _ => None,
        },
        Prim::S32Gt => match (carg_spec(args, 0), carg_spec(args, 1)) {
            (Some(Const::S32(a)), Some(Const::S32(b))) => if args.slen() == 2 {
                Some(Value::ConstLit(Const::Bool(a > b)))
            } else {
                None
            },
            _ => None,
        },
        Prim::S32Lt => match (carg_spec(args, 0), carg_spec(args, 1)) {
            (Some(Const::S32(a)), Some(Const::S32(b))) => if args.slen() == 2 {
                Some(Value::ConstLit(Const::Bool(a < b)))
            } else {
                None
            },
            _ => None,
        },
        Prim::S32Gte => match (carg_spec(args, 0), carg_spec(args, 1)) {
            (Some(Const::S32(a)), Some(Const::S32(b))) => if args.slen() == 2 {
                Some(Value::ConstLit(Const::Bool(a >= b)))
            } else {
                None
            },
            _ => None,
        },
        Prim::S32Lte => match (carg_spec(args, 0), carg_spec(args, 1)) {
            (Some(Const::S32(a)), Some(Const::S32(b))) => if args.slen() == 2 {
                Some(Value::ConstLit(Const::Bool(a <= b)))
            } else {
                None
            },
            _ => None,
        },
        Prim::S32Add => match (carg_spec(args, 0), carg_spec(args, 1)) {
            (Some(Const::S32(a)), Some(Const::S32(b))) => if args.slen() == 2 {
                match a.checked_add(b) {
                    Some(v) => Some(Value::ConstLit(Const::S32(v))),
                    None => None,
                }
            } else {
                None
            },
            _ => None,
        },
        Prim::S32Sub => match (carg_spec(args, 0), carg_spec(args, 1)) {
            (Some(Const::S32(a)), Some(Const::S32(b))) => if args.slen() == 2 {
                match a.checked_sub(b) {
                    Some(v) => Some(Value::ConstLit(Const::S32(v))),
                    None => None,
                }
            } else {
                None
            },
            _ => None,
        },
        Prim::S32Mul => match (carg_spec(args, 0), carg_spec(args, 1)) {
            (Some(Const::S32(a)), Some(Const::S32(b))) => if args.slen() == 2 {
                match a.checked_mul(b) {
                    Some(v) => Some(Value::ConstLit(Const::S32(v))),
                    None => None,
                }
            } else {
                None
            },
            _ => None,
        },
        Prim::S32Div => match (carg_spec(args, 0), carg_spec(args, 1)) {
            (Some(Const::S32(a)), Some(Const::S32(b))) => if args.slen() == 2 {
                match a.checked_div(b) {
                    Some(v) => Some(Value::ConstLit(Const::S32(v))),
                    None => None,
                }
            } else {
                None
            },
            _ => None,
        },
        Prim::S32Neg => match carg_spec(args, 0) {
            Some(Const::S32(a)) => if args.slen() == 1 {
                match (0i32).checked_sub(a) {
                    Some(v) => Some(Value::ConstLit(Const::S32(v))),
                    None => None,
                }
            } else {
                None
            },
            _ => None,
        },
        Prim::S32Abs => match carg_spec(args, 0) {
            Some(Const::S32(a)) => if args.slen() == 1 {
                if a >= 0 {
                    Some(Value::ConstLit(Const::S32(a)))
                } else {
                    match (0i32).checked_sub(a) {
                        Some(v) => Some(Value::ConstLit(Const::S32(v))),
                        None => None,
                    }
                }
            } else {
                None
            },
            _ => None,
        },
        Prim::S32UAbs => match carg_spec(args, 0) {
            Some(Const::S32(a)) => if args.slen() == 1 {
                if a == i32::MIN {
                    Some(Value::ConstLit(Const::U32(2147483648u32, UIntStyle::Decimal)))
                } else if a < 0 {
                    Some(Value::ConstLit(Const::U32((-a) as u32, UIntStyle::Decimal)))
                } else {
                    Some(Value::ConstLit(Const::U32(a as u32, UIntStyle::Decimal)))
                }
            } else {
                None
            },
            _ => None,
        },
        _ => None,
    }
}

/// Executable form of `s32_ops_spec`.
pub fn s32_ops(p: Prim, args: &List<Value>) -> (r: Option<Value>)
    ensures
        r == s32_ops_spec(p, *args),
{
    match p {
        Prim::S32Eq => match (carg(args, 0), carg(args, 1)) {
            (Some(Const::S32(a)), Some(Const::S32(b))) => if arity(args, 2) {
                Some(Value::ConstLit(Const::Bool(a == b)))
            } else {
                None
            },
            _ => None,
        },
        Prim::S32Neq => match (carg(args, 0), carg(args, 1)) {
            (Some(Const::S32(a)), Some(Const::S32(b))) => if arity(args, 2) {
                Some(Value::ConstLit(Const::Bool(a != b)))
            } else {
                None
            },
            _ => None,
        },
        Prim::S32Gt => match (carg(args, 0), carg(args, 1)) {
            (Some(Const::S32(a)), Some(Const::S32(b))) => if arity(args, 2) {
                Some(Value::ConstLit(Const::Bool(a > b)))
            } else {
                None
            },
            _ => None,
        },
        Prim::S32Lt => match (carg(args, 0), carg(args, 1)) {
            (Some(Const::S32(a)), Some(Const::S32(b))) => if arity(args, 2) {
                Some(Value::ConstLit(Const::Bool(a < b)))
            } else {
                None
            },
            _ => None,
        },
        Prim::S32Gte => match (carg(args, 0), carg(args, 1)) {
            (Some(Const::S32(a)), Some(Const::S32(b))) => if arity(args, 2) {
                Some(Value::ConstLit(Const::Bool(a >= b)))
            } else {
                None
            },
            _ => None,
        },
        Prim::S32Lte => match (carg(args, 0), carg(args, 1)) {
            (Some(Const::S32(a)), Some(Const::S32(b))) => if arity(args, 2) {
                Some(Value::ConstLit(Const::Bool(a <= b)))
            } else {
                None
            },
            _ => None,
        },
        Prim::S32Add => match (carg(args, 0), carg(args, 1)) {
            (Some(Const::S32(a)), Some(Const::S32(b))) => if arity(args, 2) {
                match a.checked_add(b) {
                    Some(v) => Some(Value::ConstLit(Const::S32(v))),
                    None => None,
                }
            } else {
                None
            },
            _ => None,
        },
        Prim::S32Sub => match (carg(args, 0), carg(args, 1)) {
            (Some(Const::S32(a)), Some(Const::S32(b))) => if arity(args, 2) {
                match a.checked_sub(b) {
                    Some(v) => Some(Value::ConstLit(Const::S32(v))),
                    None => None,
                }
            } else {
                None
            },
            _ => None,
        },
        Prim::S32Mul => match (carg(args, 0), carg(args, 1)) {
            (Some(Const::S32(a)), Some(Const::S32(b))) => if arity(args, 2) {
                match a.checked_mul(b) {
                    Some(v) => Some(Value::ConstLit(Const::S32(v))),
                    None => None,
                }
            } else {
                None
            },
            _ => None,
        },
        Prim::S32Div => match (carg(args, 0), carg(args, 1)) {
            (Some(Const::S32(a)), Some(Const::S32(b))) => if arity(args, 2) {
                match a.checked_div(b) {
                    Some(v) => Some(Value::ConstLit(Const::S32(v))),
                    None => None,
                }
            } else {
                None
            },
            _ => None,
        },
        Prim::S32Neg => match carg(args, 0) {
            Some(Const::S32(a)) => if arity(args, 1) {
                match (0i32).checked_sub(a) {
                    Some(v) => Some(Value::ConstLit(Const::S32(v))),
                    None => None,
                }
            } else {
                None
            },
            _ => None,
        },
        Prim::S32Abs => match carg(args, 0) {
            Some(Const::S32(a)) => if arity(args, 1) {
                if a >= 0 {
                    Some(Value::ConstLit(Const::S32(a)))
                } else {
                    match (0i32).checked_sub(a) {
                        Some(v) => Some(Value::ConstLit(Const::S32(v))),
                        None => None,
                    }
                }
            } else {
                None
            },
            _ => None,
        },
        Prim::S32UAbs => match carg(args, 0) {
            Some(Const::S32(a)) => if arity(args, 1) {
                if a == i32::MIN {
                    Some(Value::ConstLit(Const::U32(2147483648u32, UIntStyle::Decimal)))
                } else if a < 0 {
                    Some(Value::ConstLit(Const::U32((-a) as u32, UIntStyle::Decimal)))
                } else {
                    Some(Value::ConstLit(Const::U32(a as u32, UIntStyle::Decimal)))
                }
            } else {
                None
            },
            _ => None,
        },
        _ => None,
    }
}

/// What reducing a `s64` primitive application yields.
pub open spec fn s64_ops_spec(p: Prim, args: List<Value>) -> Option<Value> {
    match p {
        Prim::S64Eq => match (carg_spec(args, 0), carg_spec(args, 1)) {
            (Some(Const::S64(a)), Some(Const::S64(b))) => if args.slen() == 2 {
                Some(Value::ConstLit(Const::Bool(a == b)))
            } else {
                None
            },
            _ => None,
        },
        Prim::S64Neq => match (carg_spec(args, 0), carg_spec(args, 1)) {
            (Some(Const::S64(a)), Some(Const::S64(b))) => if args.slen() == 2 {
                Some(Value::ConstLit(Const::Bool(a != b)))
            } else {
                None
            },
            _ => None,
        },
        Prim::S64Gt => match (carg_spec(args, 0), carg_spec(args, 1)) {
            (Some(Const::S64(a)), Some(Const::S64(b))) => if args.slen() == 2 {
                Some(Value::ConstLit(Const::Bool(a > b)))
            } else {
                None
            },
            _ => None,
        },
        Prim::S64Lt => match (carg_spec(args, 0), carg_spec(args, 1)) {
            (Some(Const::S64(a)), Some(Const::S64(b))) => if args.slen() == 2 {
                Some(Value::ConstLit(Const::Bool(a < b)))
            } else {
                None
            },
            _ => None,
        },
        Prim::S64Gte => match (carg_spec(args, 0), carg_spec(args, 1)) {
            (Some(Const::S64(a)), Some(Const::S64(b))) => if args.slen() == 2 {
                Some(Value::ConstLit(Const::Bool(a >= b)))
            } else {
                None
            },
            _ => None,
        },
        Prim::S64Lte => match (carg_spec(args, 0), carg_spec(args, 1)) {
            (Some(Const::S64(a)), Some(Const::S64(b))) => if args.slen() == 2 {
                Some(Value::ConstLit(Const::Bool(a <= b)))
            } else {
                None
            },
            _ => None,
        },
        Prim::S64Add => match (carg_spec(args, 0), carg_spec(args, 1)) {
            (Some(Const::S64(a)), Some(Const::S64(b))) => if args.slen() == 2 {
                match a.checked_add(b) {
                    Some(v) => Some(Value::ConstLit(Const::S64(v))),
                    None => None,
                }
            } else {
                None
            },
            _ => None,
        },
        Prim::S64Sub => match (carg_spec(args, 0), carg_spec(args, 1)) {
            (Some(Const::S64(a)), Some(Const::S64(b))) => if args.slen() == 2 {
                match a.checked_sub(b) {
                    Some(v) => Some(Value::ConstLit(Const::S64(v))),
                    None => None,
                }
            } else {
                None
            },
            _ => None,
        },
        Prim::S64Mul => match (carg_spec(args, 0), carg_spec(args, 1)) {
            (Some(Const::S64(a)), Some(Const::S64(b))) => if args.slen() == 2 {
                match a.checked_mul(b) {
                    Some(v) => Some(Value::ConstLit(Const::S64(v))),
                    None => None,
                }
            } else {
                None
            },
            _ => None,
        },
        Prim::S64Div => match (carg_spec(args, 0), carg_spec(args, 1)) {
            (Some(Const::S64(a)), Some(Const::S64(b))) => if args.slen() == 2 {
                match a.checked_div(b) {
                    Some(v) => Some(Value::ConstLit(Const::S64(v))),
                    None => None,
                }
            } else {
                None
            },
            _ => None,
        },
        Prim::S64Neg => match carg_spec(args, 0) {
            Some(Const::S64(a)) => if args.slen() == 1 {
                match (0i64).checked_sub(a) {
                    Some(v) => Some(Value::ConstLit(Const::S64(v))),
                    None => None,
                }
            } else {
                None
            },
            _ => None,
        },
        Prim::S64Abs => match carg_spec(args, 0) {
            Some(Const::S64(a)) => if args.slen() == 1 {
                if a >= 0 {
                    Some(Value::ConstLit(Const::S64(a)))
                } else {
                    match (0i64).checked_sub(a) {
                        Some(v) => Some(Value::ConstLit(Const::S64(v))),
                        None => None,
                    }
                }
            } else {
                None
            },
            _ => None,
        },
        Prim::S64UAbs => match carg_spec(args, 0) {
            Some(Const::S64(a)) => if args.slen() == 1 {
                if a == i64::MIN {
                    Some(Value::ConstLit(Const::U64(9223372036854775808u64, UIntStyle::Decimal)))
                } else if a < 0 {
                    Some(Value::ConstLit(Const::U64((-a) as u64, UIntStyle::Decimal)))
                } else {
                    Some(Value::ConstLit(Const::U64(a as u64, UIntStyle::Decimal)))
                }
            } else {
                None
            },
            _ => None,
        },
        _ => None,
    }
}

/// Executable form of `s64_ops_spec`.
pub fn s64_ops(p: Prim, args: &List<Value>) -> (r: Option<Value>)
    ensures
        r == s64_ops_spec(p, *args),
{
    match p {
        Prim::S64Eq => match (carg(args, 0), carg(args, 1)) {
            (Some(Const::S64(a)), Some(Const::S64(b))) => if arity(args, 2) {
                Some(Value::ConstLit(Const::Bool(a == b)))
            } else {
                None
            },
            _ => None,
        },
        Prim::S64Neq => match (carg(args, 0), carg(args, 1)) {
            (Some(Const::S64(a)), Some(Const::S64(b))) => if arity(args, 2) {
                Some(Value::ConstLit(Const::Bool(a != b)))
            } else {
                None
            },
            _ => None,
        },
        Prim::S64Gt => match (carg(args, 0), carg(args, 1)) {
            (Some(Const::S64(a)), Some(Const::S64(b))) => if arity(args, 2) {
                Some(Value::ConstLit(Const::Bool(a > b)))
            } else {
                None
            },
            _ => None,
        },
        Prim::S64Lt => match (carg(args, 0), carg(args, 1)) {
            (Some(Const::S64(a)), Some(Const::S64(b))) => if arity(args, 2) {
                Some(Value::ConstLit(Const::Bool(a < b)))
            } else {
                None
            },
            _ => None,
        },
        Prim::S64Gte => match (carg(args, 0), carg(args, 1)) {
            (Some(Const::S64(a)), Some(Const::S64(b))) => if arity(args, 2) {
                Some(Value::ConstLit(Const::Bool(a >= b)))
            } else {
                None
            },
            _ => None,
        },
        Prim::S64Lte => match (carg(args, 0), carg(args, 1)) {
            (Some(Const::S64(a)), Some(Const::S64(b))) => if arity(args, 2) {
                Some(Value::ConstLit(Const::Bool(a <= b)))
            } else {
                None
            },
            _ => None,
        },
        Prim::S64Add => match (carg(args, 0), carg(args, 1)) {
            (Some(Const::S64(a)), Some(Const::S64(b))) => if arity(args, 2) {
                match a.checked_add(b) {
                    Some(v) => Some(Value::ConstLit(Const::S64(v))),
                    None => None,
                }
            } else {
                None
            },
            _ => None,
        },
        Prim::S64Sub => match (carg(args, 0), carg(args, 1)) {
            (Some(Const::S64(a)), Some(Const::S64(b))) => if arity(args, 2) {
                match a.checked_sub(b) {
                    Some(v) => Some(Value::ConstLit(Const::S64(v))),
                    None => None,
                }
            } else {
                None
            },
            _ => None,
        },
        Prim::S64Mul => match (carg(args, 0), carg(args, 1)) {
            (Some(Const::S64(a)), Some(Const::S64(b))) => if arity(args, 2) {
                match a.checked_mul(b) {
                    Some(v) => Some(Value::ConstLit(Const::S64(v))),
                    None => None,
                }
            } else {
                None
            },
            _ => None,
        },
        Prim::S64Div => match (carg(args, 0), carg(args, 1)) {
            (Some(Const::S64(a)), Some(Const::S64(b))) => if arity(args, 2) {
                match a.checked_div(b) {
                    Some(v) => Some(Value::ConstLit(Const::S64(v))),
                    None => None,
                }
            } else {
                None
            },
            _ => None,
        },
        Prim::S64Neg => match carg(args, 0) {
            Some(Const::S64(a)) => if arity(args, 1) {
                match (0i64).checked_sub(a) {
                    Some(v) => Some(Value::ConstLit(Const::S64(v))),
                    None => None,
                }
            } else {
                None
            },
            _ => None,
        },
        Prim::S64Abs => match carg(args, 0) {
            Some(Const::S64(a)) => if arity(args, 1) {
                if a >= 0 {
                    Some(Value::ConstLit(Const::S64(a)))
                } else {
                    match (0i64).checked_sub(a) {
                        Some(v) => Some(Value::ConstLit(Const::S64(v))),
                        None => None,
                    }
                }
            } else {
                None
            },
            _ => None,
        },
        Prim::S64UAbs => match carg(args, 0) {
            Some(Const::S64(a)) => if arity(args, 1) {
                if a == i64::MIN {
                    Some(Value::ConstLit(Const::U64(9223372036854775808u64, UIntStyle::Decimal)))
                } else if a < 0 {
                    Some(Value::ConstLit(Const::U64((-a) as u64, UIntStyle::Decimal)))
                } else {
                    Some(Value::ConstLit(Const::U64(a as u64, UIntStyle::Decimal)))
                }
            } else {
                None
            },
            _ => None,
        },
        _ => None,
    }
}

/// What reducing a `pos` primitive application yields.
pub open spec fn pos_ops_spec(p: Prim, args: List<Value>) -> Option<Value> {
    match p {
        Prim::PosAddU8 => match (carg_spec(args, 0), carg_spec(args, 1)) {
            (Some(Const::Pos(p)), Some(Const::U8(n, _))) => if args.slen() == 2 {
                match p.checked_add(n as u64) {
                    Some(v) => Some(Value::ConstLit(Const::Pos(v))),
                    None => None,
                }
            } else {
                None
            },
            _ => None,
        },
        Prim::PosAddU16 => match (carg_spec(args, 0), carg_spec(args, 1)) {
            (Some(Const::Pos(p)), Some(Const::U16(n, _))) => if args.slen() == 2 {
                match p.checked_add(n as u64) {
                    Some(v) => Some(Value::ConstLit(Const::Pos(v))),
                    None => None,
                }
            } else {
                None
            },
            _ => None,
        },
        Prim::PosAddU32 => match (carg_spec(args, 0), carg_spec(args, 1)) {
            (Some(Const::Pos(p)), Some(Const::U32(n, _))) => if args.slen() == 2 {
                match p.checked_add(n as u64) {
                    Some(v) => Some(Value::ConstLit(Const::Pos(v))),
                    None => None,
                }
            } else {
                None
            },
            _ => None,
        },
        Prim::PosAddU64 => match (carg_spec(args, 0), carg_spec(args, 1)) {
            (Some(Const::Pos(p)), Some(Const::U64(n, _))) => if args.slen() == 2 {
                match p.checked_add(n as u64) {
                    Some(v) => Some(Value::ConstLit(Const::Pos(v))),
                    None => None,
                }
            } else {
                None
            },
            _ => None,
        },
        _ => None,
    }
}

/// Executable form of `pos_ops_spec`.
pub fn pos_ops(p: Prim, args: &List<Value>) -> (r: Option<Value>)
    ensures
        r == pos_ops_spec(p, *args),
{
    match p {
        Prim::PosAddU8 => match (carg(args, 0), carg(args, 1)) {
            (Some(Const::Pos(p)), Some(Const::U8(n, _))) => if arity(args, 2) {
                match p.checked_add(n as u64) {
                    Some(v) => Some(Value::ConstLit(Const::Pos(v))),
                    None => None,
                }
            } else {
                None
            },
            _ => None,
        },
        Prim::PosAddU16 => match (carg(args, 0), carg(args, 1)) {
            (Some(Const::Pos(p)), Some(Const::U16(n, _))) => if arity(args, 2) {
                match p.checked_add(n as u64) {
                    Some(v) => Some(Value::ConstLit(Const::Pos(v))),
                    None => None,
                }
            } else {
                None
            },
            _ => None,
        },
        Prim::PosAddU32 => match (carg(args, 0), carg(args, 1)) {
            (Some(Const::Pos(p)), Some(Const::U32(n, _))) => if arity(args, 2) {
                match p.checked_add(n as u64) {
                    Some(v) => Some(Value::ConstLit(Const::Pos(v))),
                    None => None,
                }
            } else {
                None
            },
            _ => None,
        },
        Prim::PosAddU64 => match (carg(args, 0), carg(args, 1)) {
            (Some(Const::Pos(p)), Some(Const::U64(n, _))) => if arity(args, 2) {
                match p.checked_add(n as u64) {
                    Some(v) => Some(Value::ConstLit(Const::Pos(v))),
                    None => None,
                }
            } else {
                None
            },
            _ => None,
        },
        _ => None,
    }
}

/// What reducing a saturated, all-constant application of a functional
/// primitive yields; `None` when no reduction applies.
pub open spec fn prim_arith_spec(p: Prim, args: List<Value>) -> Option<Value> {
    match p {
        Prim::BoolEq
        | Prim::BoolNeq
        | Prim::BoolAnd
        | Prim::BoolOr
        | Prim::BoolXor
        | Prim::BoolNot => bool_ops_spec(p, args),
        Prim::U8Eq
        | Prim::U8Neq
        | Prim::U8Gt
        | Prim::U8Lt
        | Prim::U8Gte
        | Prim::U8Lte
        | Prim::U8Add
        | Prim::U8Sub
        | Prim::U8Mul
        | Prim::U8Div
        | Prim::U8Not
        | Prim::U8Shl
        | Prim::U8Shr
        | Prim::U8And
        | Prim::U8Or
        | Prim::U8Xor => u8_ops_spec(p, args),
        Prim::U16Eq
        | Prim::U16Neq
        | Prim::U16Gt
        | Prim::U16Lt
        | Prim::U16Gte
        | Prim::U16Lte
        | Prim::U16Add
        | Prim::U16Sub
        | Prim::U16Mul
        | Prim::U16Div
        | Prim::U16Not
        | Prim::U16Shl
        | Prim::U16Shr
        | Prim::U16And
        | Prim::U16Or
        | Prim::U16Xor => u16_ops_spec(p, args),
        Prim::U32Eq
        | Prim::U32Neq
        | Prim::U32Gt
        | Prim::U32Lt
        | Prim::U32Gte
        | Prim::U32Lte
        | Prim::U32Add
        | Prim::U32Sub
        | Prim::U32Mul
        | Prim::U32Div
        | Prim::U32Not
        | Prim::U32Shl
        | Prim::U32Shr
        | Prim::U32And
        | Prim::U32Or
        | Prim::U32Xor => u32_ops_spec(p, args),
        Prim::U64Eq
        | Prim::U64Neq
        | Prim::U64Gt
        | Prim::U64Lt
        | Prim::U64Gte
        | Prim::U64Lte
        | Prim::U64Add
        | Prim::U64Sub
        | Prim::U64Mul
        | Prim::U64Div
        | Prim::U64Not
        | Prim::U64Shl
        | Prim::U64Shr
        | Prim::U64And
        | Prim::U64Or
        | Prim::U64Xor => u64_ops_spec(p, args),
        Prim::S8Eq
        | Prim::S8Neq
        | Prim::S8Gt
        | Prim::S8Lt
        | Prim::S8Gte
        | Prim::S8Lte
        | Prim::S8Add
        | Prim::S8Sub
        | Prim::S8Mul
        | Prim::S8Div
        | Prim::S8Neg
        | Prim::S8Abs
        | Prim::S8UAbs => s8_ops_spec(p, args),
        Prim::S16Eq
        | Prim::S16Neq
        | Prim::S16Gt
        | Prim::S16Lt
        | Prim::S16Gte
        | Prim::S16Lte
        | Prim::S16Add
        | Prim::S16Sub
        | Prim::S16Mul
        | Prim::S16Div
        | Prim::S16Neg
        | Prim::S16Abs
        | Prim::S16UAbs => s16_ops_spec(p, args),
        Prim::S32Eq
        | Prim::S32Neq
        | Prim::S32Gt
        | Prim::S32Lt
        | Prim::S32Gte
        | Prim::S32Lte
        | Prim::S32Add
        | Prim::S32Sub
        | Prim::S32Mul
        | Prim::S32Div
        | Prim::S32Neg
        | Prim::S32Abs
        | Prim::S32UAbs => s32_ops_spec(p, args),
        Prim::S64Eq
        | Prim::S64Neq
        | Prim::S64Gt
        | Prim::S64Lt
        | Prim::S64Gte
        | Prim::S64Lte
        | Prim::S64Add
        | Prim::S64Sub
        | Prim::S64Mul
        | Prim::S64Div
        | Prim::S64Neg
        | Prim::S64Abs
        | Prim::S64UAbs => s64_ops_spec(p, args),
        Prim::PosAddU8
        | Prim::PosAddU16
        | Prim::PosAddU32
        | Prim::PosAddU64 => pos_ops_spec(p, args),
        _ => None,
    }
}

/// Reduce a saturated, all-constant application of a functional
/// primitive; `None` when no reduction applies and the application
/// stays stuck.
pub fn prim_arith(p: Prim, args: &List<Value>) -> (r: Option<Value>)
    ensures
        r == prim_arith_spec(p, *args),
{
    match p {
        Prim::BoolEq
        | Prim::BoolNeq
        | Prim::BoolAnd
        | Prim::BoolOr
        | Prim::BoolXor
        | Prim::BoolNot => bool_ops(p, args),
        Prim::U8Eq
        | Prim::U8Neq
        | Prim::U8Gt
        | Prim::U8Lt
        | Prim::U8Gte
        | Prim::U8Lte
        | Prim::U8Add
        | Prim::U8Sub
        | Prim::U8Mul
        | Prim::U8Div
        | Prim::U8Not
        | Prim::U8Shl
        | Prim::U8Shr
        | Prim::U8And
        | Prim::U8Or
        | Prim::U8Xor => u8_ops(p, args),
        Prim::U16Eq
        | Prim::U16Neq
        | Prim::U16Gt
        | Prim::U16Lt
        | Prim::U16Gte
        | Prim::U16Lte
        | Prim::U16Add
        | Prim::U16Sub
        | Prim::U16Mul
        | Prim::U16Div
        | Prim::U16Not
        | Prim::U16Shl
        | Prim::U16Shr
        | Prim::U16And
        | Prim::U16Or
        | Prim::U16Xor => u16_ops(p, args),
        Prim::U32Eq
        | Prim::U32Neq
        | Prim::U32Gt
        | Prim::U32Lt
        | Prim::U32Gte
        | Prim::U32Lte
        | Prim::U32Add
        | Prim::U32Sub
        | Prim::U32Mul
        | Prim::U32Div
        | Prim::U32Not
        | Prim::U32Shl
        | Prim::U32Shr
        | Prim::U32And
        | Prim::U32Or
        | Prim::U32Xor => u32_ops(p, args),
        Prim::U64Eq
        | Prim::U64Neq
        | Prim::U64Gt
        | Prim::U64Lt
        | Prim::U64Gte
        | Prim::U64Lte
        | Prim::U64Add
        | Prim::U64Sub
        | Prim::U64Mul
        | Prim::U64Div
        | Prim::U64Not
        | Prim::U64Shl
        | Prim::U64Shr
        | Prim::U64And
        | Prim::U64Or
        | Prim::U64Xor => u64_ops(p, args),
        Prim::S8Eq
        | Prim::S8Neq
        | Prim::S8Gt
        | Prim::S8Lt
        | Prim::S8Gte
        | Prim::S8Lte
        | Prim::S8Add
        | Prim::S8Sub
        | Prim::S8Mul
        | Prim::S8Div
        | Prim::S8Neg
        | Prim::S8Abs
        | Prim::S8UAbs => s8_ops(p, args),
        Prim::S16Eq
        | Prim::S16Neq
        | Prim::S16Gt
        | Prim::S16Lt
        | Prim::S16Gte
        | Prim::S16Lte
        | Prim::S16Add
        | Prim::S16Sub
        | Prim::S16Mul
        | Prim::S16Div
        | Prim::S16Neg
        | Prim::S16Abs
        | Prim::S16UAbs => s16_ops(p, args),
        Prim::S32Eq
        | Prim::S32Neq
        | Prim::S32Gt
        | Prim::S32Lt
        | Prim::S32Gte
        | Prim::S32Lte
        | Prim::S32Add
        | Prim::S32Sub
        | Prim::S32Mul
        | Prim::S32Div
        | Prim::S32Neg
        | Prim::S32Abs
        | Prim::S32UAbs => s32_ops(p, args),
        Prim::S64Eq
        | Prim::S64Neq
        | Prim::S64Gt
        | Prim::S64Lt
        | Prim::S64Gte
        | Prim::S64Lte
        | Prim::S64Add
        | Prim::S64Sub
        | Prim::S64Mul
        | Prim::S64Div
        | Prim::S64Neg
        | Prim::S64Abs
        | Prim::S64UAbs => s64_ops(p, args),
        Prim::PosAddU8
        | Prim::PosAddU16
        | Prim::PosAddU32
        | Prim::PosAddU64 => pos_ops(p, args),
        _ => None,
    }
}

} // verus!
