//! The core language: terms, primitives and constants.
//!
//! Core terms use de Bruijn *indices* for rigid variables; semantic values
//! (see `semantics`) use de Bruijn *levels*. Record labels and binder names
//! are interned string identifiers supplied by the caller.

use vstd::prelude::*;

verus! {

/// An interned string identifier. The library never inspects the text a
/// `StringId` stands for; interning is the caller's concern.
pub type StringId = u32;

/// A universe level.
#[derive(Debug, Copy, Clone, PartialEq, Eq, Structural)]
pub struct Level(pub u32);

impl Level {
    /// The next universe level up.
    pub fn succ(self) -> (r: Level)
        requires
            self.0 < u32::MAX,
        ensures
            r.0 == self.0 + 1,
    {
        Level(self.0 + 1)
    }
}

/// A homogeneous linked list. Lists of sub-terms, labels and environment
/// entries use this shape so that the same data can be built and taken
/// apart in both specification and executable code.
#[derive(Debug, PartialEq)]
pub enum List<T> {
    Nil,
    Cons(Box<T>, Box<List<T>>),
}

impl<T> List<T> {
    /// The number of entries.
    pub open spec fn slen(self) -> nat
        decreases self,
    {
        match self {
            List::Nil => 0,
            List::Cons(_, rest) => 1 + rest.slen(),
        }
    }

    /// The entry `i` positions from the head, if the list is that long.
    pub open spec fn sget(self, i: nat) -> Option<T>
        decreases self,
    {
        match self {
            List::Nil => None,
            List::Cons(x, rest) => if i == 0 {
                Some(*x)
            } else {
                rest.sget((i - 1) as nat)
            },
        }
    }

    /// The number of entries, as executable code. `None` only when the
    /// length would not fit in `usize`.
    pub fn len(&self) -> (r: Option<usize>)
        ensures
            match r {
                Some(n) => n == self.slen(),
                None => self.slen() > usize::MAX,
            },
        decreases *self,
    {
        match self {
            List::Nil => Some(0),
            List::Cons(_, rest) => {
                match rest.len() {
                    None => None,
                    Some(n) => if n == usize::MAX {
                        None
                    } else {
                        Some(n + 1)
                    },
                }
            },
        }
    }

    /// Borrow the entry `i` positions from the head.
    pub fn get(&self, i: usize) -> (r: Option<&T>)
        ensures
            match r {
                Some(x) => self.sget(i as nat) == Some(*x),
                None => self.sget(i as nat) is None,
            },
        decreases *self,
    {
        match self {
            List::Nil => None,
            List::Cons(x, rest) => if i == 0 {
                Some(&**x)
            } else {
                rest.get(i - 1)
            },
        }
    }
}

/// How an entry was bound in the rigid environment: by a definition
/// (`let`) or as a parameter (lambda or function type binder). Flexible
/// insertions apply a metavariable to the parameters only.
#[derive(Debug, Copy, Clone, PartialEq, Eq, Structural)]
pub enum EntryInfo {
    /// The entry was bound as a definition in the environment.
    Definition,
    /// The entry was bound as a parameter in the environment.
    Parameter,
}

/// Formatting style for unsigned integer literals. Styles are printing
/// metadata only: constant equality ignores them.
#[derive(Debug, Copy, Clone, PartialEq, Eq, Structural)]
pub enum UIntStyle {
    Binary,
    Decimal,
    Hexadecimal,
    /// A four-character code, shown as an ASCII string (big-endian).
    Ascii,
}

impl UIntStyle {
    /// Combine the styles of two equal constants: the default style
    /// (decimal) yields to the other side, equal styles are kept, and any
    /// other mix falls back to decimal.
    pub fn merge(left: UIntStyle, right: UIntStyle) -> (r: UIntStyle)
        ensures
            r == UIntStyle::merge_spec(left, right),
    {
        match (left, right) {
            (UIntStyle::Decimal, style) => style,
            (style, UIntStyle::Decimal) => style,
            (UIntStyle::Binary, UIntStyle::Binary) => UIntStyle::Binary,
            (UIntStyle::Hexadecimal, UIntStyle::Hexadecimal) => UIntStyle::Hexadecimal,
            (UIntStyle::Ascii, UIntStyle::Ascii) => UIntStyle::Ascii,
            (_, _) => UIntStyle::Decimal,
        }
    }

    /// What `merge` returns.
    pub open spec fn merge_spec(left: UIntStyle, right: UIntStyle) -> UIntStyle {
        if left == UIntStyle::Decimal {
            right
        } else if right == UIntStyle::Decimal {
            left
        } else if left == right {
            left
        } else {
            UIntStyle::Decimal
        }
    }
}

/// Constants: booleans, fixed-width integers, IEEE-754 floats held as
/// their bit patterns, stream positions and stream references.
///
/// Floats are carried as raw bit patterns (`F32`/`F64`), so constant
/// equality on them is IEEE bitwise equality: `-0.0 != +0.0`, and a `NaN`
/// equals a `NaN` with the same bits. This keeps equality reflexive.
#[derive(Debug, Copy, Clone)]
pub enum Const {
    Bool(bool),
    U8(u8, UIntStyle),
    U16(u16, UIntStyle),
    U32(u32, UIntStyle),
    U64(u64, UIntStyle),
    S8(i8),
    S16(i16),
    S32(i32),
    S64(i64),
    /// A 32-bit IEEE-754 value, by its bit pattern.
    F32(u32),
    /// A 64-bit IEEE-754 value, by its bit pattern.
    F64(u64),
    /// A stream position.
    Pos(u64),
    /// A stream reference (an absolute position linked to).
    Ref(u64),
}

/// Logical equality of constants: like-kinded values compare by value,
/// ignoring the unsigned integers' printing style.
pub open spec fn const_eq_spec(a: Const, b: Const) -> bool {
    match (a, b) {
        (Const::Bool(x), Const::Bool(y)) => x == y,
        (Const::U8(x, _), Const::U8(y, _)) => x == y,
        (Const::U16(x, _), Const::U16(y, _)) => x == y,
        (Const::U32(x, _), Const::U32(y, _)) => x == y,
        (Const::U64(x, _), Const::U64(y, _)) => x == y,
        (Const::S8(x), Const::S8(y)) => x == y,
        (Const::S16(x), Const::S16(y)) => x == y,
        (Const::S32(x), Const::S32(y)) => x == y,
        (Const::S64(x), Const::S64(y)) => x == y,
        (Const::F32(x), Const::F32(y)) => x == y,
        (Const::F64(x), Const::F64(y)) => x == y,
        (Const::Pos(x), Const::Pos(y)) => x == y,
        (Const::Ref(x), Const::Ref(y)) => x == y,
        (_, _) => false,
    }
}

impl PartialEq for Const {
    /// Logical equality: printing styles are ignored.
    fn eq(&self, other: &Self) -> (r: bool) {
        match (*self, *other) {
            (Const::Bool(x), Const::Bool(y)) => x == y,
            (Const::U8(x, _), Const::U8(y, _)) => x == y,
            (Const::U16(x, _), Const::U16(y, _)) => x == y,
            (Const::U32(x, _), Const::U32(y, _)) => x == y,
            (Const::U64(x, _), Const::U64(y, _)) => x == y,
            (Const::S8(x), Const::S8(y)) => x == y,
            (Const::S16(x), Const::S16(y)) => x == y,
            (Const::S32(x), Const::S32(y)) => x == y,
            (Const::S64(x), Const::S64(y)) => x == y,
            (Const::F32(x), Const::F32(y)) => x == y,
            (Const::F64(x), Const::F64(y)) => x == y,
            (Const::Pos(x), Const::Pos(y)) => x == y,
            (Const::Ref(x), Const::Ref(y)) => x == y,
            (_, _) => false,
        }
    }
}

impl vstd::std_specs::cmp::PartialEqSpecImpl for Const {
    open spec fn obeys_eq_spec() -> bool {
        true
    }

    open spec fn eq_spec(&self, other: &Const) -> bool {
        const_eq_spec(*self, *other)
    }
}

impl Eq for Const {

}

/// The built-in primitives: type constructors, format constructors, and
/// total operations on booleans, integers, options, arrays and positions.
#[derive(Debug, Copy, Clone, PartialEq, Eq, Structural)]
pub enum Prim {
    /// Void type.
    VoidType,
    /// Type of booleans.
    BoolType,
    /// Types of unsigned integers.
    U8Type,
    U16Type,
    U32Type,
    U64Type,
    /// Types of signed, two's complement integers.
    S8Type,
    S16Type,
    S32Type,
    S64Type,
    /// Types of IEEE-754 floating point numbers.
    F32Type,
    F64Type,
    /// Type of optional data.
    OptionType,
    /// Type of dynamically sized arrays.
    ArrayType,
    /// Types of arrays with fixed-width indices.
    Array8Type,
    Array16Type,
    Array32Type,
    Array64Type,
    /// Type of stream positions.
    PosType,
    /// Type of stream references.
    RefType,
    /// Type of format descriptions.
    FormatType,
    /// Unsigned integer formats.
    FormatU8,
    FormatU16Be,
    FormatU16Le,
    FormatU32Be,
    FormatU32Le,
    FormatU64Be,
    FormatU64Le,
    /// Signed, two's complement integer formats.
    FormatS8,
    FormatS16Be,
    FormatS16Le,
    FormatS32Be,
    FormatS32Le,
    FormatS64Be,
    FormatS64Le,
    /// IEEE-754 floating point formats.
    FormatF32Be,
    FormatF32Le,
    FormatF64Be,
    FormatF64Le,
    /// Array formats with fixed-width index types.
    FormatArray8,
    FormatArray16,
    FormatArray32,
    FormatArray64,
    /// Repeat a format until the end of the input is reached.
    FormatRepeatUntilEnd,
    /// A format that returns the current stream position.
    FormatStreamPos,
    /// A format that links to another position in the stream.
    FormatLink,
    /// A format that reads a referenced format eagerly.
    FormatDeref,
    /// A format that always succeeds with some data.
    FormatSucceed,
    /// A format that always fails to read.
    FormatFail,
    /// Unwrap an option, or fail to read.
    FormatUnwrap,
    /// Format representations.
    FormatRepr,
    /// Reported errors.
    ReportedError,
    BoolEq,
    BoolNeq,
    BoolNot,
    BoolAnd,
    BoolOr,
    BoolXor,
    U8Eq,
    U8Neq,
    U8Gt,
    U8Lt,
    U8Gte,
    U8Lte,
    U8Add,
    U8Sub,
    U8Mul,
    U8Div,
    U8Not,
    U8Shl,
    U8Shr,
    U8And,
    U8Or,
    U8Xor,
    U16Eq,
    U16Neq,
    U16Gt,
    U16Lt,
    U16Gte,
    U16Lte,
    U16Add,
    U16Sub,
    U16Mul,
    U16Div,
    U16Not,
    U16Shl,
    U16Shr,
    U16And,
    U16Or,
    U16Xor,
    U32Eq,
    U32Neq,
    U32Gt,
    U32Lt,
    U32Gte,
    U32Lte,
    U32Add,
    U32Sub,
    U32Mul,
    U32Div,
    U32Not,
    U32Shl,
    U32Shr,
    U32And,
    U32Or,
    U32Xor,
    U64Eq,
    U64Neq,
    U64Gt,
    U64Lt,
    U64Gte,
    U64Lte,
    U64Add,
    U64Sub,
    U64Mul,
    U64Div,
    U64Not,
    U64Shl,
    U64Shr,
    U64And,
    U64Or,
    U64Xor,
    S8Eq,
    S8Neq,
    S8Gt,
    S8Lt,
    S8Gte,
    S8Lte,
    S8Neg,
    S8Add,
    S8Sub,
    S8Mul,
    S8Div,
    S8Abs,
    S8UAbs,
    S16Eq,
    S16Neq,
    S16Gt,
    S16Lt,
    S16Gte,
    S16Lte,
    S16Neg,
    S16Add,
    S16Sub,
    S16Mul,
    S16Div,
    S16Abs,
    S16UAbs,
    S32Eq,
    S32Neq,
    S32Gt,
    S32Lt,
    S32Gte,
    S32Lte,
    S32Neg,
    S32Add,
    S32Sub,
    S32Mul,
    S32Div,
    S32Abs,
    S32UAbs,
    S64Eq,
    S64Neq,
    S64Gt,
    S64Lt,
    S64Gte,
    S64Lte,
    S64Neg,
    S64Add,
    S64Sub,
    S64Mul,
    S64Div,
    S64Abs,
    S64UAbs,
    OptionSome,
    OptionNone,
    OptionFold,
    Array8Find,
    Array16Find,
    Array32Find,
    Array64Find,
    PosAddU8,
    PosAddU16,
    PosAddU32,
    PosAddU64,
}

/// Core language terms. Rigid variables are de Bruijn indices into the
/// rigid environment; flexible variables are global metavariable ids.
#[derive(Debug, PartialEq)]
pub enum Term {
    /// A rigid variable occurrence (a de Bruijn index).
    RigidVar(usize),
    /// A flexible (meta-) variable occurrence.
    FlexibleVar(usize),
    /// A flexible variable applied, at evaluation time, to every entry of
    /// the rigid environment that was bound as a parameter.
    FlexibleInsertion(usize, List<EntryInfo>),
    /// A term annotated with a type.
    Ann(Box<Term>, Box<Term>),
    /// A let expression: name, type, definition, body.
    Let(Option<StringId>, Box<Term>, Box<Term>, Box<Term>),
    /// The type of types.
    Universe,
    /// A dependent function type: name, domain, codomain.
    FunType(Option<StringId>, Box<Term>, Box<Term>),
    /// A function literal: name, body.
    FunLit(Option<StringId>, Box<Term>),
    /// A function application.
    FunApp(Box<Term>, Box<Term>),
    /// A dependent record type: labels and field types. Field `i` may
    /// refer to fields `0..i` as rigid variables.
    RecordType(List<StringId>, List<Term>),
    /// A record literal: labels and field terms.
    RecordLit(List<StringId>, List<Term>),
    /// A record projection.
    RecordProj(Box<Term>, StringId),
    /// An array literal.
    ArrayLit(List<Term>),
    /// A record format, whose fields are read in sequence.
    FormatRecord(List<StringId>, List<Term>),
    /// An overlap format, whose fields are all read from the same
    /// starting position.
    FormatOverlap(List<StringId>, List<Term>),
    /// A built-in primitive.
    Prim(Prim),
    /// A constant literal.
    ConstLit(Const),
    /// A match on a constant: scrutinee, pattern/body pairs, and an
    /// optional default body.
    ConstMatch(Box<Term>, List<(Const, Term)>, Option<Box<Term>>),
}

} // verus!
