//! The binary interpreter: reads a byte buffer against a closed format
//! value and produces a host value (constants, arrays and records).
//!
//! Like the evaluator, every operation is a specification function plus
//! an executable function proved to match it. Read failures are reported
//! as values of `ReadError`, never by panicking; `None` still means the
//! fuel ran out.

use vstd::prelude::*;

use crate::semantics::Head;
use crate::semantics::MetaEntry;
use crate::semantics::Telescope;
use crate::semantics::Value;
use crate::semantics::clone_value;
use crate::semantics::eval;
use crate::semantics::eval_spec;
use crate::semantics::force;
use crate::semantics::force_spec;
use crate::semantics::spine_args;
use crate::semantics::spine_args_spec;
use crate::syntax::Const;
use crate::syntax::List;
use crate::syntax::Prim;
use crate::syntax::UIntStyle;

verus! {

/// A binary read failure, with the byte offset at which it arose.
#[derive(Debug, Copy, Clone, PartialEq, Eq, Structural)]
pub enum ReadError {
    /// The buffer ended before the read was complete.
    Eof { offset: u64 },
    /// A `fail` format was read, or `unwrap` met `none`.
    UserFail { offset: u64 },
    /// The format value was not a well-formed format.
    InvalidValue { offset: u64 },
    /// A `repeat_until_end` element read consumed no bytes.
    ZeroWidthRepeat { offset: u64 },
}

/// The unsigned value of two big-endian bytes.
pub open spec fn dec_u16be(b0: u8, b1: u8) -> u16 {
    ((b0 as u16) << 8) | (b1 as u16)
}

/// The unsigned value of two little-endian bytes.
pub open spec fn dec_u16le(b0: u8, b1: u8) -> u16 {
    ((b1 as u16) << 8) | (b0 as u16)
}

/// The unsigned value of four big-endian bytes.
pub open spec fn dec_u32be(b0: u8, b1: u8, b2: u8, b3: u8) -> u32 {
    ((b0 as u32) << 24) | ((b1 as u32) << 16) | ((b2 as u32) << 8) | (b3 as u32)
}

/// The unsigned value of four little-endian bytes.
pub open spec fn dec_u32le(b0: u8, b1: u8, b2: u8, b3: u8) -> u32 {
    dec_u32be(b3, b2, b1, b0)
}

/// The unsigned value of eight big-endian bytes.
pub open spec fn dec_u64be(b0: u8, b1: u8, b2: u8, b3: u8, b4: u8, b5: u8, b6: u8, b7: u8) -> u64 {
    ((b0 as u64) << 56) | ((b1 as u64) << 48) | ((b2 as u64) << 40) | ((b3 as u64) << 32)
        | ((b4 as u64) << 24) | ((b5 as u64) << 16) | ((b6 as u64) << 8) | (b7 as u64)
}

/// The unsigned value of eight little-endian bytes.
pub open spec fn dec_u64le(b0: u8, b1: u8, b2: u8, b3: u8, b4: u8, b5: u8, b6: u8, b7: u8) -> u64 {
    dec_u64be(b7, b6, b5, b4, b3, b2, b1, b0)
}

/// The constant a fixed-width numeric format primitive decodes from the
/// bytes at `pos`, assuming the buffer is long enough; `None` when the
/// primitive is not a numeric format.
pub open spec fn decode_numeric_spec(p: Prim, buf: Seq<u8>, pos: int) -> Option<Const> {
    match p {
        Prim::FormatU8 => Some(Const::U8(buf[pos], UIntStyle::Decimal)),
        Prim::FormatU16Be => Some(Const::U16(dec_u16be(buf[pos], buf[pos + 1]), UIntStyle::Decimal)),
        Prim::FormatU16Le => Some(Const::U16(dec_u16le(buf[pos], buf[pos + 1]), UIntStyle::Decimal)),
        Prim::FormatU32Be => Some(
            Const::U32(dec_u32be(buf[pos], buf[pos + 1], buf[pos + 2], buf[pos + 3]), UIntStyle::Decimal),
        ),
        Prim::FormatU32Le => Some(
            Const::U32(dec_u32le(buf[pos], buf[pos + 1], buf[pos + 2], buf[pos + 3]), UIntStyle::Decimal),
        ),
        Prim::FormatU64Be => Some(
            Const::U64(
                dec_u64be(
                    buf[pos],
                    buf[pos + 1],
                    buf[pos + 2],
                    buf[pos + 3],
                    buf[pos + 4],
                    buf[pos + 5],
                    buf[pos + 6],
                    buf[pos + 7],
                ),
                UIntStyle::Decimal,
            ),
        ),
        Prim::FormatU64Le => Some(
            Const::U64(
                dec_u64le(
                    buf[pos],
                    buf[pos + 1],
                    buf[pos + 2],
                    buf[pos + 3],
                    buf[pos + 4],
                    buf[pos + 5],
                    buf[pos + 6],
                    buf[pos + 7],
                ),
                UIntStyle::Decimal,
            ),
        ),
        Prim::FormatS8 => Some(Const::S8(buf[pos] as i8)),
        Prim::FormatS16Be => Some(Const::S16(dec_u16be(buf[pos], buf[pos + 1]) as i16)),
        Prim::FormatS16Le => Some(Const::S16(dec_u16le(buf[pos], buf[pos + 1]) as i16)),
        Prim::FormatS32Be => Some(
            Const::S32(dec_u32be(buf[pos], buf[pos + 1], buf[pos + 2], buf[pos + 3]) as i32),
        ),
        Prim::FormatS32Le => Some(
            Const::S32(dec_u32le(buf[pos], buf[pos + 1], buf[pos + 2], buf[pos + 3]) as i32),
        ),
        Prim::FormatS64Be => Some(
            Const::S64(
                dec_u64be(
                    buf[pos],
                    buf[pos + 1],
                    buf[pos + 2],
                    buf[pos + 3],
                    buf[pos + 4],
                    buf[pos + 5],
                    buf[pos + 6],
                    buf[pos + 7],
                ) as i64,
            ),
        ),
        Prim::FormatS64Le => Some(
            Const::S64(
                dec_u64le(
                    buf[pos],
                    buf[pos + 1],
                    buf[pos + 2],
                    buf[pos + 3],
                    buf[pos + 4],
                    buf[pos + 5],
                    buf[pos + 6],
                    buf[pos + 7],
                ) as i64,
            ),
        ),
        Prim::FormatF32Be => Some(
            Const::F32(dec_u32be(buf[pos], buf[pos + 1], buf[pos + 2], buf[pos + 3])),
        ),
        Prim::FormatF32Le => Some(
            Const::F32(dec_u32le(buf[pos], buf[pos + 1], buf[pos + 2], buf[pos + 3])),
        ),
        Prim::FormatF64Be => Some(
            Const::F64(
                dec_u64be(
                    buf[pos],
                    buf[pos + 1],
                    buf[pos + 2],
                    buf[pos + 3],
                    buf[pos + 4],
                    buf[pos + 5],
                    buf[pos + 6],
                    buf[pos + 7],
                ),
            ),
        ),
        Prim::FormatF64Le => Some(
            Const::F64(
                dec_u64le(
                    buf[pos],
                    buf[pos + 1],
                    buf[pos + 2],
                    buf[pos + 3],
                    buf[pos + 4],
                    buf[pos + 5],
                    buf[pos + 6],
                    buf[pos + 7],
                ),
            ),
        ),
        _ => None,
    }
}

/// How many bytes a fixed-width numeric format primitive reads; `None`
/// when the primitive is not a numeric format.
pub open spec fn numeric_width_spec(p: Prim) -> Option<u64> {
    match p {
        Prim::FormatU8 | Prim::FormatS8 => Some(1u64),
        Prim::FormatU16Be | Prim::FormatU16Le | Prim::FormatS16Be | Prim::FormatS16Le => Some(2u64),
        Prim::FormatU32Be | Prim::FormatU32Le | Prim::FormatS32Be | Prim::FormatS32Le
            | Prim::FormatF32Be | Prim::FormatF32Le => Some(4u64),
        Prim::FormatU64Be | Prim::FormatU64Le | Prim::FormatS64Be | Prim::FormatS64Le
            | Prim::FormatF64Be | Prim::FormatF64Le => Some(8u64),
        _ => None,
    }
}

/// What reading a fixed-width numeric format at `pos` yields: the
/// decoded constant and the advanced position, or `Eof` at `pos` when
/// fewer bytes remain than the format needs.
pub open spec fn read_numeric_spec(p: Prim, buf: Seq<u8>, pos: u64)
    -> Result<(Value, u64), ReadError> {
    match numeric_width_spec(p) {
        Some(w) => if pos + w <= buf.len() {
            match decode_numeric_spec(p, buf, pos as int) {
                Some(c) => Ok((Value::ConstLit(c), (pos + w) as u64)),
                None => Err(ReadError::InvalidValue { offset: pos }),
            }
        } else {
            Err(ReadError::Eof { offset: pos })
        },
        None => Err(ReadError::InvalidValue { offset: pos }),
    }
}

/// What reading a format value from the buffer at `pos` yields: the host
/// value and the new position, or a read error. The format is forced
/// first, so a solved-metavariable format reads as its solution.
pub open spec fn read_spec(ms: List<MetaEntry>, buf: Seq<u8>, pos: u64, fmt: Value, fuel: nat)
    -> Option<Result<(Value, u64), ReadError>>
    decreases fuel,
{
    if fuel == 0 {
        None
    } else {
        let f = (fuel - 1) as nat;
        match force_spec(ms, fmt, f) {
            None => None,
            Some(fv) => match fv {
                Value::FormatRecord(ls, tele) => match read_record_spec(ms, buf, pos, tele, f) {
                    Some(Ok((vs, pos2))) => Some(Ok((Value::RecordLit(ls, vs), pos2))),
                    Some(Err(e)) => Some(Err(e)),
                    None => None,
                },
                Value::FormatOverlap(ls, tele) => match read_overlap_spec(
                    ms,
                    buf,
                    pos,
                    tele,
                    pos,
                    f,
                ) {
                    Some(Ok((vs, pos2))) => Some(Ok((Value::RecordLit(ls, vs), pos2))),
                    Some(Err(e)) => Some(Err(e)),
                    None => None,
                },
                Value::Stuck(Head::Prim(p), spine) => match spine_args_spec(spine) {
                    Some(args) => read_prim_spec(ms, buf, pos, p, args, f),
                    None => Some(Err(ReadError::InvalidValue { offset: pos })),
                },
                _ => Some(Err(ReadError::InvalidValue { offset: pos })),
            },
        }
    }
}

/// What reading an applied format primitive yields.
pub open spec fn read_prim_spec(
    ms: List<MetaEntry>,
    buf: Seq<u8>,
    pos: u64,
    p: Prim,
    args: List<Value>,
    fuel: nat,
) -> Option<Result<(Value, u64), ReadError>>
    decreases fuel,
{
    if fuel == 0 {
        None
    } else {
        let f = (fuel - 1) as nat;
        match p {
            Prim::FormatStreamPos => if args.slen() == 0 {
                Some(Ok((Value::ConstLit(Const::Pos(pos)), pos)))
            } else {
                Some(Err(ReadError::InvalidValue { offset: pos }))
            },
            Prim::FormatSucceed => if args.slen() == 2 {
                match args.sget(1) {
                    Some(x) => Some(Ok((x, pos))),
                    None => Some(Err(ReadError::InvalidValue { offset: pos })),
                }
            } else {
                Some(Err(ReadError::InvalidValue { offset: pos }))
            },
            Prim::FormatFail => if args.slen() == 1 {
                Some(Err(ReadError::UserFail { offset: pos }))
            } else {
                Some(Err(ReadError::InvalidValue { offset: pos }))
            },
            Prim::FormatUnwrap => if args.slen() == 2 {
                match args.sget(1) {
                    Some(opt) => match force_spec(ms, opt, f) {
                        Some(Value::Stuck(Head::Prim(Prim::OptionSome), osp)) => match spine_args_spec(
                            osp,
                        ) {
                            Some(oargs) => if oargs.slen() == 2 {
                                match oargs.sget(1) {
                                    Some(v) => Some(Ok((v, pos))),
                                    None => Some(Err(ReadError::InvalidValue { offset: pos })),
                                }
                            } else {
                                Some(Err(ReadError::InvalidValue { offset: pos }))
                            },
                            None => Some(Err(ReadError::InvalidValue { offset: pos })),
                        },
                        Some(Value::Stuck(Head::Prim(Prim::OptionNone), _)) => Some(
                            Err(ReadError::UserFail { offset: pos }),
                        ),
                        Some(_) => Some(Err(ReadError::InvalidValue { offset: pos })),
                        None => None,
                    },
                    None => Some(Err(ReadError::InvalidValue { offset: pos })),
                }
            } else {
                Some(Err(ReadError::InvalidValue { offset: pos }))
            },
            Prim::FormatLink => if args.slen() == 2 {
                match args.sget(0) {
                    Some(base) => match force_spec(ms, base, f) {
                        Some(Value::ConstLit(Const::Pos(b))) => Some(
                            Ok((Value::ConstLit(Const::Ref(b)), pos)),
                        ),
                        Some(_) => Some(Err(ReadError::InvalidValue { offset: pos })),
                        None => None,
                    },
                    None => Some(Err(ReadError::InvalidValue { offset: pos })),
                }
            } else {
                Some(Err(ReadError::InvalidValue { offset: pos }))
            },
            Prim::FormatDeref => if args.slen() == 2 {
                match (args.sget(0), args.sget(1)) {
                    (Some(f2), Some(r)) => match force_spec(ms, r, f) {
                        Some(Value::ConstLit(Const::Ref(b))) => match read_spec(ms, buf, b, f2, f) {
                            Some(Ok((v, _end))) => Some(Ok((v, pos))),
                            Some(Err(e)) => Some(Err(e)),
                            None => None,
                        },
                        Some(_) => Some(Err(ReadError::InvalidValue { offset: pos })),
                        None => None,
                    },
                    (_, _) => Some(Err(ReadError::InvalidValue { offset: pos })),
                }
            } else {
                Some(Err(ReadError::InvalidValue { offset: pos }))
            },
            Prim::FormatArray8 | Prim::FormatArray16 | Prim::FormatArray32 | Prim::FormatArray64 => if args.slen()
                == 2 {
                match (args.sget(0), args.sget(1)) {
                    (Some(n), Some(f2)) => match force_spec(ms, n, f) {
                        Some(nv) => match array_count_spec(p, nv) {
                            Some(count) => match read_array_spec(ms, buf, pos, count, f2, f) {
                                Some(Ok((vs, pos2))) => Some(Ok((Value::ArrayLit(vs), pos2))),
                                Some(Err(e)) => Some(Err(e)),
                                None => None,
                            },
                            None => Some(Err(ReadError::InvalidValue { offset: pos })),
                        },
                        None => None,
                    },
                    (_, _) => Some(Err(ReadError::InvalidValue { offset: pos })),
                }
            } else {
                Some(Err(ReadError::InvalidValue { offset: pos }))
            },
            Prim::FormatRepeatUntilEnd => if args.slen() == 1 {
                match args.sget(0) {
                    Some(f2) => match read_repeat_spec(ms, buf, pos, f2, f) {
                        Some(Ok((vs, pos2))) => Some(Ok((Value::ArrayLit(vs), pos2))),
                        Some(Err(e)) => Some(Err(e)),
                        None => None,
                    },
                    None => Some(Err(ReadError::InvalidValue { offset: pos })),
                }
            } else {
                Some(Err(ReadError::InvalidValue { offset: pos }))
            },
            _ => if args.slen() == 0 && numeric_width_spec(p) is Some {
                Some(read_numeric_spec(p, buf, pos))
            } else {
                Some(Err(ReadError::InvalidValue { offset: pos }))
            },
        }
    }
}

/// The element count of an array format, which must be an unsigned
/// constant of the width matching the array format's index type.
pub open spec fn array_count_spec(p: Prim, n: Value) -> Option<u64> {
    match (p, n) {
        (Prim::FormatArray8, Value::ConstLit(Const::U8(k, _))) => Some(k as u64),
        (Prim::FormatArray16, Value::ConstLit(Const::U16(k, _))) => Some(k as u64),
        (Prim::FormatArray32, Value::ConstLit(Const::U32(k, _))) => Some(k as u64),
        (Prim::FormatArray64, Value::ConstLit(Const::U64(k, _))) => Some(k),
        (_, _) => None,
    }
}

/// Read `count` repetitions of a format, in sequence.
pub open spec fn read_array_spec(
    ms: List<MetaEntry>,
    buf: Seq<u8>,
    pos: u64,
    count: u64,
    fmt: Value,
    fuel: nat,
) -> Option<Result<(List<Value>, u64), ReadError>>
    decreases fuel,
{
    if fuel == 0 {
        None
    } else {
        let f = (fuel - 1) as nat;
        if count == 0 {
            Some(Ok((List::Nil, pos)))
        } else {
            match read_spec(ms, buf, pos, fmt, f) {
                Some(Ok((v, pos2))) => match read_array_spec(
                    ms,
                    buf,
                    pos2,
                    (count - 1) as u64,
                    fmt,
                    f,
                ) {
                    Some(Ok((vs, pos3))) => Some(Ok((List::Cons(Box::new(v), Box::new(vs)), pos3))),
                    other => other,
                },
                Some(Err(e)) => Some(Err(e)),
                None => None,
            }
        }
    }
}

/// Read a format repeatedly until the end of the buffer. A successful
/// element read that does not advance the position fails with
/// `ZeroWidthRepeat`, so every iteration strictly advances.
pub open spec fn read_repeat_spec(ms: List<MetaEntry>, buf: Seq<u8>, pos: u64, fmt: Value, fuel: nat)
    -> Option<Result<(List<Value>, u64), ReadError>>
    decreases fuel,
{
    if fuel == 0 {
        None
    } else {
        let f = (fuel - 1) as nat;
        if pos >= buf.len() {
            Some(Ok((List::Nil, pos)))
        } else {
            match read_spec(ms, buf, pos, fmt, f) {
                Some(Ok((v, pos2))) => if pos2 == pos {
                    Some(Err(ReadError::ZeroWidthRepeat { offset: pos }))
                } else {
                    match read_repeat_spec(ms, buf, pos2, fmt, f) {
                        Some(Ok((vs, pos3))) => Some(
                            Ok((List::Cons(Box::new(v), Box::new(vs)), pos3)),
                        ),
                        other => other,
                    }
                },
                Some(Err(e)) => Some(Err(e)),
                None => None,
            }
        }
    }
}

/// Read the fields of a record format in sequence: each field's format
/// is evaluated under the telescope environment extended with the host
/// values already read, so later fields may depend on earlier ones.
pub open spec fn read_record_spec(ms: List<MetaEntry>, buf: Seq<u8>, pos: u64, tele: Telescope, fuel: nat)
    -> Option<Result<(List<Value>, u64), ReadError>>
    decreases fuel,
{
    if fuel == 0 {
        None
    } else {
        let f = (fuel - 1) as nat;
        match *tele.terms {
            List::Nil => Some(Ok((List::Nil, pos))),
            List::Cons(t, rest) => match eval_spec(ms, *tele.env, *t, f) {
                Some(fv) => match read_spec(ms, buf, pos, fv, f) {
                    Some(Ok((v, pos2))) => match read_record_spec(
                        ms,
                        buf,
                        pos2,
                        Telescope {
                            env: Box::new(List::Cons(Box::new(v), tele.env)),
                            terms: rest,
                        },
                        f,
                    ) {
                        Some(Ok((vs, pos3))) => Some(
                            Ok((List::Cons(Box::new(v), Box::new(vs)), pos3)),
                        ),
                        other => other,
                    },
                    Some(Err(e)) => Some(Err(e)),
                    None => None,
                },
                None => None,
            },
        }
    }
}

/// Read the fields of an overlap format: every field is read from the
/// same starting position, and the final position is the greatest end
/// position of any field.
pub open spec fn read_overlap_spec(
    ms: List<MetaEntry>,
    buf: Seq<u8>,
    start: u64,
    tele: Telescope,
    maxpos: u64,
    fuel: nat,
) -> Option<Result<(List<Value>, u64), ReadError>>
    decreases fuel,
{
    if fuel == 0 {
        None
    } else {
        let f = (fuel - 1) as nat;
        match *tele.terms {
            List::Nil => Some(Ok((List::Nil, maxpos))),
            List::Cons(t, rest) => match eval_spec(ms, *tele.env, *t, f) {
                Some(fv) => match read_spec(ms, buf, start, fv, f) {
                    Some(Ok((v, pos2))) => match read_overlap_spec(
                        ms,
                        buf,
                        start,
                        Telescope {
                            env: Box::new(List::Cons(Box::new(v), tele.env)),
                            terms: rest,
                        },
                        if pos2 > maxpos {
                            pos2
                        } else {
                            maxpos
                        },
                        f,
                    ) {
                        Some(Ok((vs, pos3))) => Some(
                            Ok((List::Cons(Box::new(v), Box::new(vs)), pos3)),
                        ),
                        other => other,
                    },
                    Some(Err(e)) => Some(Err(e)),
                    None => None,
                },
                None => None,
            },
        }
    }
}

} // verus!

verus! {

/// How many bytes a fixed-width numeric format primitive reads.
pub fn numeric_width(p: Prim) -> (r: Option<u64>)
    ensures
        r == numeric_width_spec(p),
{
    match p {
        Prim::FormatU8 | Prim::FormatS8 => Some(1u64),
        Prim::FormatU16Be | Prim::FormatU16Le | Prim::FormatS16Be | Prim::FormatS16Le => Some(2u64),
        Prim::FormatU32Be | Prim::FormatU32Le | Prim::FormatS32Be | Prim::FormatS32Le
            | Prim::FormatF32Be | Prim::FormatF32Le => Some(4u64),
        Prim::FormatU64Be | Prim::FormatU64Le | Prim::FormatS64Be | Prim::FormatS64Le
            | Prim::FormatF64Be | Prim::FormatF64Le => Some(8u64),
        _ => None,
    }
}

/// Read a fixed-width numeric format at `pos` (see `read_numeric_spec`).
pub fn read_numeric(p: Prim, buf: &Vec<u8>, pos: u64) -> (r: Result<(Value, u64), ReadError>)
    ensures
        r == read_numeric_spec(p, buf@, pos),
{
    let len: u64 = buf.len() as u64;
    match numeric_width(p) {
        Some(w) => if pos <= len && w <= len - pos {
            let i = pos as usize;
            let c: Option<Const> = match p {
                Prim::FormatU8 => Some(Const::U8(buf[i], UIntStyle::Decimal)),
                Prim::FormatU16Be => Some(
                    Const::U16(((buf[i] as u16) << 8u16) | (buf[i + 1] as u16), UIntStyle::Decimal),
                ),
                Prim::FormatU16Le => Some(
                    Const::U16(((buf[i + 1] as u16) << 8u16) | (buf[i] as u16), UIntStyle::Decimal),
                ),
                Prim::FormatU32Be => Some(
                    Const::U32(
                        ((buf[i] as u32) << 24u32) | ((buf[i + 1] as u32) << 16u32) | ((buf[i + 2] as u32)
                            << 8u32) | (buf[i + 3] as u32),
                        UIntStyle::Decimal,
                    ),
                ),
                Prim::FormatU32Le => Some(
                    Const::U32(
                        ((buf[i + 3] as u32) << 24u32) | ((buf[i + 2] as u32) << 16u32) | ((buf[i + 1] as u32)
                            << 8u32) | (buf[i] as u32),
                        UIntStyle::Decimal,
                    ),
                ),
                Prim::FormatU64Be => Some(
                    Const::U64(
                        ((buf[i] as u64) << 56u64) | ((buf[i + 1] as u64) << 48u64) | ((buf[i + 2] as u64)
                            << 40u64) | ((buf[i + 3] as u64) << 32u64) | ((buf[i + 4] as u64) << 24u64) | ((
                        buf[i + 5] as u64) << 16u64) | ((buf[i + 6] as u64) << 8u64) | (buf[i + 7] as u64),
                        UIntStyle::Decimal,
                    ),
                ),
                Prim::FormatU64Le => Some(
                    Const::U64(
                        ((buf[i + 7] as u64) << 56u64) | ((buf[i + 6] as u64) << 48u64) | ((buf[i + 5] as u64)
                            << 40u64) | ((buf[i + 4] as u64) << 32u64) | ((buf[i + 3] as u64) << 24u64) | ((
                        buf[i + 2] as u64) << 16u64) | ((buf[i + 1] as u64) << 8u64) | (buf[i] as u64),
                        UIntStyle::Decimal,
                    ),
                ),
                Prim::FormatS8 => Some(Const::S8(buf[i] as i8)),
                Prim::FormatS16Be => Some(
                    Const::S16((((buf[i] as u16) << 8u16) | (buf[i + 1] as u16)) as i16),
                ),
                Prim::FormatS16Le => Some(
                    Const::S16((((buf[i + 1] as u16) << 8u16) | (buf[i] as u16)) as i16),
                ),
                Prim::FormatS32Be => Some(
                    Const::S32(
                        (((buf[i] as u32) << 24u32) | ((buf[i + 1] as u32) << 16u32) | ((buf[i + 2] as u32)
                            << 8u32) | (buf[i + 3] as u32)) as i32,
                    ),
                ),
                Prim::FormatS32Le => Some(
                    Const::S32(
                        (((buf[i + 3] as u32) << 24u32) | ((buf[i + 2] as u32) << 16u32) | ((buf[i + 1] as u32)
                            << 8u32) | (buf[i] as u32)) as i32,
                    ),
                ),
                Prim::FormatS64Be => Some(
                    Const::S64(
                        (((buf[i] as u64) << 56u64) | ((buf[i + 1] as u64) << 48u64) | ((buf[i + 2] as u64)
                            << 40u64) | ((buf[i + 3] as u64) << 32u64) | ((buf[i + 4] as u64) << 24u64) | ((
                        buf[i + 5] as u64) << 16u64) | ((buf[i + 6] as u64) << 8u64) | (buf[i + 7] as u64))
                            as i64,
                    ),
                ),
                Prim::FormatS64Le => Some(
                    Const::S64(
                        (((buf[i + 7] as u64) << 56u64) | ((buf[i + 6] as u64) << 48u64) | ((buf[i + 5] as u64)
                            << 40u64) | ((buf[i + 4] as u64) << 32u64) | ((buf[i + 3] as u64) << 24u64) | ((
                        buf[i + 2] as u64) << 16u64) | ((buf[i + 1] as u64) << 8u64) | (buf[i] as u64))
                            as i64,
                    ),
                ),
                Prim::FormatF32Be => Some(
                    Const::F32(
                        ((buf[i] as u32) << 24u32) | ((buf[i + 1] as u32) << 16u32) | ((buf[i + 2] as u32)
                            << 8u32) | (buf[i + 3] as u32),
                    ),
                ),
                Prim::FormatF32Le => Some(
                    Const::F32(
                        ((buf[i + 3] as u32) << 24u32) | ((buf[i + 2] as u32) << 16u32) | ((buf[i + 1] as u32)
                            << 8u32) | (buf[i] as u32),
                    ),
                ),
                Prim::FormatF64Be => Some(
                    Const::F64(
                        ((buf[i] as u64) << 56u64) | ((buf[i + 1] as u64) << 48u64) | ((buf[i + 2] as u64)
                            << 40u64) | ((buf[i + 3] as u64) << 32u64) | ((buf[i + 4] as u64) << 24u64) | ((
                        buf[i + 5] as u64) << 16u64) | ((buf[i + 6] as u64) << 8u64) | (buf[i + 7] as u64),
                    ),
                ),
                Prim::FormatF64Le => Some(
                    Const::F64(
                        ((buf[i + 7] as u64) << 56u64) | ((buf[i + 6] as u64) << 48u64) | ((buf[i + 5] as u64)
                            << 40u64) | ((buf[i + 4] as u64) << 32u64) | ((buf[i + 3] as u64) << 24u64) | ((
                        buf[i + 2] as u64) << 16u64) | ((buf[i + 1] as u64) << 8u64) | (buf[i] as u64),
                    ),
                ),
                _ => None,
            };
            match c {
                Some(c) => Ok((Value::ConstLit(c), pos + w)),
                None => Err(ReadError::InvalidValue { offset: pos }),
            }
        } else {
            Err(ReadError::Eof { offset: pos })
        },
        None => Err(ReadError::InvalidValue { offset: pos }),
    }
}

/// Read a format value from the buffer at `pos` (see `read_spec`).
pub fn read(ms: &List<MetaEntry>, buf: &Vec<u8>, pos: u64, fmt: Value, fuel: u64)
    -> (r: Option<Result<(Value, u64), ReadError>>)
    ensures
        r == read_spec(*ms, buf@, pos, fmt, fuel as nat),
    decreases fuel,
{
    if fuel == 0 {
        return None;
    }
    let f = fuel - 1;
    match force(ms, fmt, f) {
        None => None,
        Some(fv) => match fv {
            Value::FormatRecord(ls, tele) => match read_record(ms, buf, pos, tele, f) {
                Some(Ok((vs, pos2))) => Some(Ok((Value::RecordLit(ls, vs), pos2))),
                Some(Err(e)) => Some(Err(e)),
                None => None,
            },
            Value::FormatOverlap(ls, tele) => match read_overlap(ms, buf, pos, tele, pos, f) {
                Some(Ok((vs, pos2))) => Some(Ok((Value::RecordLit(ls, vs), pos2))),
                Some(Err(e)) => Some(Err(e)),
                None => None,
            },
            Value::Stuck(Head::Prim(p), spine) => match spine_args(&spine) {
                Some(args) => read_prim(ms, buf, pos, p, args, f),
                None => Some(Err(ReadError::InvalidValue { offset: pos })),
            },
            _ => Some(Err(ReadError::InvalidValue { offset: pos })),
        },
    }
}

/// Read an applied format primitive (see `read_prim_spec`).
pub fn read_prim(ms: &List<MetaEntry>, buf: &Vec<u8>, pos: u64, p: Prim, args: List<Value>, fuel: u64)
    -> (r: Option<Result<(Value, u64), ReadError>>)
    ensures
        r == read_prim_spec(*ms, buf@, pos, p, args, fuel as nat),
    decreases fuel,
{
    if fuel == 0 {
        return None;
    }
    let f = fuel - 1;
    match p {
        Prim::FormatStreamPos => if crate::prims::arity(&args, 0) {
            Some(Ok((Value::ConstLit(Const::Pos(pos)), pos)))
        } else {
            Some(Err(ReadError::InvalidValue { offset: pos }))
        },
        Prim::FormatSucceed => if crate::prims::arity(&args, 2) {
            match args.get(1) {
                Some(x) => Some(Ok((clone_value(x), pos))),
                None => Some(Err(ReadError::InvalidValue { offset: pos })),
            }
        } else {
            Some(Err(ReadError::InvalidValue { offset: pos }))
        },
        Prim::FormatFail => if crate::prims::arity(&args, 1) {
            Some(Err(ReadError::UserFail { offset: pos }))
        } else {
            Some(Err(ReadError::InvalidValue { offset: pos }))
        },
        Prim::FormatUnwrap => if crate::prims::arity(&args, 2) {
            match args.get(1) {
                Some(opt) => match force(ms, clone_value(opt), f) {
                    Some(o) => match o {
                        Value::Stuck(Head::Prim(Prim::OptionSome), osp) => match spine_args(&osp) {
                            Some(oargs) => if crate::prims::arity(&oargs, 2) {
                                match oargs.get(1) {
                                    Some(v) => Some(Ok((clone_value(v), pos))),
                                    None => Some(Err(ReadError::InvalidValue { offset: pos })),
                                }
                            } else {
                                Some(Err(ReadError::InvalidValue { offset: pos }))
                            },
                            None => Some(Err(ReadError::InvalidValue { offset: pos })),
                        },
                        Value::Stuck(Head::Prim(Prim::OptionNone), _) => Some(
                            Err(ReadError::UserFail { offset: pos }),
                        ),
                        _ => Some(Err(ReadError::InvalidValue { offset: pos })),
                    },
                    None => None,
                },
                None => Some(Err(ReadError::InvalidValue { offset: pos })),
            }
        } else {
            Some(Err(ReadError::InvalidValue { offset: pos }))
        },
        Prim::FormatLink => if crate::prims::arity(&args, 2) {
            match args.get(0) {
                Some(base) => match force(ms, clone_value(base), f) {
                    Some(b) => match b {
                        Value::ConstLit(Const::Pos(b)) => Some(
                            Ok((Value::ConstLit(Const::Ref(b)), pos)),
                        ),
                        _ => Some(Err(ReadError::InvalidValue { offset: pos })),
                    },
                    None => None,
                },
                None => Some(Err(ReadError::InvalidValue { offset: pos })),
            }
        } else {
            Some(Err(ReadError::InvalidValue { offset: pos }))
        },
        Prim::FormatDeref => if crate::prims::arity(&args, 2) {
            match (args.get(0), args.get(1)) {
                (Some(f2), Some(r)) => match force(ms, clone_value(r), f) {
                    Some(rv) => match rv {
                        Value::ConstLit(Const::Ref(b)) => match read(ms, buf, b, clone_value(f2), f) {
                            Some(Ok((v, _end))) => Some(Ok((v, pos))),
                            Some(Err(e)) => Some(Err(e)),
                            None => None,
                        },
                        _ => Some(Err(ReadError::InvalidValue { offset: pos })),
                    },
                    None => None,
                },
                (_, _) => Some(Err(ReadError::InvalidValue { offset: pos })),
            }
        } else {
            Some(Err(ReadError::InvalidValue { offset: pos }))
        },
        Prim::FormatArray8 | Prim::FormatArray16 | Prim::FormatArray32 | Prim::FormatArray64 => if crate::prims::arity(
            &args,
            2,
        ) {
            match (args.get(0), args.get(1)) {
                (Some(n), Some(f2)) => match force(ms, clone_value(n), f) {
                    Some(nv) => match array_count(p, &nv) {
                        Some(count) => match read_array(ms, buf, pos, count, f2, f) {
                            Some(Ok((vs, pos2))) => Some(Ok((Value::ArrayLit(vs), pos2))),
                            Some(Err(e)) => Some(Err(e)),
                            None => None,
                        },
                        None => Some(Err(ReadError::InvalidValue { offset: pos })),
                    },
                    None => None,
                },
                (_, _) => Some(Err(ReadError::InvalidValue { offset: pos })),
            }
        } else {
            Some(Err(ReadError::InvalidValue { offset: pos }))
        },
        Prim::FormatRepeatUntilEnd => if crate::prims::arity(&args, 1) {
            match args.get(0) {
                Some(f2) => match read_repeat(ms, buf, pos, f2, f) {
                    Some(Ok((vs, pos2))) => Some(Ok((Value::ArrayLit(vs), pos2))),
                    Some(Err(e)) => Some(Err(e)),
                    None => None,
                },
                None => Some(Err(ReadError::InvalidValue { offset: pos })),
            }
        } else {
            Some(Err(ReadError::InvalidValue { offset: pos }))
        },
        _ => if crate::prims::arity(&args, 0) && numeric_width(p).is_some() {
            Some(read_numeric(p, buf, pos))
        } else {
            Some(Err(ReadError::InvalidValue { offset: pos }))
        },
    }
}

/// The element count of an array format (see `array_count_spec`).
pub fn array_count(p: Prim, n: &Value) -> (r: Option<u64>)
    ensures
        r == array_count_spec(p, *n),
{
    match (p, n) {
        (Prim::FormatArray8, Value::ConstLit(Const::U8(k, _))) => Some(*k as u64),
        (Prim::FormatArray16, Value::ConstLit(Const::U16(k, _))) => Some(*k as u64),
        (Prim::FormatArray32, Value::ConstLit(Const::U32(k, _))) => Some(*k as u64),
        (Prim::FormatArray64, Value::ConstLit(Const::U64(k, _))) => Some(*k),
        (_, _) => None,
    }
}

/// Read `count` repetitions of a format (see `read_array_spec`).
pub fn read_array(ms: &List<MetaEntry>, buf: &Vec<u8>, pos: u64, count: u64, fmt: &Value, fuel: u64)
    -> (r: Option<Result<(List<Value>, u64), ReadError>>)
    ensures
        r == read_array_spec(*ms, buf@, pos, count, *fmt, fuel as nat),
    decreases fuel,
{
    if fuel == 0 {
        return None;
    }
    let f = fuel - 1;
    if count == 0 {
        Some(Ok((List::Nil, pos)))
    } else {
        match read(ms, buf, pos, clone_value(fmt), f) {
            Some(Ok((v, pos2))) => match read_array(ms, buf, pos2, count - 1, fmt, f) {
                Some(Ok((vs, pos3))) => Some(Ok((List::Cons(Box::new(v), Box::new(vs)), pos3))),
                other => other,
            },
            Some(Err(e)) => Some(Err(e)),
            None => None,
        }
    }
}

/// Read a format repeatedly until the end of the buffer (see
/// `read_repeat_spec`).
pub fn read_repeat(ms: &List<MetaEntry>, buf: &Vec<u8>, pos: u64, fmt: &Value, fuel: u64)
    -> (r: Option<Result<(List<Value>, u64), ReadError>>)
    ensures
        r == read_repeat_spec(*ms, buf@, pos, *fmt, fuel as nat),
    decreases fuel,
{
    if fuel == 0 {
        return None;
    }
    let f = fuel - 1;
    if pos >= buf.len() as u64 {
        Some(Ok((List::Nil, pos)))
    } else {
        match read(ms, buf, pos, clone_value(fmt), f) {
            Some(Ok((v, pos2))) => if pos2 == pos {
                Some(Err(ReadError::ZeroWidthRepeat { offset: pos }))
            } else {
                match read_repeat(ms, buf, pos2, fmt, f) {
                    Some(Ok((vs, pos3))) => Some(Ok((List::Cons(Box::new(v), Box::new(vs)), pos3))),
                    other => other,
                }
            },
            Some(Err(e)) => Some(Err(e)),
            None => None,
        }
    }
}

/// Read the fields of a record format (see `read_record_spec`).
pub fn read_record(ms: &List<MetaEntry>, buf: &Vec<u8>, pos: u64, tele: Telescope, fuel: u64)
    -> (r: Option<Result<(List<Value>, u64), ReadError>>)
    ensures
        r == read_record_spec(*ms, buf@, pos, tele, fuel as nat),
    decreases fuel,
{
    if fuel == 0 {
        return None;
    }
    let f = fuel - 1;
    match *tele.terms {
        List::Nil => Some(Ok((List::Nil, pos))),
        List::Cons(t, rest) => match eval(ms, &tele.env, &t, f) {
            Some(fv) => match read(ms, buf, pos, fv, f) {
                Some(Ok((v, pos2))) => {
                    let v2 = clone_value(&v);
                    match read_record(
                        ms,
                        buf,
                        pos2,
                        Telescope { env: Box::new(List::Cons(Box::new(v2), tele.env)), terms: rest },
                        f,
                    ) {
                        Some(Ok((vs, pos3))) => Some(
                            Ok((List::Cons(Box::new(v), Box::new(vs)), pos3)),
                        ),
                        other => other,
                    }
                },
                Some(Err(e)) => Some(Err(e)),
                None => None,
            },
            None => None,
        },
    }
}

/// Read the fields of an overlap format (see `read_overlap_spec`).
pub fn read_overlap(
    ms: &List<MetaEntry>,
    buf: &Vec<u8>,
    start: u64,
    tele: Telescope,
    maxpos: u64,
    fuel: u64,
) -> (r: Option<Result<(List<Value>, u64), ReadError>>)
    ensures
        r == read_overlap_spec(*ms, buf@, start, tele, maxpos, fuel as nat),
    decreases fuel,
{
    if fuel == 0 {
        return None;
    }
    let f = fuel - 1;
    match *tele.terms {
        List::Nil => Some(Ok((List::Nil, maxpos))),
        List::Cons(t, rest) => match eval(ms, &tele.env, &t, f) {
            Some(fv) => match read(ms, buf, start, fv, f) {
                Some(Ok((v, pos2))) => {
                    let v2 = clone_value(&v);
                    match read_overlap(
                        ms,
                        buf,
                        start,
                        Telescope { env: Box::new(List::Cons(Box::new(v2), tele.env)), terms: rest },
                        if pos2 > maxpos {
                            pos2
                        } else {
                            maxpos
                        },
                        f,
                    ) {
                        Some(Ok((vs, pos3))) => Some(
                            Ok((List::Cons(Box::new(v), Box::new(vs)), pos3)),
                        ),
                        other => other,
                    }
                },
                Some(Err(e)) => Some(Err(e)),
                None => None,
            },
            None => None,
        },
    }
}

} // verus!

verus! {

/// The two big-endian bytes of an unsigned value.
pub open spec fn enc_u16be(v: u16) -> Seq<u8> {
    seq![(v >> 8) as u8, v as u8]
}

/// The two little-endian bytes of an unsigned value.
pub open spec fn enc_u16le(v: u16) -> Seq<u8> {
    seq![v as u8, (v >> 8) as u8]
}

/// The four big-endian bytes of an unsigned value.
pub open spec fn enc_u32be(v: u32) -> Seq<u8> {
    seq![(v >> 24) as u8, (v >> 16) as u8, (v >> 8) as u8, v as u8]
}

/// The four little-endian bytes of an unsigned value.
pub open spec fn enc_u32le(v: u32) -> Seq<u8> {
    seq![v as u8, (v >> 8) as u8, (v >> 16) as u8, (v >> 24) as u8]
}

/// The eight big-endian bytes of an unsigned value.
pub open spec fn enc_u64be(v: u64) -> Seq<u8> {
    seq![
        (v >> 56) as u8,
        (v >> 48) as u8,
        (v >> 40) as u8,
        (v >> 32) as u8,
        (v >> 24) as u8,
        (v >> 16) as u8,
        (v >> 8) as u8,
        v as u8,
    ]
}

/// The eight little-endian bytes of an unsigned value.
pub open spec fn enc_u64le(v: u64) -> Seq<u8> {
    seq![
        v as u8,
        (v >> 8) as u8,
        (v >> 16) as u8,
        (v >> 24) as u8,
        (v >> 32) as u8,
        (v >> 40) as u8,
        (v >> 48) as u8,
        (v >> 56) as u8,
    ]
}

/// The bytes a fixed-width numeric format primitive writes for a
/// constant of its host type; `None` when the primitive is not numeric
/// or the constant is of the wrong kind.
pub open spec fn enc_numeric_spec(p: Prim, c: Const) -> Option<Seq<u8>> {
    match (p, c) {
        (Prim::FormatU8, Const::U8(v, _)) => Some(seq![v]),
        (Prim::FormatU16Be, Const::U16(v, _)) => Some(enc_u16be(v)),
        (Prim::FormatU16Le, Const::U16(v, _)) => Some(enc_u16le(v)),
        (Prim::FormatU32Be, Const::U32(v, _)) => Some(enc_u32be(v)),
        (Prim::FormatU32Le, Const::U32(v, _)) => Some(enc_u32le(v)),
        (Prim::FormatU64Be, Const::U64(v, _)) => Some(enc_u64be(v)),
        (Prim::FormatU64Le, Const::U64(v, _)) => Some(enc_u64le(v)),
        (Prim::FormatS8, Const::S8(v)) => Some(seq![v as u8]),
        (Prim::FormatS16Be, Const::S16(v)) => Some(enc_u16be(v as u16)),
        (Prim::FormatS16Le, Const::S16(v)) => Some(enc_u16le(v as u16)),
        (Prim::FormatS32Be, Const::S32(v)) => Some(enc_u32be(v as u32)),
        (Prim::FormatS32Le, Const::S32(v)) => Some(enc_u32le(v as u32)),
        (Prim::FormatS64Be, Const::S64(v)) => Some(enc_u64be(v as u64)),
        (Prim::FormatS64Le, Const::S64(v)) => Some(enc_u64le(v as u64)),
        (Prim::FormatF32Be, Const::F32(v)) => Some(enc_u32be(v)),
        (Prim::FormatF32Le, Const::F32(v)) => Some(enc_u32le(v)),
        (Prim::FormatF64Be, Const::F64(v)) => Some(enc_u64be(v)),
        (Prim::FormatF64Le, Const::F64(v)) => Some(enc_u64le(v)),
        (_, _) => None,
    }
}

/// A two-byte buffer.
fn vec2(a: u8, b: u8) -> (r: Vec<u8>)
    ensures
        r@ == seq![a, b],
{
    let mut r: Vec<u8> = Vec::new();
    r.push(a);
    r.push(b);
    proof {
        assert(r@ =~= seq![a, b]);
    }
    r
}

/// A four-byte buffer.
fn vec4(a: u8, b: u8, c: u8, d: u8) -> (r: Vec<u8>)
    ensures
        r@ == seq![a, b, c, d],
{
    let mut r: Vec<u8> = Vec::new();
    r.push(a);
    r.push(b);
    r.push(c);
    r.push(d);
    proof {
        assert(r@ =~= seq![a, b, c, d]);
    }
    r
}

/// An eight-byte buffer.
fn vec8(a: u8, b: u8, c: u8, d: u8, e: u8, g: u8, h: u8, i: u8) -> (r: Vec<u8>)
    ensures
        r@ == seq![a, b, c, d, e, g, h, i],
{
    let mut r: Vec<u8> = Vec::new();
    r.push(a);
    r.push(b);
    r.push(c);
    r.push(d);
    r.push(e);
    r.push(g);
    r.push(h);
    r.push(i);
    proof {
        assert(r@ =~= seq![a, b, c, d, e, g, h, i]);
    }
    r
}

/// Write a constant as the bytes of a fixed-width numeric format;
/// `None` when the primitive is not numeric or the constant does not
/// inhabit its host type.
pub fn write_numeric(p: Prim, c: Const) -> (r: Option<Vec<u8>>)
    ensures
        match r {
            Some(bytes) => enc_numeric_spec(p, c) == Some(bytes@),
            None => enc_numeric_spec(p, c) is None,
        },
{
    match (p, c) {
        (Prim::FormatU8, Const::U8(v, _)) => {
            let mut r: Vec<u8> = Vec::new();
            r.push(v);
            proof {
                assert(r@ =~= seq![v]);
            }
            Some(r)
        },
        (Prim::FormatU16Be, Const::U16(v, _)) => Some(vec2((v >> 8u16) as u8, v as u8)),
        (Prim::FormatU16Le, Const::U16(v, _)) => Some(vec2(v as u8, (v >> 8u16) as u8)),
        (Prim::FormatU32Be, Const::U32(v, _)) => Some(
            vec4((v >> 24u32) as u8, (v >> 16u32) as u8, (v >> 8u32) as u8, v as u8),
        ),
        (Prim::FormatU32Le, Const::U32(v, _)) => Some(
            vec4(v as u8, (v >> 8u32) as u8, (v >> 16u32) as u8, (v >> 24u32) as u8),
        ),
        (Prim::FormatU64Be, Const::U64(v, _)) => Some(
            vec8(
                (v >> 56u64) as u8,
                (v >> 48u64) as u8,
                (v >> 40u64) as u8,
                (v >> 32u64) as u8,
                (v >> 24u64) as u8,
                (v >> 16u64) as u8,
                (v >> 8u64) as u8,
                v as u8,
            ),
        ),
        (Prim::FormatU64Le, Const::U64(v, _)) => Some(
            vec8(
                v as u8,
                (v >> 8u64) as u8,
                (v >> 16u64) as u8,
                (v >> 24u64) as u8,
                (v >> 32u64) as u8,
                (v >> 40u64) as u8,
                (v >> 48u64) as u8,
                (v >> 56u64) as u8,
            ),
        ),
        (Prim::FormatS8, Const::S8(v)) => {
            let b = v as u8;
            let mut r: Vec<u8> = Vec::new();
            r.push(b);
            proof {
                assert(r@ =~= seq![v as u8]);
            }
            Some(r)
        },
        (Prim::FormatS16Be, Const::S16(v)) => {
            let u = v as u16;
            Some(vec2((u >> 8u16) as u8, u as u8))
        },
        (Prim::FormatS16Le, Const::S16(v)) => {
            let u = v as u16;
            Some(vec2(u as u8, (u >> 8u16) as u8))
        },
        (Prim::FormatS32Be, Const::S32(v)) => {
            let u = v as u32;
            Some(vec4((u >> 24u32) as u8, (u >> 16u32) as u8, (u >> 8u32) as u8, u as u8))
        },
        (Prim::FormatS32Le, Const::S32(v)) => {
            let u = v as u32;
            Some(vec4(u as u8, (u >> 8u32) as u8, (u >> 16u32) as u8, (u >> 24u32) as u8))
        },
        (Prim::FormatS64Be, Const::S64(v)) => {
            let u = v as u64;
            Some(
                vec8(
                    (u >> 56u64) as u8,
                    (u >> 48u64) as u8,
                    (u >> 40u64) as u8,
                    (u >> 32u64) as u8,
                    (u >> 24u64) as u8,
                    (u >> 16u64) as u8,
                    (u >> 8u64) as u8,
                    u as u8,
                ),
            )
        },
        (Prim::FormatS64Le, Const::S64(v)) => {
            let u = v as u64;
            Some(
                vec8(
                    u as u8,
                    (u >> 8u64) as u8,
                    (u >> 16u64) as u8,
                    (u >> 24u64) as u8,
                    (u >> 32u64) as u8,
                    (u >> 40u64) as u8,
                    (u >> 48u64) as u8,
                    (u >> 56u64) as u8,
                ),
            )
        },
        (Prim::FormatF32Be, Const::F32(v)) => Some(
            vec4((v >> 24u32) as u8, (v >> 16u32) as u8, (v >> 8u32) as u8, v as u8),
        ),
        (Prim::FormatF32Le, Const::F32(v)) => Some(
            vec4(v as u8, (v >> 8u32) as u8, (v >> 16u32) as u8, (v >> 24u32) as u8),
        ),
        (Prim::FormatF64Be, Const::F64(v)) => Some(
            vec8(
                (v >> 56u64) as u8,
                (v >> 48u64) as u8,
                (v >> 40u64) as u8,
                (v >> 32u64) as u8,
                (v >> 24u64) as u8,
                (v >> 16u64) as u8,
                (v >> 8u64) as u8,
                v as u8,
            ),
        ),
        (Prim::FormatF64Le, Const::F64(v)) => Some(
            vec8(
                v as u8,
                (v >> 8u64) as u8,
                (v >> 16u64) as u8,
                (v >> 24u64) as u8,
                (v >> 32u64) as u8,
                (v >> 40u64) as u8,
                (v >> 48u64) as u8,
                (v >> 56u64) as u8,
            ),
        ),
        (_, _) => None,
    }
}

/// Splitting an unsigned 16-bit value into big-endian bytes and reading
/// them back is the identity, in both directions.
pub proof fn lemma_u16_bytes(v: u16, b0: u8, b1: u8)
    ensures
        dec_u16be((v >> 8) as u8, v as u8) == v,
        (dec_u16be(b0, b1) >> 8) as u8 == b0,
        dec_u16be(b0, b1) as u8 == b1,
{
    assert(((((v >> 8) as u8) as u16) << 8 | ((v as u8) as u16)) == v) by (bit_vector);
    assert((((((b0 as u16) << 8) | (b1 as u16)) >> 8) as u8) == b0) by (bit_vector);
    assert(((((b0 as u16) << 8) | (b1 as u16)) as u8) == b1) by (bit_vector);
}

/// As `lemma_u16_bytes`, for 32-bit values and four bytes.
pub proof fn lemma_u32_bytes(v: u32, b0: u8, b1: u8, b2: u8, b3: u8)
    ensures
        dec_u32be((v >> 24) as u8, (v >> 16) as u8, (v >> 8) as u8, v as u8) == v,
        (dec_u32be(b0, b1, b2, b3) >> 24) as u8 == b0,
        (dec_u32be(b0, b1, b2, b3) >> 16) as u8 == b1,
        (dec_u32be(b0, b1, b2, b3) >> 8) as u8 == b2,
        dec_u32be(b0, b1, b2, b3) as u8 == b3,
{
    assert((((v >> 24) as u8 as u32) << 24 | ((v >> 16) as u8 as u32) << 16 | ((v >> 8) as u8 as u32)
        << 8 | (v as u8 as u32)) == v) by (bit_vector);
    assert({
        let d = ((b0 as u32) << 24) | ((b1 as u32) << 16) | ((b2 as u32) << 8) | (b3 as u32);
        (d >> 24) as u8 == b0 && (d >> 16) as u8 == b1 && (d >> 8) as u8 == b2 && d as u8 == b3
    }) by (bit_vector);
}

/// As `lemma_u16_bytes`, for 64-bit values and eight bytes.
pub proof fn lemma_u64_bytes(v: u64, b0: u8, b1: u8, b2: u8, b3: u8, b4: u8, b5: u8, b6: u8, b7: u8)
    ensures
        dec_u64be(
            (v >> 56) as u8,
            (v >> 48) as u8,
            (v >> 40) as u8,
            (v >> 32) as u8,
            (v >> 24) as u8,
            (v >> 16) as u8,
            (v >> 8) as u8,
            v as u8,
        ) == v,
        (dec_u64be(b0, b1, b2, b3, b4, b5, b6, b7) >> 56) as u8 == b0,
        (dec_u64be(b0, b1, b2, b3, b4, b5, b6, b7) >> 48) as u8 == b1,
        (dec_u64be(b0, b1, b2, b3, b4, b5, b6, b7) >> 40) as u8 == b2,
        (dec_u64be(b0, b1, b2, b3, b4, b5, b6, b7) >> 32) as u8 == b3,
        (dec_u64be(b0, b1, b2, b3, b4, b5, b6, b7) >> 24) as u8 == b4,
        (dec_u64be(b0, b1, b2, b3, b4, b5, b6, b7) >> 16) as u8 == b5,
        (dec_u64be(b0, b1, b2, b3, b4, b5, b6, b7) >> 8) as u8 == b6,
        dec_u64be(b0, b1, b2, b3, b4, b5, b6, b7) as u8 == b7,
{
    assert((((v >> 56) as u8 as u64) << 56 | ((v >> 48) as u8 as u64) << 48 | ((v >> 40) as u8 as u64)
        << 40 | ((v >> 32) as u8 as u64) << 32 | ((v >> 24) as u8 as u64) << 24 | ((v >> 16) as u8 as u64)
        << 16 | ((v >> 8) as u8 as u64) << 8 | (v as u8 as u64)) == v) by (bit_vector);
    assert({
        let d = ((b0 as u64) << 56) | ((b1 as u64) << 48) | ((b2 as u64) << 40) | ((b3 as u64) << 32)
            | ((b4 as u64) << 24) | ((b5 as u64) << 16) | ((b6 as u64) << 8) | (b7 as u64);
        (d >> 56) as u8 == b0 && (d >> 48) as u8 == b1 && (d >> 40) as u8 == b2 && (d >> 32) as u8
            == b3 && (d >> 24) as u8 == b4 && (d >> 16) as u8 == b5 && (d >> 8) as u8 == b6
            && d as u8 == b7
    }) by (bit_vector);
}

/// Casting between a signed value and its unsigned bit pattern is the
/// identity in both directions.
pub proof fn lemma_signed_casts(a16: u16, a32: u32, a64: u64, s16: i16, s32: i32, s64: i64, a8: u8, s8: i8)
    ensures
        (a16 as i16) as u16 == a16,
        (s16 as u16) as i16 == s16,
        (a32 as i32) as u32 == a32,
        (s32 as u32) as i32 == s32,
        (a64 as i64) as u64 == a64,
        (s64 as u64) as i64 == s64,
        (a8 as i8) as u8 == a8,
        (s8 as u8) as i8 == s8,
{
    assert((a16 as i16) as u16 == a16 && (s16 as u16) as i16 == s16) by (bit_vector);
    assert((a32 as i32) as u32 == a32 && (s32 as u32) as i32 == s32) by (bit_vector);
    assert((a64 as i64) as u64 == a64 && (s64 as u64) as i64 == s64) by (bit_vector);
    assert((a8 as i8) as u8 == a8 && (s8 as u8) as i8 == s8) by (bit_vector);
}

} // verus!

verus! {

/// Whether reading a numeric format at `pos` succeeds with a constant
/// logically equal to `c`, advancing by the format's width.
pub open spec fn reads_back_spec(p: Prim, c: Const, buf: Seq<u8>, pos: u64) -> bool {
    match (numeric_width_spec(p), read_numeric_spec(p, buf, pos)) {
        (Some(w), Ok(x)) => x.1 == pos + w && match x.0 {
            Value::ConstLit(c2) => crate::syntax::const_eq_spec(c2, c),
            _ => false,
        },
        (_, _) => false,
    }
}

/// Whether reading a numeric format at `pos` succeeds, advancing by the
/// format's width, with a constant that writes back to exactly the bytes
/// read.
pub open spec fn writes_back_spec(p: Prim, buf: Seq<u8>, pos: u64) -> bool {
    match (numeric_width_spec(p), read_numeric_spec(p, buf, pos)) {
        (Some(w), Ok(x)) => x.1 == pos + w && match x.0 {
            Value::ConstLit(c2) => enc_numeric_spec(p, c2) == Some(
                buf.subrange(pos as int, pos as int + w as int),
            ),
            _ => false,
        },
        (_, _) => false,
    }
}

/// The bytes a numeric format writes for a constant, or the empty
/// sequence when it writes none.
pub open spec fn enc_bytes_spec(p: Prim, c: Const) -> Seq<u8> {
    match enc_numeric_spec(p, c) {
        Some(b) => b,
        None => Seq::empty(),
    }
}

/// The width of a numeric format, or zero for a non-numeric primitive.
pub open spec fn nwidth_spec(p: Prim) -> u64 {
    match numeric_width_spec(p) {
        Some(w) => w,
        None => 0,
    }
}

/// Law (write, then read): reading a fixed-width numeric format from a
/// buffer that holds a written constant's bytes yields a constant with
/// the same logical value, with the position advanced by the format's
/// width.
pub proof fn lemma_numeric_write_read(p: Prim, c: Const, buf: Seq<u8>, pos: u64)
    requires
        enc_numeric_spec(p, c) is Some,
        pos + enc_bytes_spec(p, c).len() <= buf.len(),
        pos + enc_bytes_spec(p, c).len() <= u64::MAX,
        buf.subrange(pos as int, pos as int + enc_bytes_spec(p, c).len() as int) == enc_bytes_spec(
            p,
            c,
        ),
    ensures
        reads_back_spec(p, c, buf, pos),
{
    match (p, c) {
        (Prim::FormatU8, Const::U8(v, _)) => {
            assert(buf.subrange(pos as int, pos as int + 1)[0] == buf[pos + 0]);
            assert(reads_back_spec(p, c, buf, pos));
        },
        (Prim::FormatU16Be, Const::U16(v, _)) => {
            assert(buf.subrange(pos as int, pos as int + 2)[0] == buf[pos + 0]);
            assert(buf.subrange(pos as int, pos as int + 2)[1] == buf[pos + 1]);
            lemma_u16_bytes(v, 0, 0);
            assert(reads_back_spec(p, c, buf, pos));
        },
        (Prim::FormatU16Le, Const::U16(v, _)) => {
            assert(buf.subrange(pos as int, pos as int + 2)[0] == buf[pos + 0]);
            assert(buf.subrange(pos as int, pos as int + 2)[1] == buf[pos + 1]);
            lemma_u16_bytes(v, 0, 0);
            assert(reads_back_spec(p, c, buf, pos));
        },
        (Prim::FormatU32Be, Const::U32(v, _)) => {
            assert(buf.subrange(pos as int, pos as int + 4)[0] == buf[pos + 0]);
            assert(buf.subrange(pos as int, pos as int + 4)[1] == buf[pos + 1]);
            assert(buf.subrange(pos as int, pos as int + 4)[2] == buf[pos + 2]);
            assert(buf.subrange(pos as int, pos as int + 4)[3] == buf[pos + 3]);
            lemma_u32_bytes(v, 0, 0, 0, 0);
            assert(reads_back_spec(p, c, buf, pos));
        },
        (Prim::FormatU32Le, Const::U32(v, _)) => {
            assert(buf.subrange(pos as int, pos as int + 4)[0] == buf[pos + 0]);
            assert(buf.subrange(pos as int, pos as int + 4)[1] == buf[pos + 1]);
            assert(buf.subrange(pos as int, pos as int + 4)[2] == buf[pos + 2]);
            assert(buf.subrange(pos as int, pos as int + 4)[3] == buf[pos + 3]);
            lemma_u32_bytes(v, 0, 0, 0, 0);
            assert(reads_back_spec(p, c, buf, pos));
        },
        (Prim::FormatU64Be, Const::U64(v, _)) => {
            assert(buf.subrange(pos as int, pos as int + 8)[0] == buf[pos + 0]);
            assert(buf.subrange(pos as int, pos as int + 8)[1] == buf[pos + 1]);
            assert(buf.subrange(pos as int, pos as int + 8)[2] == buf[pos + 2]);
            assert(buf.subrange(pos as int, pos as int + 8)[3] == buf[pos + 3]);
            assert(buf.subrange(pos as int, pos as int + 8)[4] == buf[pos + 4]);
            assert(buf.subrange(pos as int, pos as int + 8)[5] == buf[pos + 5]);
            assert(buf.subrange(pos as int, pos as int + 8)[6] == buf[pos + 6]);
            assert(buf.subrange(pos as int, pos as int + 8)[7] == buf[pos + 7]);
            lemma_u64_bytes(v, 0, 0, 0, 0, 0, 0, 0, 0);
            assert(reads_back_spec(p, c, buf, pos));
        },
        (Prim::FormatU64Le, Const::U64(v, _)) => {
            assert(buf.subrange(pos as int, pos as int + 8)[0] == buf[pos + 0]);
            assert(buf.subrange(pos as int, pos as int + 8)[1] == buf[pos + 1]);
            assert(buf.subrange(pos as int, pos as int + 8)[2] == buf[pos + 2]);
            assert(buf.subrange(pos as int, pos as int + 8)[3] == buf[pos + 3]);
            assert(buf.subrange(pos as int, pos as int + 8)[4] == buf[pos + 4]);
            assert(buf.subrange(pos as int, pos as int + 8)[5] == buf[pos + 5]);
            assert(buf.subrange(pos as int, pos as int + 8)[6] == buf[pos + 6]);
            assert(buf.subrange(pos as int, pos as int + 8)[7] == buf[pos + 7]);
            lemma_u64_bytes(v, 0, 0, 0, 0, 0, 0, 0, 0);
            assert(reads_back_spec(p, c, buf, pos));
        },
        (Prim::FormatS8, Const::S8(v)) => {
            assert(buf.subrange(pos as int, pos as int + 1)[0] == buf[pos + 0]);
            lemma_signed_casts(0, 0, 0, 0, 0, 0, 0, v);
            assert(reads_back_spec(p, c, buf, pos));
        },
        (Prim::FormatS16Be, Const::S16(v)) => {
            assert(buf.subrange(pos as int, pos as int + 2)[0] == buf[pos + 0]);
            assert(buf.subrange(pos as int, pos as int + 2)[1] == buf[pos + 1]);
            lemma_u16_bytes((v as u16), 0, 0);
            lemma_signed_casts(0, 0, 0, v, 0, 0, 0, 0);
            assert(reads_back_spec(p, c, buf, pos));
        },
        (Prim::FormatS16Le, Const::S16(v)) => {
            assert(buf.subrange(pos as int, pos as int + 2)[0] == buf[pos + 0]);
            assert(buf.subrange(pos as int, pos as int + 2)[1] == buf[pos + 1]);
            lemma_u16_bytes((v as u16), 0, 0);
            lemma_signed_casts(0, 0, 0, v, 0, 0, 0, 0);
            assert(reads_back_spec(p, c, buf, pos));
        },
        (Prim::FormatS32Be, Const::S32(v)) => {
            assert(buf.subrange(pos as int, pos as int + 4)[0] == buf[pos + 0]);
            assert(buf.subrange(pos as int, pos as int + 4)[1] == buf[pos + 1]);
            assert(buf.subrange(pos as int, pos as int + 4)[2] == buf[pos + 2]);
            assert(buf.subrange(pos as int, pos as int + 4)[3] == buf[pos + 3]);
            lemma_u32_bytes((v as u32), 0, 0, 0, 0);
            lemma_signed_casts(0, 0, 0, 0, v, 0, 0, 0);
            assert(reads_back_spec(p, c, buf, pos));
        },
        (Prim::FormatS32Le, Const::S32(v)) => {
            assert(buf.subrange(pos as int, pos as int + 4)[0] == buf[pos + 0]);
            assert(buf.subrange(pos as int, pos as int + 4)[1] == buf[pos + 1]);
            assert(buf.subrange(pos as int, pos as int + 4)[2] == buf[pos + 2]);
            assert(buf.subrange(pos as int, pos as int + 4)[3] == buf[pos + 3]);
            lemma_u32_bytes((v as u32), 0, 0, 0, 0);
            lemma_signed_casts(0, 0, 0, 0, v, 0, 0, 0);
            assert(reads_back_spec(p, c, buf, pos));
        },
        (Prim::FormatS64Be, Const::S64(v)) => {
            assert(buf.subrange(pos as int, pos as int + 8)[0] == buf[pos + 0]);
            assert(buf.subrange(pos as int, pos as int + 8)[1] == buf[pos + 1]);
            assert(buf.subrange(pos as int, pos as int + 8)[2] == buf[pos + 2]);
            assert(buf.subrange(pos as int, pos as int + 8)[3] == buf[pos + 3]);
            assert(buf.subrange(pos as int, pos as int + 8)[4] == buf[pos + 4]);
            assert(buf.subrange(pos as int, pos as int + 8)[5] == buf[pos + 5]);
            assert(buf.subrange(pos as int, pos as int + 8)[6] == buf[pos + 6]);
            assert(buf.subrange(pos as int, pos as int + 8)[7] == buf[pos + 7]);
            lemma_u64_bytes((v as u64), 0, 0, 0, 0, 0, 0, 0, 0);
            lemma_signed_casts(0, 0, 0, 0, 0, v, 0, 0);
            assert(reads_back_spec(p, c, buf, pos));
        },
        (Prim::FormatS64Le, Const::S64(v)) => {
            assert(buf.subrange(pos as int, pos as int + 8)[0] == buf[pos + 0]);
            assert(buf.subrange(pos as int, pos as int + 8)[1] == buf[pos + 1]);
            assert(buf.subrange(pos as int, pos as int + 8)[2] == buf[pos + 2]);
            assert(buf.subrange(pos as int, pos as int + 8)[3] == buf[pos + 3]);
            assert(buf.subrange(pos as int, pos as int + 8)[4] == buf[pos + 4]);
            assert(buf.subrange(pos as int, pos as int + 8)[5] == buf[pos + 5]);
            assert(buf.subrange(pos as int, pos as int + 8)[6] == buf[pos + 6]);
            assert(buf.subrange(pos as int, pos as int + 8)[7] == buf[pos + 7]);
            lemma_u64_bytes((v as u64), 0, 0, 0, 0, 0, 0, 0, 0);
            lemma_signed_casts(0, 0, 0, 0, 0, v, 0, 0);
            assert(reads_back_spec(p, c, buf, pos));
        },
        (Prim::FormatF32Be, Const::F32(v)) => {
            assert(buf.subrange(pos as int, pos as int + 4)[0] == buf[pos + 0]);
            assert(buf.subrange(pos as int, pos as int + 4)[1] == buf[pos + 1]);
            assert(buf.subrange(pos as int, pos as int + 4)[2] == buf[pos + 2]);
            assert(buf.subrange(pos as int, pos as int + 4)[3] == buf[pos + 3]);
            lemma_u32_bytes(v, 0, 0, 0, 0);
            assert(reads_back_spec(p, c, buf, pos));
        },
        (Prim::FormatF32Le, Const::F32(v)) => {
            assert(buf.subrange(pos as int, pos as int + 4)[0] == buf[pos + 0]);
            assert(buf.subrange(pos as int, pos as int + 4)[1] == buf[pos + 1]);
            assert(buf.subrange(pos as int, pos as int + 4)[2] == buf[pos + 2]);
            assert(buf.subrange(pos as int, pos as int + 4)[3] == buf[pos + 3]);
            lemma_u32_bytes(v, 0, 0, 0, 0);
            assert(reads_back_spec(p, c, buf, pos));
        },
        (Prim::FormatF64Be, Const::F64(v)) => {
            assert(buf.subrange(pos as int, pos as int + 8)[0] == buf[pos + 0]);
            assert(buf.subrange(pos as int, pos as int + 8)[1] == buf[pos + 1]);
            assert(buf.subrange(pos as int, pos as int + 8)[2] == buf[pos + 2]);
            assert(buf.subrange(pos as int, pos as int + 8)[3] == buf[pos + 3]);
            assert(buf.subrange(pos as int, pos as int + 8)[4] == buf[pos + 4]);
            assert(buf.subrange(pos as int, pos as int + 8)[5] == buf[pos + 5]);
            assert(buf.subrange(pos as int, pos as int + 8)[6] == buf[pos + 6]);
            assert(buf.subrange(pos as int, pos as int + 8)[7] == buf[pos + 7]);
            lemma_u64_bytes(v, 0, 0, 0, 0, 0, 0, 0, 0);
            assert(reads_back_spec(p, c, buf, pos));
        },
        (Prim::FormatF64Le, Const::F64(v)) => {
            assert(buf.subrange(pos as int, pos as int + 8)[0] == buf[pos + 0]);
            assert(buf.subrange(pos as int, pos as int + 8)[1] == buf[pos + 1]);
            assert(buf.subrange(pos as int, pos as int + 8)[2] == buf[pos + 2]);
            assert(buf.subrange(pos as int, pos as int + 8)[3] == buf[pos + 3]);
            assert(buf.subrange(pos as int, pos as int + 8)[4] == buf[pos + 4]);
            assert(buf.subrange(pos as int, pos as int + 8)[5] == buf[pos + 5]);
            assert(buf.subrange(pos as int, pos as int + 8)[6] == buf[pos + 6]);
            assert(buf.subrange(pos as int, pos as int + 8)[7] == buf[pos + 7]);
            lemma_u64_bytes(v, 0, 0, 0, 0, 0, 0, 0, 0);
            assert(reads_back_spec(p, c, buf, pos));
        },
        (_, _) => {
            assert(false);
            assert(reads_back_spec(p, c, buf, pos));
        },
    }
}

/// Law (read, then write): writing the constant a fixed-width numeric
/// format just read reproduces exactly the bytes that were read.
pub proof fn lemma_numeric_read_write(p: Prim, buf: Seq<u8>, pos: u64)
    requires
        numeric_width_spec(p) is Some,
        pos + nwidth_spec(p) <= buf.len(),
        pos + nwidth_spec(p) <= u64::MAX,
    ensures
        writes_back_spec(p, buf, pos),
{
    match p {
        Prim::FormatU8 => {
            assert(buf.subrange(pos as int, pos as int + 1)[0] == buf[pos + 0]);
            assert(match read_numeric_spec(p, buf, pos) {
                Ok(x) => match x.0 {
                    Value::ConstLit(c2) => match enc_numeric_spec(p, c2) {
                        Some(bs) => bs =~= buf.subrange(pos as int, pos as int + 1),
                        None => false,
                    },
                    _ => false,
                },
                Err(_) => false,
            });
            assert(writes_back_spec(p, buf, pos));
        },
        Prim::FormatU16Be => {
            assert(buf.subrange(pos as int, pos as int + 2)[0] == buf[pos + 0]);
            assert(buf.subrange(pos as int, pos as int + 2)[1] == buf[pos + 1]);
            lemma_u16_bytes(dec_u16be(buf[pos as int], buf[pos + 1]), buf[pos as int], buf[pos + 1]);
            assert(match read_numeric_spec(p, buf, pos) {
                Ok(x) => match x.0 {
                    Value::ConstLit(c2) => match enc_numeric_spec(p, c2) {
                        Some(bs) => bs =~= buf.subrange(pos as int, pos as int + 2),
                        None => false,
                    },
                    _ => false,
                },
                Err(_) => false,
            });
            assert(writes_back_spec(p, buf, pos));
        },
        Prim::FormatU16Le => {
            assert(buf.subrange(pos as int, pos as int + 2)[0] == buf[pos + 0]);
            assert(buf.subrange(pos as int, pos as int + 2)[1] == buf[pos + 1]);
            lemma_u16_bytes(dec_u16le(buf[pos as int], buf[pos + 1]), buf[pos + 1], buf[pos as int]);
            assert(match read_numeric_spec(p, buf, pos) {
                Ok(x) => match x.0 {
                    Value::ConstLit(c2) => match enc_numeric_spec(p, c2) {
                        Some(bs) => bs =~= buf.subrange(pos as int, pos as int + 2),
                        None => false,
                    },
                    _ => false,
                },
                Err(_) => false,
            });
            assert(writes_back_spec(p, buf, pos));
        },
        Prim::FormatU32Be => {
            assert(buf.subrange(pos as int, pos as int + 4)[0] == buf[pos + 0]);
            assert(buf.subrange(pos as int, pos as int + 4)[1] == buf[pos + 1]);
            assert(buf.subrange(pos as int, pos as int + 4)[2] == buf[pos + 2]);
            assert(buf.subrange(pos as int, pos as int + 4)[3] == buf[pos + 3]);
            lemma_u32_bytes(dec_u32be(buf[pos as int], buf[pos + 1], buf[pos + 2], buf[pos + 3]), buf[pos as int], buf[pos + 1], buf[pos + 2], buf[pos + 3]);
            assert(match read_numeric_spec(p, buf, pos) {
                Ok(x) => match x.0 {
                    Value::ConstLit(c2) => match enc_numeric_spec(p, c2) {
                        Some(bs) => bs =~= buf.subrange(pos as int, pos as int + 4),
                        None => false,
                    },
                    _ => false,
                },
                Err(_) => false,
            });
            assert(writes_back_spec(p, buf, pos));
        },
        Prim::FormatU32Le => {
            assert(buf.subrange(pos as int, pos as int + 4)[0] == buf[pos + 0]);
            assert(buf.subrange(pos as int, pos as int + 4)[1] == buf[pos + 1]);
            assert(buf.subrange(pos as int, pos as int + 4)[2] == buf[pos + 2]);
            assert(buf.subrange(pos as int, pos as int + 4)[3] == buf[pos + 3]);
            lemma_u32_bytes(dec_u32le(buf[pos as int], buf[pos + 1], buf[pos + 2], buf[pos + 3]), buf[pos + 3], buf[pos + 2], buf[pos + 1], buf[pos as int]);
            assert(match read_numeric_spec(p, buf, pos) {
                Ok(x) => match x.0 {
                    Value::ConstLit(c2) => match enc_numeric_spec(p, c2) {
                        Some(bs) => bs =~= buf.subrange(pos as int, pos as int + 4),
                        None => false,
                    },
                    _ => false,
                },
                Err(_) => false,
            });
            assert(writes_back_spec(p, buf, pos));
        },
        Prim::FormatU64Be => {
            assert(buf.subrange(pos as int, pos as int + 8)[0] == buf[pos + 0]);
            assert(buf.subrange(pos as int, pos as int + 8)[1] == buf[pos + 1]);
            assert(buf.subrange(pos as int, pos as int + 8)[2] == buf[pos + 2]);
            assert(buf.subrange(pos as int, pos as int + 8)[3] == buf[pos + 3]);
            assert(buf.subrange(pos as int, pos as int + 8)[4] == buf[pos + 4]);
            assert(buf.subrange(pos as int, pos as int + 8)[5] == buf[pos + 5]);
            assert(buf.subrange(pos as int, pos as int + 8)[6] == buf[pos + 6]);
            assert(buf.subrange(pos as int, pos as int + 8)[7] == buf[pos + 7]);
            lemma_u64_bytes(dec_u64be(buf[pos as int], buf[pos + 1], buf[pos + 2], buf[pos + 3], buf[pos + 4], buf[pos + 5], buf[pos + 6], buf[pos + 7]), buf[pos as int], buf[pos + 1], buf[pos + 2], buf[pos + 3], buf[pos + 4], buf[pos + 5], buf[pos + 6], buf[pos + 7]);
            assert(match read_numeric_spec(p, buf, pos) {
                Ok(x) => match x.0 {
                    Value::ConstLit(c2) => match enc_numeric_spec(p, c2) {
                        Some(bs) => bs =~= buf.subrange(pos as int, pos as int + 8),
                        None => false,
                    },
                    _ => false,
                },
                Err(_) => false,
            });
            assert(writes_back_spec(p, buf, pos));
        },
        Prim::FormatU64Le => {
            assert(buf.subrange(pos as int, pos as int + 8)[0] == buf[pos + 0]);
            assert(buf.subrange(pos as int, pos as int + 8)[1] == buf[pos + 1]);
            assert(buf.subrange(pos as int, pos as int + 8)[2] == buf[pos + 2]);
            assert(buf.subrange(pos as int, pos as int + 8)[3] == buf[pos + 3]);
            assert(buf.subrange(pos as int, pos as int + 8)[4] == buf[pos + 4]);
            assert(buf.subrange(pos as int, pos as int + 8)[5] == buf[pos + 5]);
            assert(buf.subrange(pos as int, pos as int + 8)[6] == buf[pos + 6]);
            assert(buf.subrange(pos as int, pos as int + 8)[7] == buf[pos + 7]);
            lemma_u64_bytes(dec_u64le(buf[pos as int], buf[pos + 1], buf[pos + 2], buf[pos + 3], buf[pos + 4], buf[pos + 5], buf[pos + 6], buf[pos + 7]), buf[pos + 7], buf[pos + 6], buf[pos + 5], buf[pos + 4], buf[pos + 3], buf[pos + 2], buf[pos + 1], buf[pos as int]);
            assert(match read_numeric_spec(p, buf, pos) {
                Ok(x) => match x.0 {
                    Value::ConstLit(c2) => match enc_numeric_spec(p, c2) {
                        Some(bs) => bs =~= buf.subrange(pos as int, pos as int + 8),
                        None => false,
                    },
                    _ => false,
                },
                Err(_) => false,
            });
            assert(writes_back_spec(p, buf, pos));
        },
        Prim::FormatS8 => {
            assert(buf.subrange(pos as int, pos as int + 1)[0] == buf[pos + 0]);
            lemma_signed_casts(0, 0, 0, 0, 0, 0, buf[pos as int], 0);
            assert(match read_numeric_spec(p, buf, pos) {
                Ok(x) => match x.0 {
                    Value::ConstLit(c2) => match enc_numeric_spec(p, c2) {
                        Some(bs) => bs =~= buf.subrange(pos as int, pos as int + 1),
                        None => false,
                    },
                    _ => false,
                },
                Err(_) => false,
            });
            assert(writes_back_spec(p, buf, pos));
        },
        Prim::FormatS16Be => {
            assert(buf.subrange(pos as int, pos as int + 2)[0] == buf[pos + 0]);
            assert(buf.subrange(pos as int, pos as int + 2)[1] == buf[pos + 1]);
            lemma_u16_bytes(dec_u16be(buf[pos as int], buf[pos + 1]), buf[pos as int], buf[pos + 1]);
            lemma_signed_casts(dec_u16be(buf[pos as int], buf[pos + 1]), 0, 0, 0, 0, 0, 0, 0);
            assert(match read_numeric_spec(p, buf, pos) {
                Ok(x) => match x.0 {
                    Value::ConstLit(c2) => match enc_numeric_spec(p, c2) {
                        Some(bs) => bs =~= buf.subrange(pos as int, pos as int + 2),
                        None => false,
                    },
                    _ => false,
                },
                Err(_) => false,
            });
            assert(writes_back_spec(p, buf, pos));
        },
        Prim::FormatS16Le => {
            assert(buf.subrange(pos as int, pos as int + 2)[0] == buf[pos + 0]);
            assert(buf.subrange(pos as int, pos as int + 2)[1] == buf[pos + 1]);
            lemma_u16_bytes(dec_u16le(buf[pos as int], buf[pos + 1]), buf[pos + 1], buf[pos as int]);
            lemma_signed_casts(dec_u16le(buf[pos as int], buf[pos + 1]), 0, 0, 0, 0, 0, 0, 0);
            assert(match read_numeric_spec(p, buf, pos) {
                Ok(x) => match x.0 {
                    Value::ConstLit(c2) => match enc_numeric_spec(p, c2) {
                        Some(bs) => bs =~= buf.subrange(pos as int, pos as int + 2),
                        None => false,
                    },
                    _ => false,
                },
                Err(_) => false,
            });
            assert(writes_back_spec(p, buf, pos));
        },
        Prim::FormatS32Be => {
            assert(buf.subrange(pos as int, pos as int + 4)[0] == buf[pos + 0]);
            assert(buf.subrange(pos as int, pos as int + 4)[1] == buf[pos + 1]);
            assert(buf.subrange(pos as int, pos as int + 4)[2] == buf[pos + 2]);
            assert(buf.subrange(pos as int, pos as int + 4)[3] == buf[pos + 3]);
            lemma_u32_bytes(dec_u32be(buf[pos as int], buf[pos + 1], buf[pos + 2], buf[pos + 3]), buf[pos as int], buf[pos + 1], buf[pos + 2], buf[pos + 3]);
            lemma_signed_casts(0, dec_u32be(buf[pos as int], buf[pos + 1], buf[pos + 2], buf[pos + 3]), 0, 0, 0, 0, 0, 0);
            assert(match read_numeric_spec(p, buf, pos) {
                Ok(x) => match x.0 {
                    Value::ConstLit(c2) => match enc_numeric_spec(p, c2) {
                        Some(bs) => bs =~= buf.subrange(pos as int, pos as int + 4),
                        None => false,
                    },
                    _ => false,
                },
                Err(_) => false,
            });
            assert(writes_back_spec(p, buf, pos));
        },
        Prim::FormatS32Le => {
            assert(buf.subrange(pos as int, pos as int + 4)[0] == buf[pos + 0]);
            assert(buf.subrange(pos as int, pos as int + 4)[1] == buf[pos + 1]);
            assert(buf.subrange(pos as int, pos as int + 4)[2] == buf[pos + 2]);
            assert(buf.subrange(pos as int, pos as int + 4)[3] == buf[pos + 3]);
            lemma_u32_bytes(dec_u32le(buf[pos as int], buf[pos + 1], buf[pos + 2], buf[pos + 3]), buf[pos + 3], buf[pos + 2], buf[pos + 1], buf[pos as int]);
            lemma_signed_casts(0, dec_u32le(buf[pos as int], buf[pos + 1], buf[pos + 2], buf[pos + 3]), 0, 0, 0, 0, 0, 0);
            assert(match read_numeric_spec(p, buf, pos) {
                Ok(x) => match x.0 {
                    Value::ConstLit(c2) => match enc_numeric_spec(p, c2) {
                        Some(bs) => bs =~= buf.subrange(pos as int, pos as int + 4),
                        None => false,
                    },
                    _ => false,
                },
                Err(_) => false,
            });
            assert(writes_back_spec(p, buf, pos));
        },
        Prim::FormatS64Be => {
            assert(buf.subrange(pos as int, pos as int + 8)[0] == buf[pos + 0]);
            assert(buf.subrange(pos as int, pos as int + 8)[1] == buf[pos + 1]);
            assert(buf.subrange(pos as int, pos as int + 8)[2] == buf[pos + 2]);
            assert(buf.subrange(pos as int, pos as int + 8)[3] == buf[pos + 3]);
            assert(buf.subrange(pos as int, pos as int + 8)[4] == buf[pos + 4]);
            assert(buf.subrange(pos as int, pos as int + 8)[5] == buf[pos + 5]);
            assert(buf.subrange(pos as int, pos as int + 8)[6] == buf[pos + 6]);
            assert(buf.subrange(pos as int, pos as int + 8)[7] == buf[pos + 7]);
            lemma_u64_bytes(dec_u64be(buf[pos as int], buf[pos + 1], buf[pos + 2], buf[pos + 3], buf[pos + 4], buf[pos + 5], buf[pos + 6], buf[pos + 7]), buf[pos as int], buf[pos + 1], buf[pos + 2], buf[pos + 3], buf[pos + 4], buf[pos + 5], buf[pos + 6], buf[pos + 7]);
            lemma_signed_casts(0, 0, dec_u64be(buf[pos as int], buf[pos + 1], buf[pos + 2], buf[pos + 3], buf[pos + 4], buf[pos + 5], buf[pos + 6], buf[pos + 7]), 0, 0, 0, 0, 0);
            assert(match read_numeric_spec(p, buf, pos) {
                Ok(x) => match x.0 {
                    Value::ConstLit(c2) => match enc_numeric_spec(p, c2) {
                        Some(bs) => bs =~= buf.subrange(pos as int, pos as int + 8),
                        None => false,
                    },
                    _ => false,
                },
                Err(_) => false,
            });
            assert(writes_back_spec(p, buf, pos));
        },
        Prim::FormatS64Le => {
            assert(buf.subrange(pos as int, pos as int + 8)[0] == buf[pos + 0]);
            assert(buf.subrange(pos as int, pos as int + 8)[1] == buf[pos + 1]);
            assert(buf.subrange(pos as int, pos as int + 8)[2] == buf[pos + 2]);
            assert(buf.subrange(pos as int, pos as int + 8)[3] == buf[pos + 3]);
            assert(buf.subrange(pos as int, pos as int + 8)[4] == buf[pos + 4]);
            assert(buf.subrange(pos as int, pos as int + 8)[5] == buf[pos + 5]);
            assert(buf.subrange(pos as int, pos as int + 8)[6] == buf[pos + 6]);
            assert(buf.subrange(pos as int, pos as int + 8)[7] == buf[pos + 7]);
            lemma_u64_bytes(dec_u64le(buf[pos as int], buf[pos + 1], buf[pos + 2], buf[pos + 3], buf[pos + 4], buf[pos + 5], buf[pos + 6], buf[pos + 7]), buf[pos + 7], buf[pos + 6], buf[pos + 5], buf[pos + 4], buf[pos + 3], buf[pos + 2], buf[pos + 1], buf[pos as int]);
            lemma_signed_casts(0, 0, dec_u64le(buf[pos as int], buf[pos + 1], buf[pos + 2], buf[pos + 3], buf[pos + 4], buf[pos + 5], buf[pos + 6], buf[pos + 7]), 0, 0, 0, 0, 0);
            assert(match read_numeric_spec(p, buf, pos) {
                Ok(x) => match x.0 {
                    Value::ConstLit(c2) => match enc_numeric_spec(p, c2) {
                        Some(bs) => bs =~= buf.subrange(pos as int, pos as int + 8),
                        None => false,
                    },
                    _ => false,
                },
                Err(_) => false,
            });
            assert(writes_back_spec(p, buf, pos));
        },
        Prim::FormatF32Be => {
            assert(buf.subrange(pos as int, pos as int + 4)[0] == buf[pos + 0]);
            assert(buf.subrange(pos as int, pos as int + 4)[1] == buf[pos + 1]);
            assert(buf.subrange(pos as int, pos as int + 4)[2] == buf[pos + 2]);
            assert(buf.subrange(pos as int, pos as int + 4)[3] == buf[pos + 3]);
            lemma_u32_bytes(dec_u32be(buf[pos as int], buf[pos + 1], buf[pos + 2], buf[pos + 3]), buf[pos as int], buf[pos + 1], buf[pos + 2], buf[pos + 3]);
            assert(match read_numeric_spec(p, buf, pos) {
                Ok(x) => match x.0 {
                    Value::ConstLit(c2) => match enc_numeric_spec(p, c2) {
                        Some(bs) => bs =~= buf.subrange(pos as int, pos as int + 4),
                        None => false,
                    },
                    _ => false,
                },
                Err(_) => false,
            });
            assert(writes_back_spec(p, buf, pos));
        },
        Prim::FormatF32Le => {
            assert(buf.subrange(pos as int, pos as int + 4)[0] == buf[pos + 0]);
            assert(buf.subrange(pos as int, pos as int + 4)[1] == buf[pos + 1]);
            assert(buf.subrange(pos as int, pos as int + 4)[2] == buf[pos + 2]);
            assert(buf.subrange(pos as int, pos as int + 4)[3] == buf[pos + 3]);
            lemma_u32_bytes(dec_u32le(buf[pos as int], buf[pos + 1], buf[pos + 2], buf[pos + 3]), buf[pos + 3], buf[pos + 2], buf[pos + 1], buf[pos as int]);
            assert(match read_numeric_spec(p, buf, pos) {
                Ok(x) => match x.0 {
                    Value::ConstLit(c2) => match enc_numeric_spec(p, c2) {
                        Some(bs) => bs =~= buf.subrange(pos as int, pos as int + 4),
                        None => false,
                    },
                    _ => false,
                },
                Err(_) => false,
            });
            assert(writes_back_spec(p, buf, pos));
        },
        Prim::FormatF64Be => {
            assert(buf.subrange(pos as int, pos as int + 8)[0] == buf[pos + 0]);
            assert(buf.subrange(pos as int, pos as int + 8)[1] == buf[pos + 1]);
            assert(buf.subrange(pos as int, pos as int + 8)[2] == buf[pos + 2]);
            assert(buf.subrange(pos as int, pos as int + 8)[3] == buf[pos + 3]);
            assert(buf.subrange(pos as int, pos as int + 8)[4] == buf[pos + 4]);
            assert(buf.subrange(pos as int, pos as int + 8)[5] == buf[pos + 5]);
            assert(buf.subrange(pos as int, pos as int + 8)[6] == buf[pos + 6]);
            assert(buf.subrange(pos as int, pos as int + 8)[7] == buf[pos + 7]);
            lemma_u64_bytes(dec_u64be(buf[pos as int], buf[pos + 1], buf[pos + 2], buf[pos + 3], buf[pos + 4], buf[pos + 5], buf[pos + 6], buf[pos + 7]), buf[pos as int], buf[pos + 1], buf[pos + 2], buf[pos + 3], buf[pos + 4], buf[pos + 5], buf[pos + 6], buf[pos + 7]);
            assert(match read_numeric_spec(p, buf, pos) {
                Ok(x) => match x.0 {
                    Value::ConstLit(c2) => match enc_numeric_spec(p, c2) {
                        Some(bs) => bs =~= buf.subrange(pos as int, pos as int + 8),
                        None => false,
                    },
                    _ => false,
                },
                Err(_) => false,
            });
            assert(writes_back_spec(p, buf, pos));
        },
        Prim::FormatF64Le => {
            assert(buf.subrange(pos as int, pos as int + 8)[0] == buf[pos + 0]);
            assert(buf.subrange(pos as int, pos as int + 8)[1] == buf[pos + 1]);
            assert(buf.subrange(pos as int, pos as int + 8)[2] == buf[pos + 2]);
            assert(buf.subrange(pos as int, pos as int + 8)[3] == buf[pos + 3]);
            assert(buf.subrange(pos as int, pos as int + 8)[4] == buf[pos + 4]);
            assert(buf.subrange(pos as int, pos as int + 8)[5] == buf[pos + 5]);
            assert(buf.subrange(pos as int, pos as int + 8)[6] == buf[pos + 6]);
            assert(buf.subrange(pos as int, pos as int + 8)[7] == buf[pos + 7]);
            lemma_u64_bytes(dec_u64le(buf[pos as int], buf[pos + 1], buf[pos + 2], buf[pos + 3], buf[pos + 4], buf[pos + 5], buf[pos + 6], buf[pos + 7]), buf[pos + 7], buf[pos + 6], buf[pos + 5], buf[pos + 4], buf[pos + 3], buf[pos + 2], buf[pos + 1], buf[pos as int]);
            assert(match read_numeric_spec(p, buf, pos) {
                Ok(x) => match x.0 {
                    Value::ConstLit(c2) => match enc_numeric_spec(p, c2) {
                        Some(bs) => bs =~= buf.subrange(pos as int, pos as int + 8),
                        None => false,
                    },
                    _ => false,
                },
                Err(_) => false,
            });
            assert(writes_back_spec(p, buf, pos));
        },
        _ => {
            assert(false);
        },
    }
}

} // verus!
