//! Binary reading: the alias and struct fixtures, the array, overlap and
//! error behaviours, and the numeric write/read round trips.

use fathom::binary::{read, write_numeric, ReadError};
use fathom::elaborate::{elab_module, item_value, Context};
use fathom::semantics::{Elim, Head, MetaEntry, Value};
use fathom::surface::{Alias, Item, Module, StructType, Surface, TypeField};
use fathom::syntax::{Const, List, Prim, StringId, Term, UIntStyle};

const FUEL: u64 = 1_000_000;

fn nil<T>() -> List<T> {
    List::Nil
}

fn cons<T>(x: T, rest: List<T>) -> List<T> {
    List::Cons(Box::new(x), Box::new(rest))
}

/// The primitive name table the tests intern: `u8` = 1, `u16be` = 2,
/// `f64be` = 3, `array8` = 4.
fn prims() -> List<(StringId, Prim)> {
    cons(
        (1, Prim::FormatU8),
        cons(
            (2, Prim::FormatU16Be),
            cons((3, Prim::FormatF64Be), cons((4, Prim::FormatArray8), nil())),
        ),
    )
}

fn prim_value(p: Prim) -> Value {
    Value::Stuck(Head::Prim(p), List::Nil)
}

/// Elaborate a module and return the format value of the named item.
fn elab_item_format(m: &Module, name: StringId) -> (List<MetaEntry>, Value) {
    let ctx = Context::new(0, prims());
    let (ctx, _items) = elab_module(ctx, m, FUEL).expect("out of fuel");
    assert!(matches!(ctx.diags, List::Nil), "unexpected diagnostics: {:?}", ctx.diags);
    let v = item_value(&ctx, name).expect("item not found");
    (ctx.metas, v)
}

/// `Byte = u8;` — item 10 is `Byte`.
fn byte_module() -> Module {
    Module { items: cons(Item::Alias(Alias { name: 10, term: Surface::Name(1) }), nil()) }
}

/// `Test = struct { inner : f64be };` — item 11 is `Test`, field 20 is
/// `inner`.
fn test_module() -> Module {
    Module {
        items: cons(
            Item::Struct(StructType {
                name: 11,
                fields: cons(TypeField { name: 20, term: Surface::Name(3) }, nil()),
            }),
            nil(),
        ),
    }
}

/// As `test_module`, but the field format goes through an alias item:
/// `InnerFmt = f64be; Test = struct { inner : InnerFmt };`.
fn test_item_module() -> Module {
    Module {
        items: cons(
            Item::Alias(Alias { name: 12, term: Surface::Name(3) }),
            cons(
                Item::Struct(StructType {
                    name: 11,
                    fields: cons(TypeField { name: 20, term: Surface::Name(12) }, nil()),
                }),
                nil(),
            ),
        ),
    }
}

fn record_field(v: &Value, label: StringId) -> Value {
    match v {
        Value::RecordLit(ls, vs) => {
            let mut ls = ls;
            let mut vs = vs;
            loop {
                match (ls, vs) {
                    (List::Cons(l, lrest), List::Cons(x, xrest)) => {
                        if **l == label {
                            return fathom::semantics::clone_value(x);
                        }
                        ls = lrest;
                        vs = xrest;
                    }
                    _ => panic!("label not found"),
                }
            }
        }
        other => panic!("expected a record, found {:?}", other),
    }
}

#[test]
fn pass_simple_eof_inner() {
    let (ms, byte) = elab_item_format(&byte_module(), 10);
    let buf: Vec<u8> = vec![];
    let r = read(&ms, &buf, 0, byte, FUEL).expect("out of fuel");
    match r {
        Err(ReadError::Eof { offset }) => assert_eq!(offset, 0),
        Err(err) => panic!("eof error expected, found: {:?}", err),
        Ok(_) => panic!("error expected, found: Ok(_)"),
    }
}

#[test]
fn valid_singleton() {
    let (ms, byte) = elab_item_format(&byte_module(), 10);
    let buf: Vec<u8> = vec![31];
    let (v, end) = read(&ms, &buf, 0, byte, FUEL).expect("out of fuel").expect("read failed");
    assert_eq!(v, Value::ConstLit(Const::U8(31, UIntStyle::Decimal)));
    assert_eq!(end, 1);
}

#[test]
fn valid_singleton_trailing() {
    let (ms, byte) = elab_item_format(&byte_module(), 10);
    let buf: Vec<u8> = vec![255, 42];
    let (v, end) = read(&ms, &buf, 0, byte, FUEL).expect("out of fuel").expect("read failed");
    assert_eq!(v, Value::ConstLit(Const::U8(255, UIntStyle::Decimal)));
    assert_eq!(end, 1, "the trailing byte must be left unread");
}

#[test]
fn pass_if_else_format_type_eof_inner() {
    let (ms, test) = elab_item_format(&test_module(), 11);
    let buf: Vec<u8> = vec![];
    let r = read(&ms, &buf, 0, test, FUEL).expect("out of fuel");
    match r {
        Err(ReadError::Eof { offset }) => assert_eq!(offset, 0),
        Err(err) => panic!("eof error expected, found: {:?}", err),
        Ok(_) => panic!("error expected, found: Ok(_)"),
    }
}

#[test]
fn pass_if_else_format_type_valid_test() {
    let (ms, test) = elab_item_format(&test_module(), 11);
    let buf: Vec<u8> = 23.64e10f64.to_bits().to_be_bytes().to_vec();
    let (v, end) = read(&ms, &buf, 0, test, FUEL).expect("out of fuel").expect("read failed");
    let inner = record_field(&v, 20);
    assert_eq!(inner, Value::ConstLit(Const::F64(23.64e10f64.to_bits())));
    assert_eq!(end, 8);
}

#[test]
fn pass_if_else_format_type_valid_test_trailing() {
    let (ms, test) = elab_item_format(&test_module(), 11);
    let mut buf: Vec<u8> = 781.453298f64.to_bits().to_be_bytes().to_vec();
    buf.push(42);
    let (v, end) = read(&ms, &buf, 0, test, FUEL).expect("out of fuel").expect("read failed");
    let inner = record_field(&v, 20);
    assert_eq!(inner, Value::ConstLit(Const::F64(781.453298f64.to_bits())));
    assert_eq!(end, 8, "the trailing byte must be left unread");
}

#[test]
fn pass_if_else_format_type_item_eof_inner() {
    let (ms, test) = elab_item_format(&test_item_module(), 11);
    let buf: Vec<u8> = vec![];
    let r = read(&ms, &buf, 0, test, FUEL).expect("out of fuel");
    match r {
        Err(ReadError::Eof { offset }) => assert_eq!(offset, 0),
        Err(err) => panic!("eof error expected, found: {:?}", err),
        Ok(_) => panic!("error expected, found: Ok(_)"),
    }
}

#[test]
fn pass_if_else_format_type_item_valid_test() {
    let (ms, test) = elab_item_format(&test_item_module(), 11);
    let buf: Vec<u8> = 23.64e10f64.to_bits().to_be_bytes().to_vec();
    let (v, _end) = read(&ms, &buf, 0, test, FUEL).expect("out of fuel").expect("read failed");
    let inner = record_field(&v, 20);
    assert_eq!(inner, Value::ConstLit(Const::F64(23.64e10f64.to_bits())));
}

#[test]
fn pass_if_else_format_type_item_valid_test_trailing() {
    let (ms, test) = elab_item_format(&test_item_module(), 11);
    let mut buf: Vec<u8> = 781.453298f64.to_bits().to_be_bytes().to_vec();
    buf.push(42);
    let (v, end) = read(&ms, &buf, 0, test, FUEL).expect("out of fuel").expect("read failed");
    let inner = record_field(&v, 20);
    assert_eq!(inner, Value::ConstLit(Const::F64(781.453298f64.to_bits())));
    assert_eq!(end, 8);
}

/// `array8 3 u8` over three bytes yields the array of their values.
#[test]
fn array_format_reads_elements() {
    let ms: List<MetaEntry> = nil();
    let fmt = Value::Stuck(
        Head::Prim(Prim::FormatArray8),
        cons(
            Elim::FunApp(Box::new(Value::ConstLit(Const::U8(3, UIntStyle::Decimal)))),
            cons(Elim::FunApp(Box::new(prim_value(Prim::FormatU8))), nil()),
        ),
    );
    let buf: Vec<u8> = vec![0x01, 0x02, 0x03];
    let (v, end) = read(&ms, &buf, 0, fmt, FUEL).expect("out of fuel").expect("read failed");
    let expected = Value::ArrayLit(cons(
        Value::ConstLit(Const::U8(1, UIntStyle::Decimal)),
        cons(
            Value::ConstLit(Const::U8(2, UIntStyle::Decimal)),
            cons(Value::ConstLit(Const::U8(3, UIntStyle::Decimal)), nil()),
        ),
    ));
    assert_eq!(v, expected);
    assert_eq!(end, 3);
}

/// `array8 3 u8` over two bytes fails with `Eof` at offset 2.
#[test]
fn array_format_eof_mid_element() {
    let ms: List<MetaEntry> = nil();
    let fmt = Value::Stuck(
        Head::Prim(Prim::FormatArray8),
        cons(
            Elim::FunApp(Box::new(Value::ConstLit(Const::U8(3, UIntStyle::Decimal)))),
            cons(Elim::FunApp(Box::new(prim_value(Prim::FormatU8))), nil()),
        ),
    );
    let buf: Vec<u8> = vec![0x01, 0x02];
    let r = read(&ms, &buf, 0, fmt, FUEL).expect("out of fuel");
    assert_eq!(r, Err(ReadError::Eof { offset: 2 }));
}

/// An overlap format reads both fields from the same position and ends
/// at the greatest end position.
#[test]
fn overlap_format_shares_start() {
    let ms: List<MetaEntry> = nil();
    let fmt = Value::FormatOverlap(
        cons(30, cons(31, nil())),
        fathom::semantics::Telescope {
            env: Box::new(nil()),
            terms: Box::new(cons(
                Term::Prim(Prim::FormatU16Be),
                cons(Term::Prim(Prim::FormatU8), nil()),
            )),
        },
    );
    let buf: Vec<u8> = vec![0x12, 0x34];
    let (v, end) = read(&ms, &buf, 0, fmt, FUEL).expect("out of fuel").expect("read failed");
    assert_eq!(record_field(&v, 30), Value::ConstLit(Const::U16(0x1234, UIntStyle::Decimal)));
    assert_eq!(record_field(&v, 31), Value::ConstLit(Const::U8(0x12, UIntStyle::Decimal)));
    assert_eq!(end, 2);
}

/// The `fail` format reports a user failure at the current offset.
#[test]
fn fail_format_user_fail() {
    let ms: List<MetaEntry> = nil();
    let fmt = Value::Stuck(
        Head::Prim(Prim::FormatFail),
        cons(Elim::FunApp(Box::new(Value::Universe)), nil()),
    );
    let buf: Vec<u8> = vec![1, 2];
    let r = read(&ms, &buf, 0, fmt, FUEL).expect("out of fuel");
    assert_eq!(r, Err(ReadError::UserFail { offset: 0 }));
}

/// A value that is not a format reports an invalid value.
#[test]
fn non_format_invalid_value() {
    let ms: List<MetaEntry> = nil();
    let r = read(&ms, &vec![1], 3, Value::Universe, FUEL).expect("out of fuel");
    assert_eq!(r, Err(ReadError::InvalidValue { offset: 3 }));
}

/// `repeat_until_end` of a format that consumes nothing is rejected.
#[test]
fn repeat_zero_width_rejected() {
    let ms: List<MetaEntry> = nil();
    let zero_width = Value::Stuck(
        Head::Prim(Prim::FormatSucceed),
        cons(
            Elim::FunApp(Box::new(Value::Universe)),
            cons(Elim::FunApp(Box::new(Value::ConstLit(Const::Bool(true)))), nil()),
        ),
    );
    let fmt = Value::Stuck(
        Head::Prim(Prim::FormatRepeatUntilEnd),
        cons(Elim::FunApp(Box::new(zero_width)), nil()),
    );
    let r = read(&ms, &vec![7], 0, fmt, FUEL).expect("out of fuel");
    assert_eq!(r, Err(ReadError::ZeroWidthRepeat { offset: 0 }));
}

/// `repeat_until_end u8` reads to the end of the buffer.
#[test]
fn repeat_until_end_reads_all() {
    let ms: List<MetaEntry> = nil();
    let fmt = Value::Stuck(
        Head::Prim(Prim::FormatRepeatUntilEnd),
        cons(Elim::FunApp(Box::new(prim_value(Prim::FormatU8))), nil()),
    );
    let buf: Vec<u8> = vec![5, 6];
    let (v, end) = read(&ms, &buf, 0, fmt, FUEL).expect("out of fuel").expect("read failed");
    let expected = Value::ArrayLit(cons(
        Value::ConstLit(Const::U8(5, UIntStyle::Decimal)),
        cons(Value::ConstLit(Const::U8(6, UIntStyle::Decimal)), nil()),
    ));
    assert_eq!(v, expected);
    assert_eq!(end, 2);
}

/// `stream_pos` yields the current position without advancing.
#[test]
fn stream_pos_reports_position() {
    let ms: List<MetaEntry> = nil();
    let (v, end) = read(&ms, &vec![9, 9, 9], 2, prim_value(Prim::FormatStreamPos), FUEL)
        .expect("out of fuel")
        .expect("read failed");
    assert_eq!(v, Value::ConstLit(Const::Pos(2)));
    assert_eq!(end, 2);
}

/// Writing a constant and reading it back yields the same value, for
/// every fixed-width numeric format; reading bytes and writing the
/// result reproduces the bytes.
#[test]
fn numeric_round_trips() {
    let ms: List<MetaEntry> = nil();
    let cases: Vec<(Prim, Const)> = vec![
        (Prim::FormatU8, Const::U8(0xAB, UIntStyle::Hexadecimal)),
        (Prim::FormatU16Be, Const::U16(0x1234, UIntStyle::Decimal)),
        (Prim::FormatU16Le, Const::U16(0x1234, UIntStyle::Decimal)),
        (Prim::FormatU32Be, Const::U32(0xDEADBEEF, UIntStyle::Decimal)),
        (Prim::FormatU32Le, Const::U32(0xDEADBEEF, UIntStyle::Decimal)),
        (Prim::FormatU64Be, Const::U64(0x0123456789ABCDEF, UIntStyle::Decimal)),
        (Prim::FormatU64Le, Const::U64(0x0123456789ABCDEF, UIntStyle::Decimal)),
        (Prim::FormatS8, Const::S8(-7)),
        (Prim::FormatS16Be, Const::S16(-12345)),
        (Prim::FormatS16Le, Const::S16(-12345)),
        (Prim::FormatS32Be, Const::S32(-1234567)),
        (Prim::FormatS32Le, Const::S32(-1234567)),
        (Prim::FormatS64Be, Const::S64(-123456789012345)),
        (Prim::FormatS64Le, Const::S64(-123456789012345)),
        (Prim::FormatF32Be, Const::F32(3.5f32.to_bits())),
        (Prim::FormatF32Le, Const::F32(3.5f32.to_bits())),
        (Prim::FormatF64Be, Const::F64((-0.0f64).to_bits())),
        (Prim::FormatF64Le, Const::F64(f64::NAN.to_bits())),
    ];
    for (p, c) in cases {
        let bytes = write_numeric(p, c).expect("numeric constant must encode");
        let (v, end) = read(&ms, &bytes, 0, prim_value(p), FUEL)
            .expect("out of fuel")
            .expect("read failed");
        assert_eq!(v, Value::ConstLit(c), "write/read failed for {:?}", p);
        assert_eq!(end as usize, bytes.len());
        match v {
            Value::ConstLit(c2) => {
                let bytes2 = write_numeric(p, c2).expect("read constant must encode");
                assert_eq!(bytes2, bytes, "read/write failed for {:?}", p);
            }
            _ => unreachable!(),
        }
    }
}

/// `succeed A x` reads nothing and yields `x`.
#[test]
fn succeed_format_yields_value() {
    let ms: List<MetaEntry> = nil();
    let fmt = Value::Stuck(
        Head::Prim(Prim::FormatSucceed),
        cons(
            Elim::FunApp(Box::new(prim_value(Prim::BoolType))),
            cons(Elim::FunApp(Box::new(Value::ConstLit(Const::Bool(true)))), nil()),
        ),
    );
    let (v, end) = read(&ms, &vec![1, 2], 1, fmt, FUEL).expect("out of fuel").expect("read failed");
    assert_eq!(v, Value::ConstLit(Const::Bool(true)));
    assert_eq!(end, 1);
}

/// `link base f` yields a reference to the base position without
/// advancing; `deref f r` reads at the referenced position and restores
/// the caller's position.
#[test]
fn link_and_deref() {
    let ms: List<MetaEntry> = nil();
    let link = Value::Stuck(
        Head::Prim(Prim::FormatLink),
        cons(
            Elim::FunApp(Box::new(Value::ConstLit(Const::Pos(3)))),
            cons(Elim::FunApp(Box::new(prim_value(Prim::FormatU8))), nil()),
        ),
    );
    let buf: Vec<u8> = vec![10, 11, 12, 13];
    let (v, end) = read(&ms, &buf, 1, link, FUEL).expect("out of fuel").expect("read failed");
    assert_eq!(v, Value::ConstLit(Const::Ref(3)));
    assert_eq!(end, 1, "link must not advance the position");

    let deref = Value::Stuck(
        Head::Prim(Prim::FormatDeref),
        cons(
            Elim::FunApp(Box::new(prim_value(Prim::FormatU8))),
            cons(Elim::FunApp(Box::new(Value::ConstLit(Const::Ref(3)))), nil()),
        ),
    );
    let (v, end) = read(&ms, &buf, 1, deref, FUEL).expect("out of fuel").expect("read failed");
    assert_eq!(v, Value::ConstLit(Const::U8(13, UIntStyle::Decimal)));
    assert_eq!(end, 1, "deref must restore the caller's position");
}

/// `unwrap` yields the contents of `some` and fails on `none`.
#[test]
fn unwrap_format() {
    let ms: List<MetaEntry> = nil();
    let some_five = Value::Stuck(
        Head::Prim(Prim::OptionSome),
        cons(
            Elim::FunApp(Box::new(prim_value(Prim::U8Type))),
            cons(
                Elim::FunApp(Box::new(Value::ConstLit(Const::U8(5, UIntStyle::Decimal)))),
                nil(),
            ),
        ),
    );
    let fmt = Value::Stuck(
        Head::Prim(Prim::FormatUnwrap),
        cons(
            Elim::FunApp(Box::new(prim_value(Prim::U8Type))),
            cons(Elim::FunApp(Box::new(some_five)), nil()),
        ),
    );
    let (v, end) = read(&ms, &vec![], 0, fmt, FUEL).expect("out of fuel").expect("read failed");
    assert_eq!(v, Value::ConstLit(Const::U8(5, UIntStyle::Decimal)));
    assert_eq!(end, 0);

    let none = Value::Stuck(
        Head::Prim(Prim::OptionNone),
        cons(Elim::FunApp(Box::new(prim_value(Prim::U8Type))), nil()),
    );
    let fmt = Value::Stuck(
        Head::Prim(Prim::FormatUnwrap),
        cons(
            Elim::FunApp(Box::new(prim_value(Prim::U8Type))),
            cons(Elim::FunApp(Box::new(none)), nil()),
        ),
    );
    let r = read(&ms, &vec![], 0, fmt, FUEL).expect("out of fuel");
    assert_eq!(r, Err(ReadError::UserFail { offset: 0 }));
}

/// A record format's later fields may depend on the values read by the
/// earlier ones: `struct { len : u8, data : array8 len u8 }`.
#[test]
fn dependent_record_format() {
    let ms: List<MetaEntry> = nil();
    let fmt = Value::FormatRecord(
        cons(40, cons(41, nil())),
        fathom::semantics::Telescope {
            env: Box::new(nil()),
            terms: Box::new(cons(
                Term::Prim(Prim::FormatU8),
                cons(
                    Term::FunApp(
                        Box::new(Term::FunApp(
                            Box::new(Term::Prim(Prim::FormatArray8)),
                            Box::new(Term::RigidVar(0)),
                        )),
                        Box::new(Term::Prim(Prim::FormatU8)),
                    ),
                    nil(),
                ),
            )),
        },
    );
    let buf: Vec<u8> = vec![2, 7, 8, 9];
    let (v, end) = read(&ms, &buf, 0, fmt, FUEL).expect("out of fuel").expect("read failed");
    assert_eq!(record_field(&v, 40), Value::ConstLit(Const::U8(2, UIntStyle::Decimal)));
    assert_eq!(
        record_field(&v, 41),
        Value::ArrayLit(cons(
            Value::ConstLit(Const::U8(7, UIntStyle::Decimal)),
            cons(Value::ConstLit(Const::U8(8, UIntStyle::Decimal)), nil()),
        )),
    );
    assert_eq!(end, 3, "the trailing byte must be left unread");
}
