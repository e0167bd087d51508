//! The core language: evaluation, primitive reduction, normalization,
//! definitional equality, unification and elaboration.

use fathom::elaborate::{check, elab_module, Context};
use fathom::semantics::{
    eval, force, is_equal, normalize, Closure, Elim, Head, MetaEntry, Value,
};
use fathom::surface::{Alias, Item, Module, Surface};
use fathom::syntax::{Const, EntryInfo, Level, List, Prim, StringId, Term, UIntStyle};
use fathom::unify::{unify, UnifyError};

const FUEL: u64 = 1_000_000;

fn nil<T>() -> List<T> {
    List::Nil
}

fn cons<T>(x: T, rest: List<T>) -> List<T> {
    List::Cons(Box::new(x), Box::new(rest))
}

fn prim_value(p: Prim) -> Value {
    Value::Stuck(Head::Prim(p), List::Nil)
}

fn app(f: Term, a: Term) -> Term {
    Term::FunApp(Box::new(f), Box::new(a))
}

fn u8_lit(v: u8) -> Term {
    Term::ConstLit(Const::U8(v, UIntStyle::Decimal))
}

fn eval_closed(t: &Term) -> Value {
    let ms: List<MetaEntry> = nil();
    let env: List<Value> = nil();
    eval(&ms, &env, t, FUEL).expect("out of fuel")
}

#[test]
fn level_succ_increments() {
    assert_eq!(Level(3).succ(), Level(4));
    assert_eq!(Level(0).succ(), Level(1));
}

/// The style merge rule: decimal yields, equal styles keep, mixes fall
/// back to decimal.
#[test]
fn style_merge_rules() {
    assert_eq!(UIntStyle::merge(UIntStyle::Decimal, UIntStyle::Hexadecimal), UIntStyle::Hexadecimal);
    assert_eq!(UIntStyle::merge(UIntStyle::Binary, UIntStyle::Decimal), UIntStyle::Binary);
    assert_eq!(UIntStyle::merge(UIntStyle::Ascii, UIntStyle::Ascii), UIntStyle::Ascii);
    assert_eq!(UIntStyle::merge(UIntStyle::Binary, UIntStyle::Hexadecimal), UIntStyle::Decimal);
    assert_eq!(UIntStyle::merge(UIntStyle::Decimal, UIntStyle::Decimal), UIntStyle::Decimal);
}

/// Constant equality ignores styles and uses bitwise equality on floats.
#[test]
fn const_equality_is_logical() {
    assert_eq!(Const::U8(9, UIntStyle::Binary), Const::U8(9, UIntStyle::Ascii));
    assert_ne!(Const::U8(9, UIntStyle::Decimal), Const::U16(9, UIntStyle::Decimal));
    let nan = f64::NAN.to_bits();
    assert_eq!(Const::F64(nan), Const::F64(nan));
    assert_ne!(Const::F64((-0.0f64).to_bits()), Const::F64(0.0f64.to_bits()));
}

/// `u8_add 1 2` reduces to `3`; division by zero and overflow stay
/// stuck.
#[test]
fn prim_arithmetic_reduces() {
    let sum = eval_closed(&app(app(Term::Prim(Prim::U8Add), u8_lit(1)), u8_lit(2)));
    assert_eq!(sum, Value::ConstLit(Const::U8(3, UIntStyle::Decimal)));

    let div = eval_closed(&app(app(Term::Prim(Prim::U8Div), u8_lit(1)), u8_lit(0)));
    assert!(matches!(div, Value::Stuck(Head::Prim(Prim::U8Div), _)), "division by zero must stay stuck");

    let over = eval_closed(&app(app(Term::Prim(Prim::U8Add), u8_lit(255)), u8_lit(1)));
    assert!(matches!(over, Value::Stuck(Head::Prim(Prim::U8Add), _)), "overflow must stay stuck");
}

/// A let binds its definition; the bound variable evaluates to it.
#[test]
fn let_binds_definition() {
    let t = Term::Let(
        None,
        Box::new(Term::Prim(Prim::U8Type)),
        Box::new(u8_lit(7)),
        Box::new(Term::RigidVar(0)),
    );
    assert_eq!(eval_closed(&t), Value::ConstLit(Const::U8(7, UIntStyle::Decimal)));
}

/// A beta redex reduces: `(fn x => x) 5` evaluates to `5`.
#[test]
fn beta_reduction() {
    let t = app(Term::FunLit(None, Box::new(Term::RigidVar(0))), u8_lit(5));
    assert_eq!(eval_closed(&t), Value::ConstLit(Const::U8(5, UIntStyle::Decimal)));
}

/// Projection picks the field at the label.
#[test]
fn record_projection() {
    let t = Term::RecordProj(
        Box::new(Term::RecordLit(
            cons(1, cons(2, nil())),
            cons(u8_lit(10), cons(u8_lit(20), nil())),
        )),
        2,
    );
    assert_eq!(eval_closed(&t), Value::ConstLit(Const::U8(20, UIntStyle::Decimal)));
}

/// A constant match takes the first matching branch, or the default.
#[test]
fn const_match_takes_branch() {
    let branches = cons(
        (Const::U8(1, UIntStyle::Decimal), u8_lit(11)),
        cons((Const::U8(2, UIntStyle::Decimal), u8_lit(22)), nil()),
    );
    let t = Term::ConstMatch(
        Box::new(u8_lit(2)),
        branches,
        Some(Box::new(u8_lit(0))),
    );
    assert_eq!(eval_closed(&t), Value::ConstLit(Const::U8(22, UIntStyle::Decimal)));

    let t2 = Term::ConstMatch(
        Box::new(u8_lit(9)),
        cons((Const::U8(1, UIntStyle::Decimal), u8_lit(11)), nil()),
        Some(Box::new(u8_lit(0))),
    );
    assert_eq!(eval_closed(&t2), Value::ConstLit(Const::U8(0, UIntStyle::Decimal)));
}

/// Normalising twice is a fixed point.
#[test]
fn normalize_twice_fixed_point() {
    let ms: List<MetaEntry> = nil();
    let env: List<Value> = nil();
    let terms: Vec<Term> = vec![
        app(app(Term::Prim(Prim::U8Add), u8_lit(1)), u8_lit(2)),
        Term::ArrayLit(cons(u8_lit(1), cons(u8_lit(2), nil()))),
        Term::Let(
            None,
            Box::new(Term::Universe),
            Box::new(Term::Prim(Prim::U8Type)),
            Box::new(Term::RigidVar(0)),
        ),
        Term::FunLit(None, Box::new(Term::RigidVar(0))),
    ];
    for t in terms {
        let n1 = normalize(&ms, &env, &t, FUEL).expect("out of fuel");
        let n2 = normalize(&ms, &env, &n1, FUEL).expect("out of fuel");
        assert_eq!(n2, n1, "normalising {:?} twice must be a fixed point", t);
    }
}

/// Definitional equality is reflexive, symmetric and transitive on
/// normal forms, and respects eta for functions.
#[test]
fn is_equal_equivalence_and_eta() {
    let ms: List<MetaEntry> = nil();
    // Three eta-equivalent views of the variable `g` at level 0.
    let g = Value::Stuck(Head::RigidVar(0), List::Nil);
    let g2 = Value::Stuck(Head::RigidVar(0), List::Nil);
    // fn x => g x
    let eta = Value::FunLit(
        None,
        Closure {
            env: Box::new(cons(Value::Stuck(Head::RigidVar(0), List::Nil), nil())),
            term: Box::new(app(Term::RigidVar(1), Term::RigidVar(0))),
        },
    );
    let eta2 = Value::FunLit(
        None,
        Closure {
            env: Box::new(cons(Value::Stuck(Head::RigidVar(0), List::Nil), nil())),
            term: Box::new(app(Term::RigidVar(1), Term::RigidVar(0))),
        },
    );
    // Reflexivity.
    assert_eq!(is_equal(&ms, 1, g, g2, FUEL), Some(true));
    // Eta, both ways (symmetry).
    let gl = Value::Stuck(Head::RigidVar(0), List::Nil);
    let gr = Value::Stuck(Head::RigidVar(0), List::Nil);
    assert_eq!(is_equal(&ms, 1, eta, gl, FUEL), Some(true));
    assert_eq!(is_equal(&ms, 1, gr, eta2, FUEL), Some(true));
    // Transitivity on a chain of three equal constants.
    let c1 = Value::ConstLit(Const::U16(5, UIntStyle::Decimal));
    let c2 = Value::ConstLit(Const::U16(5, UIntStyle::Hexadecimal));
    let c3 = Value::ConstLit(Const::U16(5, UIntStyle::Binary));
    let c1b = Value::ConstLit(Const::U16(5, UIntStyle::Decimal));
    let c2b = Value::ConstLit(Const::U16(5, UIntStyle::Hexadecimal));
    let c3b = Value::ConstLit(Const::U16(5, UIntStyle::Binary));
    assert_eq!(is_equal(&ms, 0, c1, c2, FUEL), Some(true));
    assert_eq!(is_equal(&ms, 0, c2b, c3, FUEL), Some(true));
    assert_eq!(is_equal(&ms, 0, c1b, c3b, FUEL), Some(true));
    // Inequality is detected.
    let d1 = Value::ConstLit(Const::U16(5, UIntStyle::Decimal));
    let d2 = Value::ConstLit(Const::U16(6, UIntStyle::Decimal));
    assert_eq!(is_equal(&ms, 0, d1, d2, FUEL), Some(false));
}

/// Unification solves a metavariable against a concrete value, and the
/// sides are equal afterwards.
#[test]
fn unify_solves_meta() {
    let ms: List<MetaEntry> = cons(MetaEntry::Unsolved, nil());
    let meta = Value::Stuck(Head::FlexibleVar(0), List::Nil);
    let rhs = prim_value(Prim::U8Type);
    let (ms2, outcome) = unify(&ms, 0, meta, rhs, FUEL).expect("out of fuel");
    assert_eq!(outcome, Ok(()));
    let meta2 = Value::Stuck(Head::FlexibleVar(0), List::Nil);
    let rhs2 = prim_value(Prim::U8Type);
    assert_eq!(is_equal(&ms2, 0, meta2, rhs2, FUEL), Some(true));
}

/// Unification of mismatched constants fails with a mismatch, and the
/// occurs check rejects a circular solution.
#[test]
fn unify_failures() {
    let ms: List<MetaEntry> = cons(MetaEntry::Unsolved, nil());
    let a = Value::ConstLit(Const::U8(1, UIntStyle::Decimal));
    let b = Value::ConstLit(Const::U8(2, UIntStyle::Decimal));
    let (_, outcome) = unify(&ms, 0, a, b, FUEL).expect("out of fuel");
    assert_eq!(outcome, Err(UnifyError::Mismatch));

    // ?0 = Option ?0 must fail the occurs check.
    let ms: List<MetaEntry> = cons(MetaEntry::Unsolved, nil());
    let meta = Value::Stuck(Head::FlexibleVar(0), List::Nil);
    let circular = Value::Stuck(
        Head::Prim(Prim::OptionType),
        cons(Elim::FunApp(Box::new(Value::Stuck(Head::FlexibleVar(0), List::Nil))), nil()),
    );
    let (_, outcome) = unify(&ms, 0, meta, circular, FUEL).expect("out of fuel");
    assert_eq!(outcome, Err(UnifyError::Occurs));

    // A rigid variable outside the pattern escapes.
    let ms: List<MetaEntry> = cons(MetaEntry::Unsolved, nil());
    let meta = Value::Stuck(Head::FlexibleVar(0), List::Nil);
    let escaping = Value::Stuck(Head::RigidVar(0), List::Nil);
    let (_, outcome) = unify(&ms, 1, meta, escaping, FUEL).expect("out of fuel");
    assert_eq!(outcome, Err(UnifyError::Escape));
}

/// Elaborating `(fn x => x) : ?a -> ?a` against the expected type
/// `U8 -> U8` solves `?a := U8`.
#[test]
fn elaboration_solves_named_hole() {
    // Primitive table: `U8` = 1.
    let prims = cons((1u32, Prim::U8Type), nil());
    let ctx = Context::new(0, prims);
    let e = Surface::Ann(
        Box::new(Surface::FunLit(5, Box::new(Surface::Name(5)))),
        Box::new(Surface::FunType(
            None,
            Box::new(Surface::Hole(Some(7))),
            Box::new(Surface::Hole(Some(7))),
        )),
    );
    let expected = Value::FunType(
        None,
        Box::new(prim_value(Prim::U8Type)),
        Closure { env: Box::new(nil()), term: Box::new(Term::Prim(Prim::U8Type)) },
    );
    let (ctx, _t) = check(ctx, &e, expected, FUEL).expect("out of fuel");
    assert!(matches!(ctx.diags, List::Nil), "unexpected diagnostics: {:?}", ctx.diags);
    // `?a` was the first metavariable created; it must now be `U8`.
    let solved = force(&ctx.metas, Value::Stuck(Head::FlexibleVar(0), List::Nil), FUEL)
        .expect("out of fuel");
    assert_eq!(solved, prim_value(Prim::U8Type));
}

/// Normalising `Repr (FormatRecord([x, y], [u16be, array8 x u8]))`
/// yields `RecordType([x, y], [U16, Array8 x U8])`.
#[test]
fn repr_of_format_record() {
    // Labels: `x` = 1, `y` = 2.
    let fmt = Term::FormatRecord(
        cons(1, cons(2, nil())),
        cons(
            Term::Prim(Prim::FormatU16Be),
            cons(
                app(app(Term::Prim(Prim::FormatArray8), Term::RigidVar(0)), Term::Prim(Prim::FormatU8)),
                nil(),
            ),
        ),
    );
    let t = app(Term::Prim(Prim::FormatRepr), fmt);
    let ms: List<MetaEntry> = nil();
    let env: List<Value> = nil();
    let n = normalize(&ms, &env, &t, FUEL).expect("out of fuel");
    let expected = Term::RecordType(
        cons(1, cons(2, nil())),
        cons(
            Term::Prim(Prim::U16Type),
            cons(
                app(app(Term::Prim(Prim::Array8Type), Term::RigidVar(0)), Term::Prim(Prim::U8Type)),
                nil(),
            ),
        ),
    );
    assert_eq!(n, expected);
}

/// An unbound name is reported and elaboration recovers.
#[test]
fn unbound_name_is_reported() {
    let ctx = Context::new(0, nil());
    let m = Module { items: cons(Item::Alias(Alias { name: 10, term: Surface::Name(99) }), nil()) };
    let (ctx, _items) = elab_module(ctx, &m, FUEL).expect("out of fuel");
    match ctx.diags {
        List::Cons(d, _) => {
            assert_eq!(d.code, fathom::diagnostics::MessageCode::UnboundName);
            assert_eq!(d.name, Some(99));
        }
        List::Nil => panic!("a diagnostic was expected"),
    }
}

/// A redefined item is reported as a bug and skipped.
#[test]
fn item_redefinition_is_reported() {
    let prims = cons((1u32, Prim::U8Type), nil());
    let ctx = Context::new(0, prims);
    let m = Module {
        items: cons(
            Item::Alias(Alias { name: 10, term: Surface::Name(1) }),
            cons(Item::Alias(Alias { name: 10, term: Surface::Universe }), nil()),
        ),
    };
    let (ctx, items) = elab_module(ctx, &m, FUEL).expect("out of fuel");
    match ctx.diags {
        List::Cons(d, _) => {
            assert_eq!(d.code, fathom::diagnostics::MessageCode::ItemNameReused);
            assert_eq!(d.severity, fathom::diagnostics::Severity::Bug);
        }
        List::Nil => panic!("a diagnostic was expected"),
    }
    // Only the first definition survives.
    match items {
        List::Cons(_, rest) => assert!(matches!(*rest, List::Nil)),
        List::Nil => panic!("the first item must survive"),
    }
}

/// A number literal out of the expected type's range is reported and
/// truncated.
#[test]
fn out_of_range_literal_truncates() {
    let ctx = Context::new(0, nil());
    let e = Surface::NumberLit(300, UIntStyle::Decimal);
    let (ctx, t) = check(ctx, &e, prim_value(Prim::U8Type), FUEL).expect("out of fuel");
    match ctx.diags {
        List::Cons(d, _) => assert_eq!(d.code, fathom::diagnostics::MessageCode::IntegerOutOfBounds),
        List::Nil => panic!("a diagnostic was expected"),
    }
    assert_eq!(t, Term::ConstLit(Const::U8(44, UIntStyle::Decimal)));
}

/// A number literal checked against a metavariable type is flagged as an
/// unconstrained integer, as the constraint is left unresolved.
#[test]
fn unconstrained_integer_is_flagged() {
    let ctx = Context::new(0, nil());
    let m = Module {
        items: cons(
            Item::Alias(Alias { name: 10, term: Surface::NumberLit(5, UIntStyle::Decimal) }),
            nil(),
        ),
    };
    let (ctx, _items) = elab_module(ctx, &m, FUEL).expect("out of fuel");
    match ctx.diags {
        List::Cons(d, _) => assert_eq!(d.code, fathom::diagnostics::MessageCode::UnconstrainedInt),
        List::Nil => panic!("a diagnostic was expected"),
    }
}

/// Checking an array literal against a fixed-width array type checks the
/// length.
#[test]
fn array_literal_against_array_type() {
    let prims = nil();
    let ctx = Context::new(0, prims);
    let expected = Value::Stuck(
        Head::Prim(Prim::Array8Type),
        cons(
            Elim::FunApp(Box::new(Value::ConstLit(Const::U8(2, UIntStyle::Decimal)))),
            cons(Elim::FunApp(Box::new(prim_value(Prim::U8Type))), nil()),
        ),
    );
    let e = Surface::ArrayLit(cons(
        Surface::NumberLit(1, UIntStyle::Decimal),
        cons(Surface::NumberLit(2, UIntStyle::Decimal), nil()),
    ));
    let (ctx, t) = check(ctx, &e, expected, FUEL).expect("out of fuel");
    assert!(matches!(ctx.diags, List::Nil), "unexpected diagnostics: {:?}", ctx.diags);
    assert_eq!(t, Term::ArrayLit(cons(u8_lit(1), cons(u8_lit(2), nil()))));
}

/// A match expression elaborates to a constant match over the scrutinee.
#[test]
fn match_elaborates_to_const_match() {
    let ctx = Context::new(0, nil());
    let e = Surface::Match(
        Box::new(Surface::Ann(
            Box::new(Surface::NumberLit(1, UIntStyle::Decimal)),
            Box::new(Surface::Name(1)),
        )),
        cons((1u64, Surface::NumberLit(10, UIntStyle::Decimal)), nil()),
        Some(Box::new(Surface::NumberLit(0, UIntStyle::Decimal))),
    );
    let prims = cons((1u32, Prim::U8Type), nil());
    let ctx = Context { prims, ..ctx };
    let (ctx, t) = check(ctx, &e, prim_value(Prim::U8Type), FUEL).expect("out of fuel");
    assert!(matches!(ctx.diags, List::Nil), "unexpected diagnostics: {:?}", ctx.diags);
    match t {
        Term::ConstMatch(_, branches, Some(d)) => {
            match branches {
                List::Cons(b, _) => {
                    assert_eq!(b.0, Const::U8(1, UIntStyle::Decimal));
                    assert_eq!(b.1, u8_lit(10));
                }
                List::Nil => panic!("one branch expected"),
            }
            assert_eq!(*d, u8_lit(0));
        }
        other => panic!("a constant match was expected, found {:?}", other),
    }
}

/// Number formatting in each style, including the four-character code.
#[test]
fn format_styles() {
    assert_eq!(UIntStyle::Decimal.format(1234, 2), "1234");
    assert_eq!(UIntStyle::Decimal.format(0, 1), "0");
    assert_eq!(UIntStyle::Hexadecimal.format(0x1F, 1), "0x1f");
    assert_eq!(UIntStyle::Binary.format(5, 1), "0b101");
    // "abcd" as a big-endian four-character code.
    let fourcc = u32::from_be_bytes(*b"abcd") as u64;
    assert_eq!(UIntStyle::Ascii.format(fourcc, 4), "\"abcd\"");
    // Unprintable bytes fall back to hexadecimal.
    assert_eq!(UIntStyle::Ascii.format(0x00611F62, 4), "0x611f62");
}

/// Signed arithmetic: negation, absolute values and the unsigned
/// absolute value at the minimum.
#[test]
fn signed_prims_reduce() {
    let neg = eval_closed(&app(Term::Prim(Prim::S8Neg), Term::ConstLit(Const::S8(5))));
    assert_eq!(neg, Value::ConstLit(Const::S8(-5)));

    let abs = eval_closed(&app(Term::Prim(Prim::S8Abs), Term::ConstLit(Const::S8(-7))));
    assert_eq!(abs, Value::ConstLit(Const::S8(7)));

    let abs_min = eval_closed(&app(Term::Prim(Prim::S8Abs), Term::ConstLit(Const::S8(i8::MIN))));
    assert!(
        matches!(abs_min, Value::Stuck(Head::Prim(Prim::S8Abs), _)),
        "the absolute value of the minimum must stay stuck",
    );

    let uabs_min = eval_closed(&app(Term::Prim(Prim::S8UAbs), Term::ConstLit(Const::S8(i8::MIN))));
    assert_eq!(uabs_min, Value::ConstLit(Const::U8(128, UIntStyle::Decimal)));
}

/// Position arithmetic and boolean operations.
#[test]
fn pos_and_bool_prims_reduce() {
    let moved = eval_closed(&app(
        app(Term::Prim(Prim::PosAddU8), Term::ConstLit(Const::Pos(10))),
        u8_lit(5),
    ));
    assert_eq!(moved, Value::ConstLit(Const::Pos(15)));

    let b = eval_closed(&app(
        app(Term::Prim(Prim::BoolXor), Term::ConstLit(Const::Bool(true))),
        Term::ConstLit(Const::Bool(true)),
    ));
    assert_eq!(b, Value::ConstLit(Const::Bool(false)));

    let cmp = eval_closed(&app(app(Term::Prim(Prim::U8Lt), u8_lit(3)), u8_lit(4)));
    assert_eq!(cmp, Value::ConstLit(Const::Bool(true)));
}

/// The option eliminator reduces on `some` and `none`.
#[test]
fn option_fold_reduces() {
    let some_3 = app(app(Term::Prim(Prim::OptionSome), Term::Prim(Prim::U8Type)), u8_lit(3));
    let none = app(Term::Prim(Prim::OptionNone), Term::Prim(Prim::U8Type));
    let fold = |opt: Term| {
        app(
            app(
                app(
                    app(
                        app(Term::Prim(Prim::OptionFold), Term::Prim(Prim::U8Type)),
                        Term::Prim(Prim::U8Type),
                    ),
                    u8_lit(0),
                ),
                Term::FunLit(None, Box::new(Term::RigidVar(0))),
            ),
            opt,
        )
    };
    assert_eq!(eval_closed(&fold(some_3)), Value::ConstLit(Const::U8(3, UIntStyle::Decimal)));
    assert_eq!(eval_closed(&fold(none)), Value::ConstLit(Const::U8(0, UIntStyle::Decimal)));
}

/// A flexible insertion applies the metavariable to the parameters in
/// scope, skipping definitions, and looks through solutions.
#[test]
fn flexible_insertion_applies_parameters() {
    // ?0 is solved to `fn x => x`; the environment holds one parameter.
    let ms: List<MetaEntry> = cons(
        MetaEntry::Solved(Box::new(Value::FunLit(
            None,
            Closure { env: Box::new(nil()), term: Box::new(Term::RigidVar(0)) },
        ))),
        nil(),
    );
    let env: List<Value> = cons(Value::ConstLit(Const::U8(9, UIntStyle::Decimal)), nil());
    let t = Term::FlexibleInsertion(0, cons(EntryInfo::Parameter, nil()));
    let v = eval(&ms, &env, &t, FUEL).expect("out of fuel");
    assert_eq!(v, Value::ConstLit(Const::U8(9, UIntStyle::Decimal)));

    // With the entry marked as a definition, nothing is applied.
    let t2 = Term::FlexibleInsertion(0, cons(EntryInfo::Definition, nil()));
    let v2 = eval(&ms, &env, &t2, FUEL).expect("out of fuel");
    assert!(matches!(v2, Value::FunLit(_, _)));
}

/// Records are compared up to eta: a record literal of projections
/// equals the neutral value it projects from.
#[test]
fn record_eta_equality() {
    let ms: List<MetaEntry> = nil();
    let neutral = Value::Stuck(Head::RigidVar(0), List::Nil);
    let lit = Value::RecordLit(
        cons(1, cons(2, nil())),
        cons(
            Value::Stuck(Head::RigidVar(0), cons(Elim::RecordProj(1), nil())),
            cons(Value::Stuck(Head::RigidVar(0), cons(Elim::RecordProj(2), nil())), nil()),
        ),
    );
    assert_eq!(is_equal(&ms, 1, lit, neutral, FUEL), Some(true));
}

/// Inference gives a type that itself checks: the elaborated term of a
/// record literal has a record type whose fields are the field types.
#[test]
fn elaboration_preserves_types() {
    let prims = cons((1u32, Prim::U8Type), nil());
    let ctx = Context::new(0, prims);
    let e = Surface::RecordLit(cons(
        (
            5u32,
            Surface::Ann(
                Box::new(Surface::NumberLit(9, UIntStyle::Decimal)),
                Box::new(Surface::Name(1)),
            ),
        ),
        nil(),
    ));
    let (ctx, t, ty) = fathom::elaborate::infer(ctx, &e, FUEL).expect("out of fuel");
    assert!(matches!(ctx.diags, List::Nil), "unexpected diagnostics: {:?}", ctx.diags);
    // The elaborated term evaluates.
    let v = eval(&ctx.metas, &ctx.env, &t, FUEL).expect("out of fuel");
    assert!(matches!(v, Value::RecordLit(_, _)));
    // The inferred type is a record type and quotes back to a term.
    assert!(matches!(ty, Value::RecordType(_, _)));
    let tyt = fathom::semantics::quote(&ctx.metas, 0, ty, FUEL).expect("out of fuel");
    assert!(matches!(tyt, Term::RecordType(_, _)));
}

/// `lookup_record` finds a field by label on record literals only.
#[test]
fn lookup_record_by_label() {
    let rec = Value::RecordLit(
        cons(1, cons(2, nil())),
        cons(
            Value::ConstLit(Const::U8(10, UIntStyle::Decimal)),
            cons(Value::ConstLit(Const::U8(20, UIntStyle::Decimal)), nil()),
        ),
    );
    assert_eq!(rec.lookup_record(2), Some(Value::ConstLit(Const::U8(20, UIntStyle::Decimal))));
    assert_eq!(rec.lookup_record(9), None);
    assert_eq!(Value::Universe.lookup_record(1), None);
}
