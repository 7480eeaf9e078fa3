use uiua_core::impl_prim::ImplPrimitive;
use uiua_core::prim::{prim_class, PrimClass, Primitive};
use uiua_core::runtime::Uiua;
use uiua_core::prim::AsciiToken;
use uiua_core::value::Value;

#[test]
fn signatures_and_classes() {
    assert_eq!(Primitive::Dup.args(), Some(1));
    assert_eq!(Primitive::Dup.outputs(), Some(2));
    let sig = Primitive::Couple.signature().unwrap();
    assert_eq!((sig.args, sig.outputs), (2, 1));
    assert!(Primitive::Reduce.is_modifier());
    assert_eq!(Primitive::Under.modifier_args(), Some(2));
    assert!(Primitive::Pi.is_constant());
    assert!(!Primitive::Add.is_constant());
    assert_eq!(Primitive::Save.antioutputs(), Some(1));
    assert_eq!(Primitive::Load.antiargs(), Some(1));
    assert!(PrimClass::MonadicPervasive.is_pervasive());
    assert!(!PrimClass::Stack.is_pervasive());
    assert_eq!(Primitive::Add.class(), PrimClass::DyadicPervasive);
    assert!(Primitive::Cross.is_deprecated());
    assert!(Primitive::Cross.deprecation_suggestion().is_some());
    assert!(Primitive::Recur.is_experimental());
    assert!(!Primitive::Add.is_experimental());
}

#[test]
fn lookups() {
    assert_eq!(Primitive::from_glyph('△'), Some(Primitive::Shape));
    assert_eq!(Primitive::from_glyph('⇌'), Some(Primitive::Reverse));
    assert_eq!(Primitive::from_glyph('º'), None);
    assert_eq!(Primitive::from_name("reverse"), Some(Primitive::Reverse));
    assert_eq!(Primitive::from_name("nosuch"), None);
    assert_eq!(Primitive::from_ascii(AsciiToken::Star), Some(Primitive::Mul));
    assert_eq!(Primitive::Mul.ascii(), Some(AsciiToken::Star));
}

#[test]
fn inverse_involution() {
    for p in Primitive::all().iter().copied() {
        if let Some(q) = p.inverse() {
            assert_eq!(q.inverse(), Some(p), "{p:?} inverts to {q:?} and back");
        }
    }
    assert_eq!(Primitive::Save.inverse(), Some(Primitive::Load));
    assert_eq!(Primitive::Load.inverse(), Some(Primitive::Save));
    assert_eq!(Primitive::Reverse.inverse(), Some(Primitive::Reverse));
    assert_eq!(Primitive::Add.inverse(), None);
}

#[test]
fn display_forms() {
    assert_eq!(Primitive::Reverse.display_string(), "⇌");
    assert_eq!(Primitive::Add.display_string(), "+");
    assert_eq!(Primitive::Memo.display_string(), "memo");
    assert_eq!(Primitive::Keep.format().display_string(), "▽ keep");
    assert_eq!(Primitive::Memo.format().display_string(), "memo");
}

#[test]
fn impl_primitive_arities() {
    assert_eq!(ImplPrimitive::InvCouple.args(), Some(1));
    assert_eq!(ImplPrimitive::InvCouple.outputs(), Some(2));
    assert_eq!(ImplPrimitive::Untake.args(), Some(3));
    assert_eq!(ImplPrimitive::Last.args(), Some(1));
}

#[test]
fn pad_button_classes() {
    assert_eq!(prim_class(Primitive::Save), "anti-function-button");
    assert_eq!(prim_class(Primitive::Reduce), "modifier1-button");
    assert_eq!(prim_class(Primitive::Under), "modifier2-button");
    assert_eq!(prim_class(Primitive::Pi), "noadic-function-button");
    assert_eq!(prim_class(Primitive::Reverse), "monadic-function-button");
    assert_eq!(prim_class(Primitive::Add), "dyadic-function-button");
    assert_eq!(prim_class(Primitive::Insert), "triadic-function-button");
    assert_eq!(prim_class(Primitive::Stack), "variadic-function-button");
}

#[test]
fn box_round_trip() {
    let v = Value::num_list(vec![1, 2, 3]);
    let boxed = uiua_core::array_ops::box_val(v);
    let back = uiua_core::array_ops::unbox(boxed);
    match back {
        Value::Num(a) => {
            assert_eq!(a.data, vec![1, 2, 3]);
            assert_eq!(a.shape, vec![3]);
        },
        _ => panic!("expected the boxed value back"),
    }
}

#[test]
fn couple_round_trip() {
    let a = Value::num_list(vec![1, 2, 3]);
    let b = Value::num_list(vec![4, 5, 6]);
    let o = uiua_core::array_ops::couple(a, b).unwrap();
    match &o {
        Value::Num(arr) => {
            assert_eq!(arr.shape, vec![2, 3]);
            assert_eq!(arr.data, vec![1, 2, 3, 4, 5, 6]);
        },
        _ => panic!("expected a coupled number array"),
    }
    let (a2, b2) = uiua_core::array_ops::uncouple(o).unwrap();
    match (a2, b2) {
        (Value::Num(x), Value::Num(y)) => {
            assert_eq!(x.data, vec![1, 2, 3]);
            assert_eq!(y.data, vec![4, 5, 6]);
        },
        _ => panic!("expected the rows back"),
    }
}

#[test]
fn couple_character_rows() {
    let a = Value::Char(uiua_core::value::Array { shape: vec![2], data: vec!['h', 'i'] });
    let b = Value::Char(uiua_core::value::Array { shape: vec![2], data: vec!['y', 'o'] });
    let o = uiua_core::array_ops::couple(a, b).unwrap();
    match &o {
        Value::Char(arr) => {
            assert_eq!(arr.shape, vec![2, 2]);
            assert_eq!(arr.data, vec!['h', 'i', 'y', 'o']);
        },
        _ => panic!("expected a coupled character array"),
    }
    let (a2, b2) = uiua_core::array_ops::uncouple(o).unwrap();
    match (a2, b2) {
        (Value::Char(x), Value::Char(y)) => {
            assert_eq!(x.data, vec!['h', 'i']);
            assert_eq!(y.data, vec!['y', 'o']);
        },
        _ => panic!("expected the rows back"),
    }
}

#[test]
fn wrapping_arithmetic() {
    let mut env = Uiua::new();
    env.push(Value::num_scalar(i64::MAX));
    env.push(Value::num_scalar(1));
    Primitive::Add.run(&mut env, 10).unwrap();
    let out = env.take_stack();
    match &out[0] {
        Value::Num(a) => assert_eq!(a.data, vec![i64::MIN]),
        _ => panic!("expected a number"),
    }
}

#[test]
fn modulus_is_euclidean() {
    let mut env = Uiua::new();
    // the first argument is the modulus: 3 mod of -5 is 1
    env.push(Value::num_scalar(-5));
    env.push(Value::num_scalar(3));
    Primitive::Mod.run(&mut env, 10).unwrap();
    let out = env.take_stack();
    match &out[0] {
        Value::Num(a) => assert_eq!(a.data, vec![1]),
        _ => panic!("expected a number"),
    }
}
