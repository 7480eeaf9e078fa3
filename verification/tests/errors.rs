use uiua_core::error::UiuaError;
use uiua_core::prim::Primitive;
use uiua_core::runtime::Uiua;
use uiua_core::value::{Function, FunctionId, Value};
use uiua_core::Signature;

#[test]
fn stack_underflow() {
    let mut env = Uiua::new();
    assert!(matches!(env.pop(), Err(UiuaError::StackUnderflow)));
    let mut env = Uiua::new();
    assert!(matches!(
        Primitive::Reverse.run(&mut env, 10),
        Err(UiuaError::StackUnderflow)
    ));
}

#[test]
fn antistack_underflow() {
    let mut env = Uiua::new();
    assert!(matches!(
        Primitive::Load.run(&mut env, 10),
        Err(UiuaError::AntistackUnderflow)
    ));
}

#[test]
fn type_mismatch() {
    let mut env = Uiua::new();
    env.push(Value::num_list(vec![1, 2]));
    env.push(Value::num_list(vec![9, 9]));
    // the index of a pick must be a scalar whole number
    assert!(matches!(
        Primitive::Pick.run(&mut env, 10),
        Err(UiuaError::TypeMismatch)
    ));
}

#[test]
fn shape_mismatch() {
    let mut env = Uiua::new();
    env.push(Value::num_list(vec![1, 2, 3]));
    env.push(Value::num_list(vec![1, 2]));
    assert!(matches!(
        Primitive::Couple.run(&mut env, 10),
        Err(UiuaError::ShapeMismatch)
    ));
}

#[test]
fn out_of_bounds() {
    let mut env = Uiua::new();
    env.push(Value::num_list(vec![8, 3, 9]));
    env.push(Value::num_scalar(7));
    assert!(matches!(
        Primitive::Pick.run(&mut env, 10),
        Err(UiuaError::OutOfBounds)
    ));
}

#[test]
fn throw_carries_the_message() {
    let mut env = Uiua::new();
    env.push(Value::num_scalar(0));
    env.push(Value::num_scalar(13));
    match Primitive::Assert.run(&mut env, 10) {
        Err(UiuaError::Throw(v, _)) => match *v {
            Value::Num(a) => assert_eq!(a.data, vec![13]),
            _ => panic!("expected the carried number"),
        },
        _ => panic!("expected a throw"),
    }
}

#[test]
fn unsupported_operations() {
    let mut env = Uiua::new();
    env.push(Value::num_scalar(4));
    assert!(matches!(
        Primitive::Sqrt.run(&mut env, 10),
        Err(UiuaError::Unsupported(Primitive::Sqrt))
    ));
}

#[test]
fn fuel_runs_out() {
    let f = Function {
        id: FunctionId::Anonymous(9),
        sig: Signature { args: 0, outputs: 0 },
        instrs: vec![],
    };
    let mut env = Uiua::new();
    env.push(Value::Func(Box::new(f)));
    assert!(matches!(
        Primitive::Rectify.run(&mut env, 0),
        Err(UiuaError::OutOfFuel)
    ));
}

#[test]
fn deal_keeps_the_elements() {
    let mut env = Uiua::new();
    env.push(Value::num_list(vec![5, 1, 4, 2, 3]));
    env.push(Value::num_scalar(11));
    Primitive::Deal.run(&mut env, 10).unwrap();
    let out = env.take_stack();
    match &out[0] {
        Value::Num(a) => {
            assert_eq!(a.shape, vec![5]);
            let mut sorted = a.data.clone();
            sorted.sort();
            assert_eq!(sorted, vec![1, 2, 3, 4, 5]);
        },
        _ => panic!("expected a number array"),
    }
}

#[test]
fn distinct_seeds_draw_apart() {
    let a = uiua_core::rng::gen_pair(0);
    let b = uiua_core::rng::gen_pair(1);
    assert!(a.0 != b.0 || a.1 != b.1);
}
