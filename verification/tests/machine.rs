use uiua_core::prim::Primitive;
use uiua_core::runtime::Uiua;
use uiua_core::value::{Array, Function, FunctionId, Instr, Value};
use uiua_core::Signature;

fn num_list(data: Vec<i64>) -> Value {
    Value::num_list(data)
}

fn num_data(v: &Value) -> (Vec<usize>, Vec<i64>) {
    match v {
        Value::Num(a) => (a.shape.clone(), a.data.clone()),
        _ => panic!("expected a number array"),
    }
}

#[test]
fn reverse_scenario() {
    let mut env = Uiua::new();
    env.push(num_list(vec![1, 2, 3, 9]));
    Primitive::Reverse.run(&mut env, 10).unwrap();
    let out = env.take_stack();
    assert_eq!(out.len(), 1);
    let (shape, data) = num_data(&out[0]);
    assert_eq!(shape, vec![4]);
    assert_eq!(data, vec![9, 3, 2, 1]);
}

#[test]
fn shape_scenario() {
    let mut env = Uiua::new();
    env.push(Value::Num(Array { shape: vec![3, 2], data: vec![1, 2, 3, 4, 5, 6] }));
    Primitive::Shape.run(&mut env, 10).unwrap();
    let out = env.take_stack();
    let (shape, data) = num_data(&out[0]);
    assert_eq!(shape, vec![2]);
    assert_eq!(data, vec![3, 2]);
}

#[test]
fn match_scenario() {
    let mut env = Uiua::new();
    env.push(num_list(vec![1, 2, 3]));
    env.push(num_list(vec![1, 2, 3]));
    Primitive::Match.run(&mut env, 10).unwrap();
    let out = env.take_stack();
    let (shape, data) = num_data(&out[0]);
    assert!(shape.is_empty());
    assert_eq!(data, vec![1]);

    let mut env = Uiua::new();
    env.push(num_list(vec![1, 2, 3]));
    env.push(num_list(vec![1, 2]));
    Primitive::Match.run(&mut env, 10).unwrap();
    let out = env.take_stack();
    let (_, data) = num_data(&out[0]);
    assert_eq!(data, vec![0]);
}

#[test]
fn pick_scenario() {
    let mut env = Uiua::new();
    env.push(num_list(vec![8, 3, 9, 2, 0]));
    env.push(Value::num_scalar(2));
    Primitive::Pick.run(&mut env, 10).unwrap();
    let out = env.take_stack();
    let (shape, data) = num_data(&out[0]);
    assert!(shape.is_empty());
    assert_eq!(data, vec![9]);
}

#[test]
fn reshape_scenario() {
    let mut env = Uiua::new();
    env.push(num_list(vec![1, 2, 3, 4, 5, 6]));
    env.push(num_list(vec![2, 3]));
    Primitive::Reshape.run(&mut env, 10).unwrap();
    let out = env.take_stack();
    let (shape, data) = num_data(&out[0]);
    assert_eq!(shape, vec![2, 3]);
    assert_eq!(data, vec![1, 2, 3, 4, 5, 6]);
}

#[test]
fn classify_scenario() {
    let mut env = Uiua::new();
    env.push(num_list(vec![7, 7, 8, 0, 1, 2, 0]));
    Primitive::Classify.run(&mut env, 10).unwrap();
    let out = env.take_stack();
    let (shape, data) = num_data(&out[0]);
    assert_eq!(shape, vec![7]);
    assert_eq!(data, vec![0, 0, 1, 2, 3, 4, 2]);
}

fn char_value(s: &str) -> Value {
    Value::Char(Array { shape: vec![s.chars().count()], data: s.chars().collect() })
}

#[test]
fn try_scenario() {
    // the body asserts on a zero condition, so it throws its message; the
    // handler does nothing, leaving the message and the re-pushed argument
    let body = Function {
        id: FunctionId::Anonymous(1),
        sig: Signature { args: 1, outputs: 1 },
        instrs: vec![
            Instr::Push(Value::num_scalar(0)),
            Instr::Push(char_value("err")),
            Instr::Prim(Primitive::Assert, 7),
        ],
    };
    let handler = Function {
        id: FunctionId::Anonymous(2),
        sig: Signature { args: 2, outputs: 2 },
        instrs: vec![],
    };
    let mut env = Uiua::new();
    env.push(Value::num_scalar(1));
    env.push(Value::Func(Box::new(handler)));
    env.push(Value::Func(Box::new(body)));
    Primitive::Try.run(&mut env, 10).unwrap();
    let out = env.take_stack();
    // top first: the original argument re-pushed, then the message
    assert_eq!(out.len(), 2);
    let (_, top) = num_data(&out[0]);
    assert_eq!(top, vec![1]);
    match &out[1] {
        Value::Char(a) => {
            let text: String = a.data.iter().collect();
            assert_eq!(text, "err");
        },
        _ => panic!("expected the thrown message"),
    }
}

#[test]
fn try_restores_sizes() {
    // try atomicity: a failing body leaves the stack and anti-stack sizes
    // deterministic: the base, the message, and the re-pushed arguments
    let body = Function {
        id: FunctionId::Anonymous(3),
        sig: Signature { args: 1, outputs: 1 },
        instrs: vec![
            Instr::Push(Value::num_scalar(0)),
            Instr::Push(char_value("boom")),
            Instr::Prim(Primitive::Assert, 1),
        ],
    };
    let handler = Function {
        id: FunctionId::Anonymous(4),
        sig: Signature { args: 2, outputs: 2 },
        instrs: vec![],
    };
    let mut env = Uiua::new();
    env.push(Value::num_scalar(10));
    env.push(Value::num_scalar(20));
    env.push(Value::Func(Box::new(handler)));
    env.push(Value::Func(Box::new(body)));
    let pre_anti = env.antistack_size();
    Primitive::Try.run(&mut env, 10).unwrap();
    assert_eq!(env.antistack_size(), pre_anti);
    assert_eq!(env.stack_size(), 3);
}

#[test]
fn gen_scenario() {
    // the same seed yields the same pair, and the value draw converts to a
    // float in the unit interval
    let (v1, s1) = uiua_core::rng::gen_pair(0);
    let (v2, s2) = uiua_core::rng::gen_pair(0);
    assert_eq!(v1, v2);
    assert_eq!(s1, s2);
    let x = (v1 >> 11) as f64 * (1.0f64 / (1u64 << 53) as f64);
    assert!(0.0 <= x && x < 1.0);

    let mut env = Uiua::new();
    env.push(Value::num_scalar(0));
    Primitive::Gen.run(&mut env, 10).unwrap();
    let first = env.take_stack();
    let mut env = Uiua::new();
    env.push(Value::num_scalar(0));
    Primitive::Gen.run(&mut env, 10).unwrap();
    let second = env.take_stack();
    assert_eq!(num_data(&first[0]).1, num_data(&second[0]).1);
    assert_eq!(num_data(&first[1]).1, num_data(&second[1]).1);
}

#[test]
fn memo_scenario() {
    // the body pops its argument and pushes a fresh tag; a cached call never
    // re-enters the body, so the tag counter stays put and the output repeats
    let body = Function {
        id: FunctionId::Anonymous(5),
        sig: Signature { args: 1, outputs: 1 },
        instrs: vec![
            Instr::Prim(Primitive::Pop, 1),
            Instr::Prim(Primitive::Tag, 2),
        ],
    };
    let body2 = Function {
        id: FunctionId::Anonymous(5),
        sig: Signature { args: 1, outputs: 1 },
        instrs: vec![
            Instr::Prim(Primitive::Pop, 1),
            Instr::Prim(Primitive::Tag, 2),
        ],
    };
    let mut env = Uiua::new();
    env.push(Value::num_scalar(5));
    env.push(Value::Func(Box::new(body)));
    Primitive::Memo.run(&mut env, 10).unwrap();
    let first = env.take_stack();
    assert_eq!(num_data(&first[0]).1, vec![0]);

    env.push(Value::num_scalar(5));
    env.push(Value::Func(Box::new(body2)));
    Primitive::Memo.run(&mut env, 10).unwrap();
    let second = env.take_stack();
    assert_eq!(num_data(&second[0]).1, vec![0]);
}

#[test]
fn memo_hit_never_fails() {
    // a cached call is answered from the table even with no budget at all:
    // the body cannot be re-entered
    let body = Function {
        id: FunctionId::Anonymous(6),
        sig: Signature { args: 1, outputs: 1 },
        instrs: vec![
            Instr::Prim(Primitive::Pop, 1),
            Instr::Prim(Primitive::Tag, 2),
        ],
    };
    let body2 = Function {
        id: FunctionId::Anonymous(6),
        sig: Signature { args: 1, outputs: 1 },
        instrs: vec![
            Instr::Prim(Primitive::Pop, 1),
            Instr::Prim(Primitive::Tag, 2),
        ],
    };
    let mut env = Uiua::new();
    env.push(Value::num_scalar(3));
    env.push(Value::Func(Box::new(body)));
    Primitive::Memo.run(&mut env, 10).unwrap();
    let _ = env.take_stack();
    env.push(Value::num_scalar(3));
    env.push(Value::Func(Box::new(body2)));
    assert!(Primitive::Memo.run(&mut env, 0).is_ok());
}

#[test]
fn stack_conservation() {
    // every implemented primitive with a declared signature moves the stack
    // by exactly its outputs minus its arguments
    let cases: Vec<(Primitive, Vec<Value>)> = vec![
        (Primitive::Dup, vec![Value::num_scalar(3)]),
        (Primitive::Flip, vec![Value::num_scalar(1), Value::num_scalar(2)]),
        (Primitive::Over, vec![Value::num_scalar(1), Value::num_scalar(2)]),
        (Primitive::Pop, vec![Value::num_scalar(3)]),
        (Primitive::Add, vec![num_list(vec![1, 2]), num_list(vec![3, 4])]),
        (Primitive::Reverse, vec![num_list(vec![1, 2])]),
        (Primitive::Couple, vec![num_list(vec![1, 2]), num_list(vec![3, 4])]),
        (Primitive::Len, vec![num_list(vec![1, 2, 3])]),
        (Primitive::Gen, vec![Value::num_scalar(9)]),
    ];
    for (p, args) in cases {
        let mut env = Uiua::new();
        let nargs = args.len();
        for v in args {
            env.push(v);
        }
        let pre = env.stack_size();
        p.run(&mut env, 10).unwrap();
        let a = p.args().unwrap();
        let o = p.outputs().unwrap();
        assert_eq!(env.stack_size(), pre - a + o, "stack delta of {p:?}");
        assert_eq!(a, nargs);
    }
}

#[test]
fn inlined_modifiers_refused() {
    for p in [
        Primitive::Dip,
        Primitive::Gap,
        Primitive::Un,
        Primitive::Under,
        Primitive::Fork,
        Primitive::Both,
        Primitive::Bracket,
        Primitive::Comptime,
    ] {
        let mut env = Uiua::new();
        let r = p.run(&mut env, 10);
        assert!(matches!(r, Err(uiua_core::error::UiuaError::NotInlined(q)) if q == p));
    }
}

#[test]
fn rank_broadcasting() {
    // the rarer-ranked operand's shape begins the other's; each of its
    // elements is replicated along the missing trailing axes
    let mut env = Uiua::new();
    env.push(Value::Num(Array { shape: vec![2, 3], data: vec![10, 20, 30, 40, 50, 60] }));
    env.push(num_list(vec![1, 2]));
    Primitive::Add.run(&mut env, 10).unwrap();
    let out = env.take_stack();
    let (shape, data) = num_data(&out[0]);
    assert_eq!(shape, vec![2, 3]);
    assert_eq!(data, vec![11, 21, 31, 42, 52, 62]);

    // incompatible shapes are refused
    let mut env = Uiua::new();
    env.push(num_list(vec![1, 2, 3]));
    env.push(num_list(vec![1, 2]));
    assert!(matches!(
        Primitive::Add.run(&mut env, 10),
        Err(uiua_core::error::UiuaError::ShapeMismatch)
    ));
}

#[test]
fn take_and_drop() {
    let mut env = Uiua::new();
    env.push(num_list(vec![8, 3, 9, 2, 0]));
    env.push(Value::num_scalar(3));
    Primitive::Take.run(&mut env, 10).unwrap();
    let out = env.take_stack();
    let (shape, data) = num_data(&out[0]);
    assert_eq!(shape, vec![3]);
    assert_eq!(data, vec![8, 3, 9]);

    let mut env = Uiua::new();
    env.push(num_list(vec![8, 3, 9, 2, 0]));
    env.push(Value::num_scalar(-2));
    Primitive::Take.run(&mut env, 10).unwrap();
    let out = env.take_stack();
    assert_eq!(num_data(&out[0]).1, vec![2, 0]);

    let mut env = Uiua::new();
    env.push(num_list(vec![8, 3, 9, 2, 0]));
    env.push(Value::num_scalar(3));
    Primitive::Drop.run(&mut env, 10).unwrap();
    let out = env.take_stack();
    assert_eq!(num_data(&out[0]).1, vec![2, 0]);

    // dropping more rows than there are leaves none; taking more is refused
    let mut env = Uiua::new();
    env.push(num_list(vec![8, 3]));
    env.push(Value::num_scalar(9));
    Primitive::Drop.run(&mut env, 10).unwrap();
    let out = env.take_stack();
    assert_eq!(num_data(&out[0]).1, Vec::<i64>::new());

    let mut env = Uiua::new();
    env.push(num_list(vec![8, 3]));
    env.push(Value::num_scalar(9));
    assert!(matches!(
        Primitive::Take.run(&mut env, 10),
        Err(uiua_core::error::UiuaError::OutOfBounds)
    ));
}

#[test]
fn deduplicate_and_unique() {
    let mut env = Uiua::new();
    env.push(num_list(vec![7, 7, 8, 0, 1, 2, 0]));
    Primitive::Deduplicate.run(&mut env, 10).unwrap();
    let out = env.take_stack();
    let (shape, data) = num_data(&out[0]);
    assert_eq!(shape, vec![5]);
    assert_eq!(data, vec![7, 8, 0, 1, 2]);

    let mut env = Uiua::new();
    env.push(num_list(vec![7, 7, 8, 0, 1, 2, 0]));
    Primitive::Unique.run(&mut env, 10).unwrap();
    let out = env.take_stack();
    let (shape, data) = num_data(&out[0]);
    assert_eq!(shape, vec![7]);
    assert_eq!(data, vec![1, 0, 1, 1, 1, 1, 0]);
}

#[test]
fn save_load_round_trip() {
    let mut env = Uiua::new();
    env.push(Value::num_scalar(42));
    Primitive::Save.run(&mut env, 10).unwrap();
    assert_eq!(env.stack_size(), 0);
    assert_eq!(env.antistack_size(), 1);
    Primitive::Load.run(&mut env, 10).unwrap();
    assert_eq!(env.stack_size(), 1);
    assert_eq!(env.antistack_size(), 0);
    let out = env.take_stack();
    assert_eq!(num_data(&out[0]).1, vec![42]);
}
