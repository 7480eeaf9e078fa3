//! Deep value identity, cloning and match equality: the groundwork every
//! structural operation builds on.
use vstd::prelude::*;

use crate::value::{
    boxed_all_wf, id_eq, instr_wf, instrs_wf, val_match, value_wf, Array, Boxed, Function,
    FunctionId, Instr, Value,
};
use crate::value::{copy_vec, vec_eq_char, vec_eq_i64, vec_eq_usize};

verus! {

/// Deep value identity over views: equal shapes and elements, boxes
/// pointwise, and functions equal in identity, signature and instructions.
pub open spec fn val_sim(a: Value, b: Value) -> bool
    decreases a,
{
    match (a, b) {
        (Value::Num(x), Value::Num(y)) => x.shape@ == y.shape@ && x.data@ == y.data@,
        (Value::Char(x), Value::Char(y)) => x.shape@ == y.shape@ && x.data@ == y.data@,
        (Value::Box(x), Value::Box(y)) => x.shape@ == y.shape@ && x.data@.len() == y.data@.len()
            && (forall|i: int|
            0 <= i < x.data@.len() ==> val_sim(*(#[trigger] x.data@[i]).0, *y.data@[i].0)),
        (Value::Func(f), Value::Func(g)) => fn_sim(*f, *g),
        _ => false,
    }
}

/// Deep function identity over views.
pub open spec fn fn_sim(f: Function, g: Function) -> bool
    decreases f,
{
    id_eq(f.id, g.id) && f.sig == g.sig && f.instrs@.len() == g.instrs@.len() && (forall|i: int|
        0 <= i < f.instrs@.len() ==> instr_sim(#[trigger] f.instrs@[i], g.instrs@[i]))
}

/// Deep instruction identity over views.
pub open spec fn instr_sim(a: Instr, b: Instr) -> bool
    decreases a,
{
    match (a, b) {
        (Instr::Push(v), Instr::Push(w)) => val_sim(v, w),
        (Instr::Prim(p, s), Instr::Prim(q, t)) => p == q && s == t,
        (Instr::ImplPrim(p, s), Instr::ImplPrim(q, t)) => p == q && s == t,
        (Instr::Call(s), Instr::Call(t)) => s == t,
        _ => false,
    }
}

/// Clone a value: the copy is deeply identical to the original.
pub fn clone_value(v: &Value) -> (r: Value)
    ensures
        val_sim(r, *v),
    decreases *v,
{
    match v {
        Value::Num(a) => Value::Num(Array { shape: copy_vec(&a.shape), data: copy_vec(&a.data) }),
        Value::Char(a) => Value::Char(Array { shape: copy_vec(&a.shape), data: copy_vec(&a.data) }),
        Value::Box(a) => {
            let data = clone_boxed_vec(&a.data);
            Value::Box(Array { shape: copy_vec(&a.shape), data })
        },
        Value::Func(f) => Value::Func(Box::new(clone_function(&**f))),
    }
}

/// Clone a vector of boxed values, element by element.
fn clone_boxed_vec(d: &Vec<Boxed>) -> (r: Vec<Boxed>)
    ensures
        r@.len() == d@.len(),
        forall|j: int| 0 <= j < d@.len() ==> val_sim(*(#[trigger] r@[j]).0, *d@[j].0),
    decreases *d,
{
    let mut out: Vec<Boxed> = Vec::new();
    let mut i: usize = 0;
    while i < d.len()
        invariant
            i <= d@.len(),
            out@.len() == i,
            forall|j: int| 0 <= j < i ==> val_sim(*(#[trigger] out@[j]).0, *d@[j].0),
        decreases d@.len() - i,
    {
        let inner = clone_value(&*d[i].0);
        out.push(Boxed(Box::new(inner)));
        i += 1;
    }
    out
}

/// Clone a function: the copy is deeply identical to the original.
pub fn clone_function(f: &Function) -> (r: Function)
    ensures
        fn_sim(r, *f),
    decreases *f,
{
    let id = match &f.id {
        FunctionId::Main => FunctionId::Main,
        FunctionId::Named(s) => FunctionId::Named(s.clone()),
        FunctionId::Anonymous(k) => FunctionId::Anonymous(*k),
    };
    let mut instrs: Vec<Instr> = Vec::new();
    for i in 0..f.instrs.len()
        invariant
            instrs@.len() == i,
            forall|j: int| 0 <= j < i ==> instr_sim(#[trigger] instrs@[j], f.instrs@[j]),
    {
        let ins = match &f.instrs[i] {
            Instr::Push(v) => Instr::Push(clone_value(v)),
            Instr::Prim(p, s) => Instr::Prim(*p, *s),
            Instr::ImplPrim(p, s) => Instr::ImplPrim(*p, *s),
            Instr::Call(s) => Instr::Call(*s),
        };
        instrs.push(ins);
    }
    Function { id, sig: f.sig, instrs }
}

/// Whether two values match: equal shapes and equal elements.
pub fn values_match(a: &Value, b: &Value) -> (r: bool)
    ensures
        r == val_match(*a, *b),
    decreases *a,
{
    match (a, b) {
        (Value::Num(x), Value::Num(y)) => vec_eq_usize(&x.shape, &y.shape) && vec_eq_i64(
            &x.data,
            &y.data,
        ),
        (Value::Char(x), Value::Char(y)) => vec_eq_usize(&x.shape, &y.shape) && vec_eq_char(
            &x.data,
            &y.data,
        ),
        (Value::Box(x), Value::Box(y)) => {
            if !vec_eq_usize(&x.shape, &y.shape) {
                return false;
            }
            if x.data.len() != y.data.len() {
                return false;
            }
            let all_eq = boxed_vecs_match(&x.data, &y.data);
            proof {
                lemma_boxed_match_iff(x.data@, y.data@);
            }
            all_eq
        },
        (Value::Func(f), Value::Func(g)) => match (&f.id, &g.id) {
            (FunctionId::Main, FunctionId::Main) => true,
            (FunctionId::Named(x), FunctionId::Named(y)) => x.eq(y),
            (FunctionId::Anonymous(x), FunctionId::Anonymous(y)) => x == y,
            _ => false,
        },
        _ => false,
    }
}

/// Whether two vectors of boxed values match pointwise.
fn boxed_vecs_match(x: &Vec<Boxed>, y: &Vec<Boxed>) -> (r: bool)
    requires
        x@.len() == y@.len(),
    ensures
        r == (forall|i: int| 0 <= i < x@.len() ==> val_match(*(#[trigger] x@[i]).0, *y@[i].0)),
    decreases *x,
{
    let mut i: usize = 0;
    while i < x.len()
        invariant
            x@.len() == y@.len(),
            i <= x@.len(),
            forall|j: int| 0 <= j < i ==> val_match(*(#[trigger] x@[j]).0, *y@[j].0),
        decreases x@.len() - i,
    {
        if !values_match(&*x[i].0, &*y[i].0) {
            return false;
        }
        i += 1;
    }
    true
}

/// The stepwise box comparison agrees with the pointwise one.
proof fn lemma_boxed_match_iff(x: Seq<Boxed>, y: Seq<Boxed>)
    requires
        x.len() == y.len(),
    ensures
        crate::value::boxed_match(x, y) <==> (forall|i: int|
            0 <= i < x.len() ==> val_match(*(#[trigger] x[i]).0, *y[i].0)),
    decreases x, x.len(),
{
    if x.len() > 0 {
        lemma_boxed_match_iff(x.drop_first(), y.drop_first());
        assert(forall|i: int|
            0 <= i < x.drop_first().len() ==> #[trigger] x.drop_first()[i] == x[i + 1]
                && y.drop_first()[i] == y[i + 1]);
        if val_match(*x[0].0, *y[0].0) && crate::value::boxed_match(x.drop_first(), y.drop_first()) {
            assert forall|i: int| 0 <= i < x.len() implies val_match(
                *(#[trigger] x[i]).0,
                *y[i].0,
            ) by {
                if i > 0 {
                    assert(x.drop_first()[i - 1] == x[i]);
                    assert(val_match(*x.drop_first()[i - 1].0, *y.drop_first()[i - 1].0));
                }
            }
        }
    }
}

/// A value identical to a well-formed value is well-formed.
pub proof fn lemma_sim_to_wf(a: Value, b: Value)
    requires
        val_sim(a, b),
        value_wf(b),
    ensures
        value_wf(a),
    decreases a,
{
    match (a, b) {
        (Value::Box(x), Value::Box(y)) => {
            assert forall|i: int| 0 <= i < x.data@.len() implies value_wf(
                *(#[trigger] x.data@[i]).0,
            ) by {
                lemma_boxed_wf_index(y.data@, i);
                lemma_sim_to_wf(*x.data@[i].0, *y.data@[i].0);
            }
            lemma_boxed_wf_all(x.data@);
        },
        (Value::Func(f), Value::Func(g)) => {
            assert(fn_sim(*f, *g));
            assert forall|i: int| 0 <= i < f.instrs@.len() implies instr_wf(
                #[trigger] f.instrs@[i],
            ) by {
                lemma_instrs_wf_index_local(g.instrs@, i);
                assert(instr_sim(f.instrs@[i], g.instrs@[i]));
                if let Instr::Push(v) = f.instrs@[i] {
                    if let Instr::Push(w) = g.instrs@[i] {
                        lemma_sim_to_wf(v, w);
                    }
                }
            }
            lemma_instrs_wf_all(f.instrs@);
        },
        _ => {},
    }
}

/// Every position of a well-formed boxed sequence is well-formed.
proof fn lemma_boxed_wf_index(s: Seq<Boxed>, i: int)
    requires
        boxed_all_wf(s),
        0 <= i < s.len(),
    ensures
        value_wf(*s[i].0),
    decreases i,
{
    if i > 0 {
        assert(s.drop_first()[i - 1] == s[i]);
        lemma_boxed_wf_index(s.drop_first(), i - 1);
    }
}

/// A pointwise well-formed boxed sequence is well-formed.
proof fn lemma_boxed_wf_all(s: Seq<Boxed>)
    requires
        forall|i: int| 0 <= i < s.len() ==> value_wf(*(#[trigger] s[i]).0),
    ensures
        boxed_all_wf(s),
    decreases s, s.len(),
{
    if s.len() > 0 {
        assert(forall|i: int|
            0 <= i < s.drop_first().len() ==> #[trigger] s.drop_first()[i] == s[i + 1]);
        lemma_boxed_wf_all(s.drop_first());
    }
}

/// Every position of a well-formed instruction sequence is well-formed.
proof fn lemma_instrs_wf_index_local(s: Seq<Instr>, i: int)
    requires
        instrs_wf(s),
        0 <= i < s.len(),
    ensures
        instr_wf(s[i]),
    decreases i,
{
    if i > 0 {
        assert(s.drop_first()[i - 1] == s[i]);
        lemma_instrs_wf_index_local(s.drop_first(), i - 1);
    }
}

/// A pointwise well-formed instruction sequence is well-formed.
proof fn lemma_instrs_wf_all(s: Seq<Instr>)
    requires
        forall|i: int| 0 <= i < s.len() ==> instr_wf(#[trigger] s[i]),
    ensures
        instrs_wf(s),
    decreases s, s.len(),
{
    if s.len() > 0 {
        assert(forall|i: int|
            0 <= i < s.drop_first().len() ==> #[trigger] s.drop_first()[i] == s[i + 1]);
        lemma_instrs_wf_all(s.drop_first());
    }
}

} // verus!
