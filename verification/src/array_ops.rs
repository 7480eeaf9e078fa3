//! The structural array operations: each states exactly which elements of the
//! argument end up where in the result.
use vstd::prelude::*;

use crate::error::UiuaError;
use crate::value::{max_dim, prod, value_wf, Array, Value};

verus! {

/// The product of a shape splits at its head.
pub proof fn lemma_prod_first(s: Seq<usize>)
    requires
        s.len() > 0,
    ensures
        prod(s) == s[0] * prod(s.drop_first()),
{
}

/// The row parameters of a well-formed array: the row count and, where rows
/// exist, the row length, multiplying out to the element count.
fn row_params<T>(a: &Array<T>) -> (r: (usize, usize))
    requires
        a.wf(),
    ensures
        r.0 == a.row_count_spec(),
        r.0 * r.1 == a.data@.len(),
        r.0 > 0 ==> r.1 == a.row_len_spec(),
{
    if a.shape.len() == 0 {
        proof {
            assert(1 * a.data@.len() == a.data@.len()) by (nonlinear_arith);
        }
        (1, a.data.len())
    } else {
        let s0 = a.shape[0];
        proof {
            lemma_prod_first(a.shape@);
        }
        if s0 == 0 {
            proof {
                let rest = prod(a.shape@.drop_first());
                assert(a.data@.len() == s0 * rest);
                assert(s0 * rest == 0 && 0 * 0 == 0) by (nonlinear_arith)
                    requires
                        s0 == 0,
                ;
            }
            (0, 0)
        } else {
            let rl = a.data.len() / s0;
            proof {
                let len = a.data@.len() as int;
                let rest = prod(a.shape@.drop_first());
                assert(len == s0 * rest);
                assert(rest >= 0 && len / (s0 as int) == rest && s0 * (len / (s0 as int)) == len)
                    by (nonlinear_arith)
                    requires
                        len == s0 * rest,
                        s0 > 0,
                        len >= 0,
                ;
            }
            (s0, rl)
        }
    }
}

/// Where element `k` of a block-reversed array comes from.
pub open spec fn rev_idx(k: int, rc: int, rl: int) -> int {
    (rc - 1 - k / rl) * rl + k % rl
}

/// Reverse the rows of a flat buffer.
fn rev_data<T: Copy>(data: &Vec<T>, rc: usize, rl: usize) -> (r: Vec<T>)
    requires
        data@.len() == rc * rl,
    ensures
        r@.len() == data@.len(),
        forall|k: int|
            0 <= k < data@.len() ==> #[trigger] r@[k] == data@[rev_idx(k, rc as int, rl as int)],
{
    let n = data.len();
    let mut out: Vec<T> = Vec::new();
    if n == 0 {
        return out;
    }
    proof {
        assert(rc > 0 && rl > 0) by (nonlinear_arith)
            requires
                rc * rl == data@.len(),
                data@.len() > 0,
        ;
    }
    for k in 0..n
        invariant
            n == data@.len(),
            n == rc * rl,
            rc > 0,
            rl > 0,
            out@.len() == k,
            forall|k2: int|
                0 <= k2 < k ==> #[trigger] out@[k2] == data@[rev_idx(k2, rc as int, rl as int)],
    {
        let i = k / rl;
        let j = k % rl;
        proof {
            assert(0 <= j < rl && 0 <= i < rc && k == i * rl + j) by (nonlinear_arith)
                requires
                    rl > 0,
                    rc > 0,
                    0 <= k < rc * rl,
                    i == k as int / rl as int,
                    j == k as int % rl as int,
            ;
            assert((rc - 1 - i) * rl + j < rc * rl) by (nonlinear_arith)
                requires
                    0 <= i < rc,
                    0 <= j < rl,
            ;
        }
        let src = (rc - 1 - i) * rl + j;
        out.push(data[src]);
    }
    out
}

/// How a block-reversed value relates to its argument: the shape is kept and
/// row `i` holds what row `count - 1 - i` held.
pub open spec fn rev_value_rel(out: Value, v: Value) -> bool {
    match (out, v) {
        (Value::Num(o), Value::Num(a)) => o.shape@ == a.shape@ && o.data@.len() == a.data@.len()
            && (forall|k: int|
            0 <= k < a.data@.len() ==> #[trigger] o.data@[k] == a.data@[
                rev_idx(k, a.row_count_spec(), a.row_len_spec())
            ]),
        (Value::Char(o), Value::Char(a)) => o.shape@ == a.shape@ && o.data@.len() == a.data@.len()
            && (forall|k: int|
            0 <= k < a.data@.len() ==> #[trigger] o.data@[k] == a.data@[
                rev_idx(k, a.row_count_spec(), a.row_len_spec())
            ]),
        _ => false,
    }
}

/// Reverse the rows of an array. A scalar is unchanged.
pub fn reverse(v: Value) -> (r: Result<Value, UiuaError>)
    requires
        value_wf(v),
    ensures
        match r {
            Ok(out) => value_wf(out) && rev_value_rel(out, v),
            Err(e) => e matches UiuaError::TypeMismatch && !(v matches Value::Num(_) || v matches
                Value::Char(_)),
        },
{
    match v {
        Value::Num(a) => {
            let (rc, rl) = row_params(&a);
            let data = rev_data(&a.data, rc, rl);
            proof {
                if rc == 0 {
                    let rest = prod(a.shape@.drop_first());
                    assert(0 * rl == 0) by (nonlinear_arith);
                    assert(a.data@.len() == 0);
                }
                assert forall|k: int| 0 <= k < a.data@.len() implies #[trigger] data@[k]
                    == a.data@[rev_idx(k, a.row_count_spec(), a.row_len_spec())] by {
                    assert(data@[k] == a.data@[rev_idx(k, rc as int, rl as int)]);
                }
            }
            let out = Array { shape: a.shape, data };
            Ok(Value::Num(out))
        },
        Value::Char(a) => {
            let (rc, rl) = row_params(&a);
            let data = rev_data(&a.data, rc, rl);
            proof {
                if rc == 0 {
                    assert(0 * rl == 0) by (nonlinear_arith);
                    assert(a.data@.len() == 0);
                }
                assert forall|k: int| 0 <= k < a.data@.len() implies #[trigger] data@[k]
                    == a.data@[rev_idx(k, a.row_count_spec(), a.row_len_spec())] by {
                    assert(data@[k] == a.data@[rev_idx(k, rc as int, rl as int)]);
                }
            }
            let out = Array { shape: a.shape, data };
            Ok(Value::Char(out))
        },
        _ => Err(UiuaError::TypeMismatch),
    }
}

/// The dimensions of an array, as a rank-one number array.
pub fn shape_of(v: &Value) -> (r: Value)
    requires
        value_wf(*v),
    ensures
        r matches Value::Num(o) && o.shape@ == seq![shape_seq(*v).len() as usize] && o.data@.len()
            == shape_seq(*v).len() && (forall|i: int|
            0 <= i < o.data@.len() ==> o.data@[i] == shape_seq(*v)[i] as i64),
        value_wf(r),
{
    let shape: &Vec<usize> = match v {
        Value::Num(a) => &a.shape,
        Value::Char(a) => &a.shape,
        Value::Box(a) => &a.shape,
        Value::Func(_) => {
            let e: Vec<usize> = Vec::new();
            let mut dims: Vec<i64> = Vec::new();
            let mut sh: Vec<usize> = Vec::new();
            sh.push(0);
            proof {
                assert(sh@ =~= seq![0usize]);
                assert(sh@.drop_first() =~= Seq::<usize>::empty());
                lemma_prod_first(sh@);
            }
            return Value::Num(Array { shape: sh, data: dims });
        },
    };
    let mut dims: Vec<i64> = Vec::new();
    for i in 0..shape.len()
        invariant
            shape@ == shape_seq(*v),
            forall|j: int| 0 <= j < shape@.len() ==> (#[trigger] shape@[j]) as int <= max_dim(),
            shape@.len() as int <= max_dim(),
            dims@.len() == i,
            forall|j: int| 0 <= j < i ==> dims@[j] == shape@[j] as i64,
    {
        dims.push(shape[i] as i64);
    }
    let mut sh: Vec<usize> = Vec::new();
    sh.push(shape.len());
    let o = Array { shape: sh, data: dims };
    proof {
        assert(o.shape@ =~= seq![shape_seq(*v).len() as usize]);
        assert(o.shape@.drop_first() =~= Seq::<usize>::empty());
        lemma_prod_first(o.shape@);
    }
    Value::Num(o)
}

/// The shape of a value; a function is shapeless and reads as empty.
pub open spec fn shape_seq(v: Value) -> Seq<usize> {
    match v {
        Value::Num(a) => a.shape@,
        Value::Char(a) => a.shape@,
        Value::Box(a) => a.shape@,
        Value::Func(_) => Seq::empty(),
    }
}

/// The element count of a value.
pub open spec fn count_seq(v: Value) -> int {
    match v {
        Value::Num(a) => a.data@.len() as int,
        Value::Char(a) => a.data@.len() as int,
        Value::Box(a) => a.data@.len() as int,
        Value::Func(_) => 1,
    }
}

/// The row count of a value.
pub open spec fn row_count_of(v: Value) -> int {
    if shape_seq(v).len() == 0 {
        1
    } else {
        shape_seq(v)[0] as int
    }
}

/// The product of a shape splits at its last dimension.
pub proof fn lemma_prod_push(s: Seq<usize>, x: usize)
    ensures
        prod(s.push(x)) == prod(s) * x,
    decreases s.len(),
{
    if s.len() == 0 {
        assert(s.push(x).drop_first() =~= Seq::<usize>::empty());
        assert(prod(s.push(x)) == x * prod(Seq::<usize>::empty()));
    } else {
        assert(s.push(x).drop_first() =~= s.drop_first().push(x));
        lemma_prod_push(s.drop_first(), x);
        assert(prod(s.push(x)) == s[0] * (prod(s.drop_first()) * x));
        assert(s[0] * (prod(s.drop_first()) * x) == (s[0] * prod(s.drop_first())) * x)
            by (nonlinear_arith);
    }
}

/// The product of a shape splits at any position.
pub proof fn lemma_prod_split(s: Seq<usize>, k: int)
    requires
        0 <= k <= s.len(),
    ensures
        prod(s) == prod(s.subrange(0, k)) * prod(s.subrange(k, s.len() as int)),
    decreases k,
{
    if k == 0 {
        assert(s.subrange(0, 0) =~= Seq::<usize>::empty());
        assert(s.subrange(0, s.len() as int) =~= s);
        assert(1 * prod(s) == prod(s)) by (nonlinear_arith);
    } else {
        lemma_prod_split(s, k - 1);
        let head = s.subrange(0, k - 1);
        let tail = s.subrange(k - 1, s.len() as int);
        assert(tail.len() > 0);
        assert(tail[0] == s[k - 1]);
        assert(tail.drop_first() =~= s.subrange(k, s.len() as int));
        lemma_prod_first(tail);
        assert(s.subrange(0, k) =~= head.push(s[k - 1]));
        lemma_prod_push(head, s[k - 1]);
        assert(prod(head) * ((s[k - 1] as int) * prod(s.subrange(k, s.len() as int))) == (prod(
            head,
        ) * (s[k - 1] as int)) * prod(s.subrange(k, s.len() as int))) by (nonlinear_arith);
    }
}

/// A product of dimensions is never negative.
pub proof fn lemma_prod_nonneg(s: Seq<usize>)
    ensures
        prod(s) >= 0,
    decreases s.len(),
{
    if s.len() > 0 {
        lemma_prod_nonneg(s.drop_first());
        assert((s[0] as int) * prod(s.drop_first()) >= 0) by (nonlinear_arith)
            requires
                s[0] >= 0,
                prod(s.drop_first()) >= 0,
        ;
    }
}

/// Copy one row out of a flat buffer.
fn take_row<T: Copy>(data: &Vec<T>, rl: usize, i: usize) -> (r: Vec<T>)
    requires
        (i + 1) * rl <= data@.len(),
    ensures
        r@ == data@.subrange(i as int * rl as int, i as int * rl as int + rl as int),
{
    let n = data.len();
    proof {
        assert(i * rl + rl == (i + 1) * rl && i * rl >= 0 && i * rl <= n) by (nonlinear_arith)
            requires
                (i + 1) * rl <= n,
        ;
    }
    let base = i * rl;
    let mut out: Vec<T> = Vec::new();
    for j in 0..rl
        invariant
            n == data@.len(),
            base == i * rl,
            base + rl <= n,
            out@ == data@.subrange(base as int, base as int + j as int),
    {
        out.push(data[base + j]);
        proof {
            assert(data@.subrange(base as int, base as int + j as int).push(
                data@[base as int + j as int],
            ) =~= data@.subrange(base as int, base as int + j + 1int));
        }
    }
    out
}

/// How taking row `i` of `v` relates the result to the argument.
pub open spec fn row_of(out: Value, v: Value, i: int) -> bool {
    match (out, v) {
        (Value::Num(o), Value::Num(a)) => o.shape@ == a.shape@.drop_first() && o.data@ == a.data@
            .subrange(i * a.row_len_spec(), (i + 1) * a.row_len_spec()),
        (Value::Char(o), Value::Char(a)) => o.shape@ == a.shape@.drop_first() && o.data@ == a.data@
            .subrange(i * a.row_len_spec(), (i + 1) * a.row_len_spec()),
        _ => false,
    }
}

/// Row extraction shared by `first`, `last` and `pick`.
fn extract_row(v: &Value, i: usize) -> (r: Result<Value, UiuaError>)
    requires
        value_wf(*v),
        shape_seq(*v).len() > 0,
        (i as int) < row_count_of(*v),
    ensures
        match r {
            Ok(out) => value_wf(out) && row_of(out, *v, i as int),
            Err(e) => e matches UiuaError::TypeMismatch && !(*v matches Value::Num(_) || *v
                matches Value::Char(_)),
        },
{
    match v {
        Value::Num(a) => {
            let (rc, rl) = row_params(a);
            proof {
                lemma_row_slice_bound(a.shape@, a.data@.len() as int, rc as int, rl as int, i as int);
            }
            let data = take_row(&a.data, rl, i);
            let mut shape: Vec<usize> = Vec::new();
            let mut j: usize = 1;
            while j < a.shape.len()
                invariant
                    1 <= j <= a.shape@.len(),
                    shape@ == a.shape@.subrange(1, j as int),
                decreases a.shape@.len() - j,
            {
                shape.push(a.shape[j]);
                proof {
                    assert(a.shape@.subrange(1, j as int).push(a.shape@[j as int]) =~= a.shape@
                        .subrange(1, j + 1int));
                }
                j += 1;
            }
            proof {
                assert(a.shape@.subrange(1, a.shape@.len() as int) =~= a.shape@.drop_first());
                assert(prod(shape@) == a.row_len_spec());
                assert(rl <= a.data@.len()) by (nonlinear_arith)
                    requires
                        rc as int * rl as int == a.data@.len(),
                        rc >= 1,
                ;
                assert forall|j: int| 0 <= j < shape@.len() implies (#[trigger] shape@[j]) as int
                    <= crate::value::max_dim() by {
                    assert(shape@[j] == a.shape@[j + 1]);
                }
            }
            let outv = Value::Num(Array { shape, data });
            proof {
                assert((i as int + 1) * a.row_len_spec() == i as int * a.row_len_spec()
                    + a.row_len_spec()) by (nonlinear_arith);
                if let Value::Num(arr) = &outv {
                    assert(prod(arr.shape@) == arr.data@.len());
                    assert(arr.shape@.len() as int <= crate::value::max_dim());
                    assert(arr.data@.len() as int <= crate::value::max_dim());
                    assert(forall|j: int|
                        0 <= j < arr.shape@.len() ==> (#[trigger] arr.shape@[j]) as int
                            <= crate::value::max_dim());
                }
                assert(value_wf(outv));
                assert(row_of(outv, *v, i as int));
            }
            Ok(outv)
        },
        Value::Char(a) => {
            let (rc, rl) = row_params(a);
            proof {
                lemma_row_slice_bound(a.shape@, a.data@.len() as int, rc as int, rl as int, i as int);
            }
            let data = take_row(&a.data, rl, i);
            let mut shape: Vec<usize> = Vec::new();
            let mut j: usize = 1;
            while j < a.shape.len()
                invariant
                    1 <= j <= a.shape@.len(),
                    shape@ == a.shape@.subrange(1, j as int),
                decreases a.shape@.len() - j,
            {
                shape.push(a.shape[j]);
                proof {
                    assert(a.shape@.subrange(1, j as int).push(a.shape@[j as int]) =~= a.shape@
                        .subrange(1, j + 1int));
                }
                j += 1;
            }
            proof {
                assert(a.shape@.subrange(1, a.shape@.len() as int) =~= a.shape@.drop_first());
                assert(prod(shape@) == a.row_len_spec());
                assert(rl <= a.data@.len()) by (nonlinear_arith)
                    requires
                        rc as int * rl as int == a.data@.len(),
                        rc >= 1,
                ;
                assert forall|j: int| 0 <= j < shape@.len() implies (#[trigger] shape@[j]) as int
                    <= crate::value::max_dim() by {
                    assert(shape@[j] == a.shape@[j + 1]);
                }
            }
            let outv = Value::Char(a_row_char(shape, data));
            proof {
                assert((i as int + 1) * a.row_len_spec() == i as int * a.row_len_spec()
                    + a.row_len_spec()) by (nonlinear_arith);
                if let Value::Char(arr) = &outv {
                    assert(prod(arr.shape@) == arr.data@.len());
                    assert(arr.shape@.len() as int <= crate::value::max_dim());
                    assert(arr.data@.len() as int <= crate::value::max_dim());
                    assert(forall|j: int|
                        0 <= j < arr.shape@.len() ==> (#[trigger] arr.shape@[j]) as int
                            <= crate::value::max_dim());
                }
                assert(value_wf(outv));
                assert(row_of(outv, *v, i as int));
            }
            Ok(outv)
        },
        _ => Err(UiuaError::TypeMismatch),
    }
}

/// Assemble a character row.
fn a_row_char(shape: Vec<usize>, data: Vec<char>) -> (r: Array<char>)
    ensures
        r.shape == shape,
        r.data == data,
{
    Array { shape, data }
}

/// A row slice lies inside the buffer.
proof fn lemma_row_slice_bound(shape: Seq<usize>, len: int, rc: int, rl: int, i: int)
    requires
        shape.len() > 0,
        rc == shape[0] as int,
        rc * rl == len,
        len >= 0,
        0 <= i < rc,
    ensures
        (i + 1) * rl <= len,
        i * rl >= 0,
        rl >= 0,
    decreases 0nat,
{
    assert(rl >= 0 && (i + 1) * rl <= rc * rl && i * rl >= 0) by (nonlinear_arith)
        requires
            0 <= i < rc,
            rc * rl == len,
            len >= 0,
    ;
}

/// The first row of an array; a scalar is its own first.
pub fn first(v: Value) -> (r: Result<Value, UiuaError>)
    requires
        value_wf(v),
    ensures
        match r {
            Ok(out) => value_wf(out) && if shape_seq(v).len() == 0 {
                out == v
            } else {
                row_of(out, v, 0)
            },
            Err(e) => (e matches UiuaError::TypeMismatch && !(v matches Value::Num(_) || v matches
                Value::Char(_))) || (e matches UiuaError::OutOfBounds && shape_seq(v).len() > 0
                && row_count_of(v) == 0),
        },
{
    match &v {
        Value::Num(a) => {
            if a.shape.len() == 0 {
                return Ok(v);
            }
        },
        Value::Char(a) => {
            if a.shape.len() == 0 {
                return Ok(v);
            }
        },
        _ => {
            return Err(UiuaError::TypeMismatch);
        },
    }
    let rc = match &v {
        Value::Num(a) => a.shape[0],
        Value::Char(a) => a.shape[0],
        _ => 0,
    };
    if rc == 0 {
        return Err(UiuaError::OutOfBounds);
    }
    extract_row(&v, 0)
}

/// The last row of an array; a scalar is its own last.
pub fn last(v: Value) -> (r: Result<Value, UiuaError>)
    requires
        value_wf(v),
    ensures
        match r {
            Ok(out) => value_wf(out) && if shape_seq(v).len() == 0 {
                out == v
            } else {
                row_of(out, v, row_count_of(v) - 1)
            },
            Err(e) => (e matches UiuaError::TypeMismatch && !(v matches Value::Num(_) || v matches
                Value::Char(_))) || (e matches UiuaError::OutOfBounds && shape_seq(v).len() > 0
                && row_count_of(v) == 0),
        },
{
    match &v {
        Value::Num(a) => {
            if a.shape.len() == 0 {
                return Ok(v);
            }
        },
        Value::Char(a) => {
            if a.shape.len() == 0 {
                return Ok(v);
            }
        },
        _ => {
            return Err(UiuaError::TypeMismatch);
        },
    }
    let rc = match &v {
        Value::Num(a) => a.shape[0],
        Value::Char(a) => a.shape[0],
        _ => 0,
    };
    if rc == 0 {
        return Err(UiuaError::OutOfBounds);
    }
    extract_row(&v, rc - 1)
}

/// Index one row out of an array: the index must be a scalar whole number
/// within the row count, and the array must have rows to pick from.
pub fn pick(idx: &Value, v: &Value) -> (r: Result<Value, UiuaError>)
    requires
        value_wf(*idx),
        value_wf(*v),
    ensures
        match r {
            Ok(out) => {
                &&& value_wf(out)
                &&& crate::value::is_scalar_nat(*idx)
                &&& shape_seq(*v).len() > 0
                &&& crate::value::scalar_num_of(*idx) < row_count_of(*v)
                &&& row_of(out, *v, crate::value::scalar_num_of(*idx))
            },
            Err(e) => match e {
                UiuaError::TypeMismatch => !(crate::value::is_scalar_nat(*idx)
                    && crate::value::scalar_num_of(*idx) <= usize::MAX as int) || !(*v matches
                Value::Num(_) || *v matches Value::Char(_)),
                UiuaError::OutOfBounds => shape_seq(*v).len() == 0 || crate::value::scalar_num_of(
                    *idx,
                ) >= row_count_of(*v),
                _ => false,
            },
        },
{
    let i = match idx.as_nat() {
        Some(i) => i,
        None => {
            return Err(UiuaError::TypeMismatch);
        },
    };
    match v {
        Value::Num(a) => {
            if a.shape.len() == 0 {
                return Err(UiuaError::OutOfBounds);
            }
            if i >= a.shape[0] {
                return Err(UiuaError::OutOfBounds);
            }
        },
        Value::Char(a) => {
            if a.shape.len() == 0 {
                return Err(UiuaError::OutOfBounds);
            }
            if i >= a.shape[0] {
                return Err(UiuaError::OutOfBounds);
            }
        },
        _ => {
            return Err(UiuaError::TypeMismatch);
        },
    }
    extract_row(v, i)
}

/// Reduce an integer into the signed 64-bit range, wrapping around.
pub open spec fn wrap_i64(n: int) -> i64 {
    let m = n % 0x1_0000_0000_0000_0000;
    if m >= 0x8000_0000_0000_0000 {
        (m - 0x1_0000_0000_0000_0000) as i64
    } else {
        m as i64
    }
}

/// Wrap a wide intermediate result into the signed 64-bit range.
fn wrap_exec(p: i128) -> (r: i64)
    requires
        -0x4000_0000_0000_0000_0000_0000_0000_0000 <= p
            <= 0x4000_0000_0000_0000_0000_0000_0000_0000,
    ensures
        r == wrap_i64(p as int),
{
    let q: u128 = if p >= 0 {
        p as u128
    } else {
        (p + 0x4000_0000_0000_0000_0000_0000_0000_0000i128) as u128
    };
    let m: u128 = q % 0x1_0000_0000_0000_0000u128;
    proof {
        let two64 = 0x1_0000_0000_0000_0000int;
        if p < 0 {
            vstd::arithmetic::div_mod::lemma_mod_multiples_vanish(
                0x4000_0000_0000_0000int,
                p as int,
                two64,
            );
            assert(q as int == two64 * 0x4000_0000_0000_0000int + p as int);
        }
        vstd::arithmetic::div_mod::lemma_mod_bound(q as int, two64);
    }
    if m >= 0x8000_0000_0000_0000u128 {
        (m as i128 - 0x1_0000_0000_0000_0000i128) as i64
    } else {
        m as i64
    }
}

/// The monadic pervasive operations on numbers.
pub enum MonOp {
    /// Logical not: one minus the argument.
    Not,
    /// The sign: one, minus one, or zero.
    Sign,
    /// The absolute value.
    Abs,
    /// Negation.
    Neg,
    /// The floor; whole numbers are their own floor.
    Floor,
    /// The ceiling; whole numbers are their own ceiling.
    Ceil,
    /// The nearest whole number; whole numbers round to themselves.
    Round,
}

/// What a monadic pervasive operation does to one element, with wrapping
/// arithmetic at the integer boundary.
pub open spec fn mon_op_spec(op: MonOp, x: i64) -> i64 {
    match op {
        MonOp::Not => wrap_i64(1int - x as int),
        MonOp::Sign => if x > 0 {
            1i64
        } else if x < 0 {
            -1i64
        } else {
            0i64
        },
        MonOp::Abs => if x < 0 {
            wrap_i64(0int - x as int)
        } else {
            x
        },
        MonOp::Neg => wrap_i64(0int - x as int),
        MonOp::Floor => x,
        MonOp::Ceil => x,
        MonOp::Round => x,
    }
}

/// The dyadic pervasive operations on numbers.
pub enum DyOp {
    /// Addition.
    Add,
    /// Subtraction.
    Sub,
    /// Multiplication.
    Mul,
    /// The Euclidean remainder; fails on a zero modulus.
    Modulus,
    /// The smaller operand.
    Min,
    /// The larger operand.
    Max,
    /// Equality, as zero or one.
    CmpEq,
    /// Disequality, as zero or one.
    CmpNe,
    /// Strictly below, as zero or one.
    CmpLt,
    /// At most, as zero or one.
    CmpLe,
    /// Strictly above, as zero or one.
    CmpGt,
    /// At least, as zero or one.
    CmpGe,
}

/// What a dyadic pervasive operation does to one pair of elements; absent
/// where the operation is undefined, as a remainder by zero is.
pub open spec fn dy_op_spec(op: DyOp, x: i64, y: i64) -> Option<i64> {
    match op {
        DyOp::Add => Some(wrap_i64(x as int + y as int)),
        DyOp::Sub => Some(wrap_i64(x as int - y as int)),
        DyOp::Mul => Some(wrap_i64(x as int * y as int)),
        DyOp::Modulus => if y == 0 || (x == i64::MIN && y == -1) {
            None
        } else {
            Some((x as int % y as int) as i64)
        },
        DyOp::Min => Some(if x <= y { x } else { y }),
        DyOp::Max => Some(if x >= y { x } else { y }),
        DyOp::CmpEq => Some(if x == y { 1 } else { 0 }),
        DyOp::CmpNe => Some(if x != y { 1 } else { 0 }),
        DyOp::CmpLt => Some(if x < y { 1 } else { 0 }),
        DyOp::CmpLe => Some(if x <= y { 1 } else { 0 }),
        DyOp::CmpGt => Some(if x > y { 1 } else { 0 }),
        DyOp::CmpGe => Some(if x >= y { 1 } else { 0 }),
    }
}

/// One element of a monadic pervasive application.
fn mon_op_exec(op: &MonOp, x: i64) -> (r: i64)
    ensures
        r == mon_op_spec(*op, x),
{
    match op {
        MonOp::Not => wrap_exec(1 - x as i128),
        MonOp::Sign => if x > 0 {
            1i64
        } else if x < 0 {
            -1i64
        } else {
            0i64
        },
        MonOp::Abs => if x < 0 {
            wrap_exec(0 - x as i128)
        } else {
            x
        },
        MonOp::Neg => wrap_exec(0 - x as i128),
        MonOp::Floor => x,
        MonOp::Ceil => x,
        MonOp::Round => x,
    }
}

/// One element of a dyadic pervasive application.
fn dy_op_exec(op: &DyOp, x: i64, y: i64) -> (r: Option<i64>)
    ensures
        r == dy_op_spec(*op, x, y),
{
    match op {
        DyOp::Add => Some(wrap_exec(x as i128 + y as i128)),
        DyOp::Sub => Some(wrap_exec(x as i128 - y as i128)),
        DyOp::Mul => {
            proof {
                assert(-0x4000_0000_0000_0000_0000_0000_0000_0000 <= x as int * y as int
                    <= 0x4000_0000_0000_0000_0000_0000_0000_0000) by (nonlinear_arith)
                    requires
                        -0x8000_0000_0000_0000 <= x as int <= 0x7fff_ffff_ffff_ffff,
                        -0x8000_0000_0000_0000 <= y as int <= 0x7fff_ffff_ffff_ffff,
                ;
            }
            Some(wrap_exec(x as i128 * y as i128))
        },
        DyOp::Modulus => x.checked_rem_euclid(y),
        DyOp::Min => Some(if x <= y { x } else { y }),
        DyOp::Max => Some(if x >= y { x } else { y }),
        DyOp::CmpEq => Some(if x == y { 1 } else { 0 }),
        DyOp::CmpNe => Some(if x != y { 1 } else { 0 }),
        DyOp::CmpLt => Some(if x < y { 1 } else { 0 }),
        DyOp::CmpLe => Some(if x <= y { 1 } else { 0 }),
        DyOp::CmpGt => Some(if x > y { 1 } else { 0 }),
        DyOp::CmpGe => Some(if x >= y { 1 } else { 0 }),
    }
}

/// How the result of a monadic pervasive application relates to the argument.
pub open spec fn mon_value_rel(op: MonOp, out: Value, v: Value) -> bool {
    match (out, v) {
        (Value::Num(o), Value::Num(a)) => o.shape@ == a.shape@ && o.data@.len() == a.data@.len()
            && (forall|i: int|
            0 <= i < a.data@.len() ==> #[trigger] o.data@[i] == mon_op_spec(op, a.data@[i])),
        _ => false,
    }
}

/// How the result of a dyadic pervasive application relates to the operands.
pub open spec fn dy_value_rel(op: DyOp, out: Value, a: Value, b: Value) -> bool {
    match (out, a, b) {
        (Value::Num(o), Value::Num(x), Value::Num(y)) => dy_ok(op, o, x, y),
        _ => false,
    }
}

/// Lift a scalar operation over every element of a number array.
pub fn pervasive_mon(op: MonOp, v: Value) -> (r: Result<Value, UiuaError>)
    requires
        value_wf(v),
    ensures
        match r {
            Ok(out) => v matches Value::Num(_) && value_wf(out) && mon_value_rel(op, out, v),
            Err(e) => e matches UiuaError::TypeMismatch && !(v matches Value::Num(_)),
        },
{
    match v {
        Value::Num(a) => {
            let mut data: Vec<i64> = Vec::new();
            for i in 0..a.data.len()
                invariant
                    data@.len() == i,
                    forall|j: int|
                        0 <= j < i ==> #[trigger] data@[j] == mon_op_spec(op, a.data@[j]),
            {
                data.push(mon_op_exec(&op, a.data[i]));
            }
            let out = Array { shape: a.shape, data };
            Ok(Value::Num(out))
        },
        _ => Err(UiuaError::TypeMismatch),
    }
}

/// One shape begins the other: the shorter-ranked operand is replicated
/// along the other's remaining trailing axes.
pub open spec fn is_shape_prefix(p: Seq<usize>, s: Seq<usize>) -> bool {
    p.len() <= s.len() && s.subrange(0, p.len() as int) == p
}

/// How many elements of the larger operand each element of the smaller one
/// meets: the product of the trailing axes the smaller operand lacks.
pub open spec fn rep_of(small: Array<i64>, big: Array<i64>) -> int {
    prod(big.shape@.subrange(small.rank(), big.shape@.len() as int))
}

/// How a dyadic pervasive result relates to its operands, with right-to-left
/// rank broadcasting: the rarer-ranked operand's shape must begin the
/// other's, each of its elements is replicated along the missing trailing
/// axes, and the result takes the fuller shape. Equal shapes and a scalar
/// operand are the two extreme cases.
pub open spec fn dy_ok(op: DyOp, o: Array<i64>, x: Array<i64>, y: Array<i64>) -> bool {
    if is_shape_prefix(x.shape@, y.shape@) {
        o.shape@ == y.shape@ && o.data@.len() == y.data@.len() && (forall|i: int|
            0 <= i < y.data@.len() ==> Some(#[trigger] o.data@[i]) == dy_op_spec(
                op,
                x.data@[i / rep_of(x, y)],
                y.data@[i],
            ))
    } else if is_shape_prefix(y.shape@, x.shape@) {
        o.shape@ == x.shape@ && o.data@.len() == x.data@.len() && (forall|i: int|
            0 <= i < x.data@.len() ==> Some(#[trigger] o.data@[i]) == dy_op_spec(
                op,
                x.data@[i],
                y.data@[i / rep_of(y, x)],
            ))
    } else {
        false
    }
}

/// Whether some pair of operand elements has no defined result.
pub open spec fn dy_has_undef(op: DyOp, x: Array<i64>, y: Array<i64>) -> bool {
    exists|i: int, j: int|
        0 <= i < x.data@.len() && 0 <= j < y.data@.len() && dy_op_spec(
            op,
            #[trigger] x.data@[i],
            #[trigger] y.data@[j],
        ) is None
}

/// Whether the operand shapes of a dyadic pervasive application agree: one
/// must begin the other.
pub open spec fn dy_shapes_ok(x: Array<i64>, y: Array<i64>) -> bool {
    is_shape_prefix(x.shape@, y.shape@) || is_shape_prefix(y.shape@, x.shape@)
}

/// Lift a scalar operation over two number arrays, replicating a scalar
/// operand over the other's elements.
/// Whether `p` begins `s`.
fn shape_prefix_exec(p: &Vec<usize>, s: &Vec<usize>) -> (r: bool)
    ensures
        r == is_shape_prefix(p@, s@),
{
    if p.len() > s.len() {
        return false;
    }
    for i in 0..p.len()
        invariant
            p@.len() <= s@.len(),
            forall|j: int| 0 <= j < i ==> s@[j] == p@[j],
    {
        if s[i] != p[i] {
            return false;
        }
    }
    proof {
        assert(s@.subrange(0, p@.len() as int) =~= p@);
    }
    true
}

/// Apply the operation between a replicated smaller operand and a larger
/// one, the smaller standing on the side `small_on_left` says.
#[verifier::loop_isolation(false)]
fn broadcast_apply(op: &DyOp, small: &Array<i64>, big: &Array<i64>, small_on_left: bool) -> (r:
    Result<Vec<i64>, UiuaError>)
    requires
        small.wf(),
        big.wf(),
        is_shape_prefix(small.shape@, big.shape@),
    ensures
        match r {
            Ok(data) => data@.len() == big.data@.len() && (forall|i: int|
                0 <= i < big.data@.len() ==> Some(#[trigger] data@[i]) == (if small_on_left {
                    dy_op_spec(*op, small.data@[i / rep_of(*small, *big)], big.data@[i])
                } else {
                    dy_op_spec(*op, big.data@[i], small.data@[i / rep_of(*small, *big)])
                })),
            Err(e) => e matches UiuaError::OutOfBounds && dy_has_undef(
                *op,
                if small_on_left {
                    *small
                } else {
                    *big
                },
                if small_on_left {
                    *big
                } else {
                    *small
                },
            ),
        },
{
    let n = big.data.len();
    let m = small.data.len();
    proof {
        lemma_prod_split(big.shape@, small.shape@.len() as int);
        lemma_prod_nonneg(big.shape@.subrange(small.shape@.len() as int, big.shape@.len() as int));
        assert(big.shape@.subrange(0, small.shape@.len() as int) == small.shape@);
        assert(n as int == m * rep_of(*small, *big));
    }
    let ghost grep = rep_of(*small, *big);
    let mut data: Vec<i64> = Vec::new();
    if n == 0 {
        return Ok(data);
    }
    proof {
        assert(m > 0 && grep > 0) by (nonlinear_arith)
            requires
                m * grep == n as int,
                n > 0,
                m >= 0,
                grep >= 0,
        ;
    }
    let rep = n / m;
    proof {
        assert(rep as int == grep) by (nonlinear_arith)
            requires
                m * grep == n as int,
                m > 0,
                grep >= 0,
                rep as int == n as int / m as int,
        ;
    }
    for i in 0..n
        invariant
            n == big.data@.len(),
            m == small.data@.len(),
            n as int == m * grep,
            m > 0,
            grep > 0,
            rep as int == grep,
            data@.len() == i,
            forall|k: int|
                0 <= k < i ==> Some(#[trigger] data@[k]) == (if small_on_left {
                    dy_op_spec(*op, small.data@[k / grep], big.data@[k])
                } else {
                    dy_op_spec(*op, big.data@[k], small.data@[k / grep])
                }),
    {
        let si = i / rep;
        proof {
            assert(0 <= i as int / grep < m) by (nonlinear_arith)
                requires
                    grep > 0,
                    m > 0,
                    0 <= i < m * grep,
                    n as int == m * grep,
            ;
        }
        let e = if small_on_left {
            dy_op_exec(op, small.data[si], big.data[i])
        } else {
            dy_op_exec(op, big.data[i], small.data[si])
        };
        match e {
            Some(v) => data.push(v),
            None => {
                proof {
                    if small_on_left {
                        assert(dy_has_undef(*op, *small, *big)) by {
                            assert(dy_op_spec(*op, small.data@[si as int], big.data@[i as int])
                                is None);
                        }
                    } else {
                        assert(dy_has_undef(*op, *big, *small)) by {
                            assert(dy_op_spec(*op, big.data@[i as int], small.data@[si as int])
                                is None);
                        }
                    }
                }
                return Err(UiuaError::OutOfBounds);
            },
        }
    }
    Ok(data)
}

/// Lift a scalar operation over two number arrays with right-to-left rank
/// broadcasting: the rarer-ranked operand's shape must begin the other's, and
/// each of its elements is replicated along the missing trailing axes.
pub fn pervasive_dy(op: DyOp, a: Value, b: Value) -> (r: Result<Value, UiuaError>)
    requires
        value_wf(a),
        value_wf(b),
    ensures
        match r {
            Ok(out) => a matches Value::Num(_) && b matches Value::Num(_) && value_wf(out)
                && dy_value_rel(op, out, a, b),
            Err(e) => match e {
                UiuaError::TypeMismatch => !(a matches Value::Num(_)) || !(b matches Value::Num(_)),
                UiuaError::ShapeMismatch => a matches Value::Num(x) && b matches Value::Num(y)
                    && !dy_shapes_ok(x, y),
                UiuaError::OutOfBounds => a matches Value::Num(x) && b matches Value::Num(y)
                    && dy_has_undef(op, x, y),
                _ => false,
            },
        },
{
    let x = match a {
        Value::Num(x) => x,
        _ => {
            return Err(UiuaError::TypeMismatch);
        },
    };
    let y = match b {
        Value::Num(y) => y,
        _ => {
            return Err(UiuaError::TypeMismatch);
        },
    };
    if shape_prefix_exec(&x.shape, &y.shape) {
        match broadcast_apply(&op, &x, &y, true) {
            Ok(data) => Ok(Value::Num(Array { shape: y.shape, data })),
            Err(e) => Err(e),
        }
    } else if shape_prefix_exec(&y.shape, &x.shape) {
        match broadcast_apply(&op, &y, &x, false) {
            Ok(data) => Ok(Value::Num(Array { shape: x.shape, data })),
            Err(e) => Err(e),
        }
    } else {
        Err(UiuaError::ShapeMismatch)
    }
}

/// Flatten an array to rank one, keeping the elements in order.
pub fn deshape(v: Value) -> (r: Result<Value, UiuaError>)
    requires
        value_wf(v),
    ensures
        match r {
            Ok(out) => value_wf(out) && match (out, v) {
                (Value::Num(o), Value::Num(a)) => o.shape@ == seq![a.data@.len() as usize]
                    && o.data@ == a.data@,
                (Value::Char(o), Value::Char(a)) => o.shape@ == seq![a.data@.len() as usize]
                    && o.data@ == a.data@,
                _ => false,
            },
            Err(e) => e matches UiuaError::TypeMismatch && !(v matches Value::Num(_) || v matches
                Value::Char(_)),
        },
{
    match v {
        Value::Num(a) => {
            let n = a.data.len();
            let mut shape: Vec<usize> = Vec::new();
            shape.push(n);
            proof {
                assert(shape@ =~= seq![n]);
                lemma_prod_first(shape@);
            }
            Ok(Value::Num(Array { shape, data: a.data }))
        },
        Value::Char(a) => {
            let n = a.data.len();
            let mut shape: Vec<usize> = Vec::new();
            shape.push(n);
            proof {
                assert(shape@ =~= seq![n]);
                lemma_prod_first(shape@);
            }
            Ok(Value::Char(Array { shape, data: a.data }))
        },
        _ => Err(UiuaError::TypeMismatch),
    }
}

/// The number of rows of a value, as a scalar.
pub fn length_of(v: &Value) -> (r: Value)
    requires
        value_wf(*v),
    ensures
        value_wf(r),
        r matches Value::Num(o) && o.shape@ == Seq::<usize>::empty() && o.data@ == seq![
            row_count_of(*v) as i64,
        ],
{
    let rc: usize = match v {
        Value::Num(a) => {
            if a.shape.len() == 0 {
                1
            } else {
                a.shape[0]
            }
        },
        Value::Char(a) => {
            if a.shape.len() == 0 {
                1
            } else {
                a.shape[0]
            }
        },
        Value::Box(a) => {
            if a.shape.len() == 0 {
                1
            } else {
                a.shape[0]
            }
        },
        Value::Func(_) => 1,
    };
    Value::num_scalar(rc as i64)
}

/// The naturals below the argument, as a rank-one array.
pub fn range(v: &Value) -> (r: Result<Value, UiuaError>)
    requires
        value_wf(*v),
    ensures
        match r {
            Ok(out) => {
                &&& crate::value::is_scalar_nat(*v)
                &&& value_wf(out)
                &&& out matches Value::Num(o) && o.shape@ == seq![
                    crate::value::scalar_num_of(*v) as usize,
                ] && o.data@.len() == crate::value::scalar_num_of(*v) && (forall|i: int|
                    0 <= i < o.data@.len() ==> #[trigger] o.data@[i] == i as i64)
            },
            Err(e) => e matches UiuaError::TypeMismatch && !(crate::value::is_scalar_nat(*v)
                && crate::value::scalar_num_of(*v) <= usize::MAX as int),
        },
{
    let n = match v.as_nat() {
        Some(n) => n,
        None => {
            return Err(UiuaError::TypeMismatch);
        },
    };
    let mut data: Vec<i64> = Vec::new();
    for i in 0..n
        invariant
            n as int <= crate::value::max_dim(),
            data@.len() == i,
            forall|j: int| 0 <= j < i ==> #[trigger] data@[j] == j as i64,
    {
        data.push(i as i64);
    }
    let mut shape: Vec<usize> = Vec::new();
    shape.push(n);
    proof {
        assert(shape@ =~= seq![n]);
        lemma_prod_first(shape@);
    }
    Ok(Value::Num(Array { shape, data }))
}

/// Wrap a value in a single box, making a box scalar.
pub fn box_val(v: Value) -> (r: Value)
    requires
        value_wf(v),
    ensures
        value_wf(r),
        r matches Value::Box(o) && o.shape@ == Seq::<usize>::empty() && o.data@.len() == 1
            && *o.data@[0].0 == v,
{
    let mut data: Vec<crate::value::Boxed> = Vec::new();
    data.push(crate::value::Boxed(Box::new(v)));
    let o = Array { shape: Vec::new(), data };
    proof {
        assert(o.shape@ =~= Seq::<usize>::empty());
        assert(o.data@.drop_first() =~= Seq::<crate::value::Boxed>::empty());
        assert(o.data@.len() == 1);
        assert(*o.data@[0].0 == v);
        assert(value_wf(*o.data@[0].0));
        assert(crate::value::boxed_all_wf(o.data@.drop_first()));
        assert(crate::value::boxed_all_wf(o.data@));
    }
    Value::Box(o)
}

/// Strip one level of boxing from a box scalar; any other value is unchanged.
pub fn unbox(v: Value) -> (r: Value)
    requires
        value_wf(v),
    ensures
        value_wf(r),
        match v {
            Value::Box(a) => if a.shape@.len() == 0 && a.data@.len() == 1 {
                r == *a.data@[0].0
            } else {
                r == v
            },
            _ => r == v,
        },
{
    match v {
        Value::Box(a) => {
            if a.shape.len() == 0 && a.data.len() == 1 {
                let mut data = a.data;
                let inner = data.pop();
                proof {
                    assert(crate::value::boxed_all_wf(a.data@));
                }
                match inner {
                    Some(b) => *b.0,
                    None => Value::Box(Array { shape: a.shape, data }),
                }
            } else {
                Ok_or_same(Value::Box(a))
            }
        },
        other => other,
    }
}

/// Hand a value back unchanged.
fn Ok_or_same(v: Value) -> (r: Value)
    ensures
        r == v,
{
    v
}

/// Stack two same-kind, same-shape arrays along a new leading axis.
pub fn couple(a: Value, b: Value) -> (r: Result<Value, UiuaError>)
    requires
        value_wf(a),
        value_wf(b),
    ensures
        match r {
            Ok(out) => value_wf(out) && coupled(out, a, b),
            Err(e) => match e {
                UiuaError::TypeMismatch => !((a matches Value::Num(_) && b matches Value::Num(_))
                    || (a matches Value::Char(_) && b matches Value::Char(_))),
                UiuaError::ShapeMismatch => match (a, b) {
                    (Value::Num(x), Value::Num(y)) => x.shape@ != y.shape@ || x.data@.len()
                        > 0x3fff_ffff_ffff_ffff || x.shape@.len() + 1 > crate::value::max_dim(),
                    (Value::Char(x), Value::Char(y)) => x.shape@ != y.shape@ || x.data@.len()
                        > 0x3fff_ffff_ffff_ffff || x.shape@.len() + 1 > crate::value::max_dim(),
                    _ => false,
                },
                _ => false,
            },
        },
{
    match (a, b) {
        (Value::Num(x), Value::Num(y)) => match couple_arrays(x, y) {
            Ok(o) => Ok(Value::Num(o)),
            Err(e) => Err(e),
        },
        (Value::Char(x), Value::Char(y)) => match couple_arrays(x, y) {
            Ok(o) => Ok(Value::Char(o)),
            Err(e) => Err(e),
        },
        _ => Err(UiuaError::TypeMismatch),
    }
}

/// Stack two same-shape buffers along a new leading axis.
fn couple_arrays<T: Copy>(x: Array<T>, y: Array<T>) -> (r: Result<Array<T>, UiuaError>)
    requires
        x.wf(),
        y.wf(),
    ensures
        match r {
            Ok(o) => {
                &&& o.wf()
                &&& x.shape@ == y.shape@
                &&& o.shape@ == seq![2usize] + x.shape@
                &&& o.data@ == x.data@ + y.data@
            },
            Err(e) => e matches UiuaError::ShapeMismatch && (x.shape@ != y.shape@ || x.data@.len()
                > 0x3fff_ffff_ffff_ffff || x.shape@.len() + 1 > crate::value::max_dim()),
        },
{
    if !crate::value::vec_eq_usize(&x.shape, &y.shape) {
        return Err(UiuaError::ShapeMismatch);
    }
    if x.data.len() as u64 > 0x3fff_ffff_ffff_ffffu64 {
        return Err(UiuaError::ShapeMismatch);
    }
    if x.shape.len() as u64 >= 0x7fff_ffff_ffff_ffffu64 {
        return Err(UiuaError::ShapeMismatch);
    }
    let mut shape: Vec<usize> = Vec::new();
    shape.push(2);
    let mut i: usize = 0;
    while i < x.shape.len()
        invariant
            i <= x.shape@.len(),
            shape@ == seq![2usize] + x.shape@.take(i as int),
        decreases x.shape@.len() - i,
    {
        shape.push(x.shape[i]);
        proof {
            assert((seq![2usize] + x.shape@.take(i as int)).push(x.shape@[i as int]) =~= seq![
                2usize,
            ] + x.shape@.take(i + 1int));
        }
        i += 1;
    }
    let mut data = x.data;
    let mut ydata = y.data;
    data.append(&mut ydata);
    proof {
        assert(x.shape@.take(x.shape@.len() as int) =~= x.shape@);
        assert(shape@.drop_first() =~= x.shape@);
        lemma_prod_first(shape@);
        assert(prod(shape@) == 2 * prod(x.shape@)) by (nonlinear_arith)
            requires
                prod(shape@) == shape@[0] * prod(shape@.drop_first()),
                shape@[0] == 2,
                shape@.drop_first() == x.shape@,
        ;
        assert forall|j: int| 0 <= j < shape@.len() implies (#[trigger] shape@[j]) as int
            <= crate::value::max_dim() by {
            if j > 0 {
                assert(shape@[j] == x.shape@[j - 1]);
            }
        }
    }
    Ok(Array { shape, data })
}

/// How a coupled array relates to its two operands.
pub open spec fn coupled(out: Value, a: Value, b: Value) -> bool {
    match (out, a, b) {
        (Value::Num(o), Value::Num(x), Value::Num(y)) => {
            &&& x.shape@ == y.shape@
            &&& o.shape@ == seq![2usize] + x.shape@
            &&& o.data@ == x.data@ + y.data@
        },
        (Value::Char(o), Value::Char(x), Value::Char(y)) => {
            &&& x.shape@ == y.shape@
            &&& o.shape@ == seq![2usize] + x.shape@
            &&& o.data@ == x.data@ + y.data@
        },
        _ => false,
    }
}

/// Split a two-row array into its rows, undoing `couple`.
pub fn uncouple(v: Value) -> (r: Result<(Value, Value), UiuaError>)
    requires
        value_wf(v),
    ensures
        match r {
            Ok((a, b)) => value_wf(a) && value_wf(b) && coupled(v, a, b),
            Err(e) => match e {
                UiuaError::TypeMismatch => !(v matches Value::Num(_) || v matches Value::Char(_)),
                UiuaError::ShapeMismatch => match v {
                    Value::Num(x) => x.shape@.len() == 0 || x.shape@[0] != 2,
                    Value::Char(x) => x.shape@.len() == 0 || x.shape@[0] != 2,
                    _ => false,
                },
                _ => false,
            },
        },
{
    match v {
        Value::Num(x) => match uncouple_array(x) {
            Ok((a, b)) => Ok((Value::Num(a), Value::Num(b))),
            Err(e) => Err(e),
        },
        Value::Char(x) => match uncouple_array(x) {
            Ok((a, b)) => Ok((Value::Char(a), Value::Char(b))),
            Err(e) => Err(e),
        },
        _ => Err(UiuaError::TypeMismatch),
    }
}

/// Split a two-row buffer into its rows.
fn uncouple_array<T: Copy>(x: Array<T>) -> (r: Result<(Array<T>, Array<T>), UiuaError>)
    requires
        x.wf(),
    ensures
        match r {
            Ok((a, b)) => {
                &&& a.wf()
                &&& b.wf()
                &&& a.shape@ == b.shape@
                &&& x.shape@ == seq![2usize] + a.shape@
                &&& x.data@ == a.data@ + b.data@
            },
            Err(e) => e matches UiuaError::ShapeMismatch && (x.shape@.len() == 0 || x.shape@[0]
                != 2),
        },
{
    if x.shape.len() == 0 || x.shape[0] != 2 {
        return Err(UiuaError::ShapeMismatch);
    }
    let (rc, rl) = row_params(&x);
    proof {
        lemma_row_slice_bound(x.shape@, x.data@.len() as int, rc as int, rl as int, 0int);
        lemma_row_slice_bound(x.shape@, x.data@.len() as int, rc as int, rl as int, 1int);
    }
    let da = take_row(&x.data, rl, 0);
    let db = take_row(&x.data, rl, 1);
    let mut shape_a: Vec<usize> = Vec::new();
    let mut shape_b: Vec<usize> = Vec::new();
    let mut j: usize = 1;
    while j < x.shape.len()
        invariant
            1 <= j <= x.shape@.len(),
            shape_a@ == x.shape@.subrange(1, j as int),
            shape_b@ == x.shape@.subrange(1, j as int),
        decreases x.shape@.len() - j,
    {
        shape_a.push(x.shape[j]);
        shape_b.push(x.shape[j]);
        proof {
            assert(x.shape@.subrange(1, j as int).push(x.shape@[j as int]) =~= x.shape@.subrange(
                1,
                j + 1int,
            ));
        }
        j += 1;
    }
    proof {
        assert(x.shape@.subrange(1, x.shape@.len() as int) =~= x.shape@.drop_first());
        assert(prod(shape_a@) == x.row_len_spec());
        assert(seq![2usize] + shape_a@ =~= x.shape@);
        assert(x.data@.subrange(0, rl as int) + x.data@.subrange(rl as int, 2 * rl as int) =~= x
            .data@);
        assert(rl <= x.data@.len());
    }
    let a = Array { shape: shape_a, data: da };
    let b = Array { shape: shape_b, data: db };
    Ok((a, b))
}

/// Wrap a value's shape with a leading axis of length one.
pub fn fix(v: Value) -> (r: Result<Value, UiuaError>)
    requires
        value_wf(v),
    ensures
        match r {
            Ok(out) => value_wf(out) && match (out, v) {
                (Value::Num(o), Value::Num(a)) => o.shape@ == seq![1usize] + a.shape@ && o.data@
                    == a.data@,
                (Value::Char(o), Value::Char(a)) => o.shape@ == seq![1usize] + a.shape@ && o.data@
                    == a.data@,
                _ => false,
            },
            Err(e) => (e matches UiuaError::TypeMismatch && !(v matches Value::Num(_) || v matches
                Value::Char(_))) || (e matches UiuaError::ShapeMismatch && shape_seq(v).len() + 1
                > crate::value::max_dim()),
        },
{
    match v {
        Value::Num(mut a) => {
            if a.shape.len() as u64 >= 0x7fff_ffff_ffff_ffffu64 {
                return Err(UiuaError::ShapeMismatch);
            }
            let ghost old_shape = a.shape@;
            a.shape.insert(0, 1);
            proof {
                assert(a.shape@.drop_first() =~= old_shape);
                lemma_prod_first(a.shape@);
                assert(1 * prod(old_shape) == prod(old_shape)) by (nonlinear_arith);
                assert(a.shape@ =~= seq![1usize] + old_shape);
                assert forall|j: int| 0 <= j < a.shape@.len() implies (#[trigger] a.shape@[j]) as int
                    <= crate::value::max_dim() by {
                    if j > 0 {
                        assert(a.shape@[j] == old_shape[j - 1]);
                    }
                }
            }
            Ok(Value::Num(a))
        },
        Value::Char(mut a) => {
            if a.shape.len() as u64 >= 0x7fff_ffff_ffff_ffffu64 {
                return Err(UiuaError::ShapeMismatch);
            }
            let ghost old_shape = a.shape@;
            a.shape.insert(0, 1);
            proof {
                assert(a.shape@.drop_first() =~= old_shape);
                lemma_prod_first(a.shape@);
                assert(1 * prod(old_shape) == prod(old_shape)) by (nonlinear_arith);
                assert(a.shape@ =~= seq![1usize] + old_shape);
                assert forall|j: int| 0 <= j < a.shape@.len() implies (#[trigger] a.shape@[j]) as int
                    <= crate::value::max_dim() by {
                    if j > 0 {
                        assert(a.shape@[j] == old_shape[j - 1]);
                    }
                }
            }
            Ok(Value::Char(a))
        },
        _ => Err(UiuaError::TypeMismatch),
    }
}

/// Whether two values match, as a scalar one or zero.
pub fn match_values(a: &Value, b: &Value) -> (r: Value)
    ensures
        r matches Value::Num(o) && o.shape@ == Seq::<usize>::empty() && o.data@ == seq![
            if crate::value::val_match(*a, *b) {
                1i64
            } else {
                0i64
            },
        ],
        value_wf(r),
{
    let m = crate::ops::values_match(a, b);
    Value::num_scalar(if m { 1 } else { 0 })
}

/// The classes of a rank-one number sequence: position `i` gets the number of
/// distinct values that appear before the first occurrence of its value.
pub open spec fn firsts(s: Seq<i64>, n: int) -> Seq<i64>
    decreases n,
{
    if n <= 0 {
        Seq::empty()
    } else {
        let f = firsts(s, n - 1);
        if f.contains(s[n - 1]) {
            f
        } else {
            f.push(s[n - 1])
        }
    }
}

/// The position of `x` in `f`, or the length of `f` when absent.
pub open spec fn idx_in(f: Seq<i64>, x: i64) -> int
    decreases f.len(),
{
    if f.len() == 0 {
        0
    } else if f[0] == x {
        0
    } else {
        1 + idx_in(f.drop_first(), x)
    }
}

/// The class of position `i`: where its value stands among first occurrences.
pub open spec fn class_of(s: Seq<i64>, i: int) -> int {
    idx_in(firsts(s, i + 1), s[i])
}

/// A found value's index is where the scan stopped.
proof fn lemma_idx_in_found(f: Seq<i64>, x: i64, j: int)
    requires
        0 <= j < f.len(),
        f[j] == x,
        forall|k: int| 0 <= k < j ==> f[k] != x,
    ensures
        idx_in(f, x) == j,
    decreases j,
{
    if j > 0 {
        assert(forall|k: int|
            0 <= k < f.drop_first().len() ==> #[trigger] f.drop_first()[k] == f[k + 1]);
        lemma_idx_in_found(f.drop_first(), x, j - 1);
    }
}

/// An absent value's index is the length.
proof fn lemma_idx_in_absent(f: Seq<i64>, x: i64)
    requires
        forall|k: int| 0 <= k < f.len() ==> f[k] != x,
    ensures
        idx_in(f, x) == f.len(),
    decreases f.len(),
{
    if f.len() > 0 {
        assert(forall|k: int|
            0 <= k < f.drop_first().len() ==> #[trigger] f.drop_first()[k] == f[k + 1]);
        lemma_idx_in_absent(f.drop_first(), x);
    }
}

/// Search a vector for a value.
#[verifier::loop_isolation(false)]
fn find_in(seen: &Vec<i64>, x: i64) -> (r: Option<usize>)
    ensures
        match r {
            Some(j) => j < seen@.len() && seen@[j as int] == x && idx_in(seen@, x) == j as int,
            None => !seen@.contains(x) && idx_in(seen@, x) == seen@.len(),
        },
{
    for j in 0..seen.len()
        invariant
            forall|k: int| 0 <= k < j ==> seen@[k] != x,
    {
        if seen[j] == x {
            proof {
                lemma_idx_in_found(seen@, x, j as int);
            }
            return Some(j);
        }
    }
    proof {
        lemma_idx_in_absent(seen@, x);
    }
    None
}

/// Assign each element of a rank-one number array the index of its first
/// occurrence among the distinct values seen so far.
#[verifier::loop_isolation(false)]
pub fn classify(v: &Value) -> (r: Result<Value, UiuaError>)
    requires
        value_wf(*v),
    ensures
        match r {
            Ok(out) => *v matches Value::Num(a) && a.shape@.len() == 1 && (out matches Value::Num(
                o,
            ) && o.shape@ == a.shape@ && o.data@.len() == a.data@.len() && (forall|i: int|
                0 <= i < a.data@.len() ==> #[trigger] o.data@[i] == class_of(a.data@, i) as i64))
                && value_wf(out),
            Err(e) => e matches UiuaError::TypeMismatch && !(*v matches Value::Num(a)
                && a.shape@.len() == 1),
        },
{
    let a = match v {
        Value::Num(a) => a,
        _ => {
            return Err(UiuaError::TypeMismatch);
        },
    };
    if a.shape.len() != 1 {
        return Err(UiuaError::TypeMismatch);
    }
    let mut seen: Vec<i64> = Vec::new();
    let mut data: Vec<i64> = Vec::new();
    for i in 0..a.data.len()
        invariant
            seen@ =~= firsts(a.data@, i as int),
            seen@.len() <= i,
            data@.len() == i,
            forall|j: int| 0 <= j < i ==> #[trigger] data@[j] == class_of(a.data@, j) as i64,
    {
        let x = a.data[i];
        match find_in(&seen, x) {
            Some(j) => {
                proof {
                    assert(seen@.contains(x)) by {
                        assert(seen@[j as int] == x);
                    }
                    assert(firsts(a.data@, i + 1) =~= seen@);
                    assert(class_of(a.data@, i as int) == j as int);
                }
                data.push(j as i64);
            },
            None => {
                proof {
                    assert(firsts(a.data@, i + 1) =~= seen@.push(x));
                    assert(seen@.push(x)[seen@.len() as int] == x);
                    assert(forall|k: int|
                        0 <= k < seen@.len() ==> #[trigger] seen@.push(x)[k] == seen@[k]);
                    lemma_idx_in_found(seen@.push(x), x, seen@.len() as int);
                    assert(class_of(a.data@, i as int) == seen@.len() as int);
                }
                data.push(seen.len() as i64);
                seen.push(x);
                proof {
                    assert(seen@ =~= firsts(a.data@, i + 1));
                }
            },
        }
    }
    let out = Array { shape: crate::value::copy_vec(&a.shape), data };
    Ok(Value::Num(out))
}

/// Change an array's shape: the buffer is cycled or truncated to fill the
/// requested element count, row-major.
#[verifier::loop_isolation(false)]
pub fn reshape(dims: &Value, v: Value) -> (r: Result<Value, UiuaError>)
    requires
        value_wf(*dims),
        value_wf(v),
    ensures
        match r {
            Ok(out) => {
                &&& v matches Value::Num(_)
                &&& reshape_welltyped(*dims)
                &&& value_wf(out)
                &&& reshaped(out, *dims, v)
            },
            Err(e) => match e {
                UiuaError::TypeMismatch => !(v matches Value::Num(_)) || !reshape_welltyped(*dims),
                UiuaError::ShapeMismatch => v matches Value::Num(a) && (*dims) matches Value::Num(
                    d,
                ) && reshape_welltyped(*dims) && (!reshape_fits(d.data@, 0, 1) || (a.data@.len()
                    == 0 && reshape_count(d.data@, 0, 1) > 0)),
                _ => false,
            },
        },
{
    let d = match dims {
        Value::Num(d) => d,
        _ => {
            return Err(UiuaError::TypeMismatch);
        },
    };
    if d.shape.len() > 1 {
        return Err(UiuaError::TypeMismatch);
    }
    let a = match v {
        Value::Num(a) => a,
        _ => {
            return Err(UiuaError::TypeMismatch);
        },
    };
    for j in 0..d.data.len()
        invariant
            forall|k: int| 0 <= k < j ==> #[trigger] d.data@[k] >= 0,
    {
        if d.data[j] < 0 {
            return Err(UiuaError::TypeMismatch);
        }
    }
    let mut shape: Vec<usize> = Vec::new();
    let mut count: usize = 1;
    for j in 0..d.data.len()
        invariant
            forall|k: int| 0 <= k < d.data@.len() ==> #[trigger] d.data@[k] >= 0,
            shape@.len() == j,
            forall|k: int| 0 <= k < j ==> #[trigger] shape@[k] == d.data@[k] as usize,
            count == prod(shape@),
            count as int <= max_dim(),
            reshape_fits(d.data@, 0, 1) <==> reshape_fits(d.data@, j as int, count as int),
            reshape_count(d.data@, 0, 1) == reshape_count(d.data@, j as int, count as int),
    {
        let ghost c0 = count as int;
        let dim = d.data[j];
        if dim != 0 && dim as u64 > usize::MAX as u64 {
            proof {
                assert(!reshape_fits(d.data@, j as int, c0));
            }
            return Err(UiuaError::ShapeMismatch);
        }
        let dim_u = dim as usize;
        proof {
            assert(d.data@[j as int] == dim_u as i64);
        }
        if dim_u == 0 {
            count = 0;
            proof {
                assert(reshape_fits(d.data@, j as int, c0) == reshape_fits(d.data@, j + 1, 0));
                assert(reshape_count(d.data@, j as int, c0) == reshape_count(d.data@, j + 1, 0));
            }
        } else {
            if count as u64 > 0x7fff_ffff_ffff_ffffu64 / (dim_u as u64) {
                proof {
                    let md = 0x7fff_ffff_ffff_ffffint;
                    vstd::arithmetic::div_mod::lemma_fundamental_div_mod(md, dim_u as int);
                    vstd::arithmetic::div_mod::lemma_mod_bound(md, dim_u as int);
                    assert(c0 * (dim_u as int) > md) by (nonlinear_arith)
                        requires
                            c0 >= md / (dim_u as int) + 1,
                            md == (dim_u as int) * (md / (dim_u as int)) + md % (dim_u as int),
                            0 <= md % (dim_u as int) < dim_u as int,
                            dim_u as int >= 1,
                    ;
                    assert(c0 * (d.data@[j as int] as int) > md);
                    assert(!reshape_fits(d.data@, j as int, c0));
                }
                return Err(UiuaError::ShapeMismatch);
            }
            proof {
                let md = 0x7fff_ffff_ffff_ffffint;
                assert(c0 * (dim_u as int) <= md) by (nonlinear_arith)
                    requires
                        c0 <= md / (dim_u as int),
                        dim_u as int >= 1,
                        c0 >= 0,
                        md >= 0,
                ;
            }
            let next64: u64 = (count as u64) * (dim_u as u64);
            if next64 > usize::MAX as u64 {
                proof {
                    assert(c0 * (d.data@[j as int] as int) > usize::MAX);
                    assert(!reshape_fits(d.data@, j as int, c0));
                }
                return Err(UiuaError::ShapeMismatch);
            }
            count = next64 as usize;
            proof {
                assert(count as int == c0 * (d.data@[j as int] as int));
                assert(reshape_fits(d.data@, j as int, c0) == (c0 * (d.data@[j as int] as int)
                    <= max_dim() && c0 * (d.data@[j as int] as int) <= usize::MAX && reshape_fits(
                    d.data@,
                    j + 1,
                    c0 * (d.data@[j as int] as int),
                )));
                assert(reshape_fits(d.data@, j as int, c0) == reshape_fits(
                    d.data@,
                    j + 1,
                    count as int,
                ));
                assert(reshape_count(d.data@, j as int, c0) == reshape_count(
                    d.data@,
                    j + 1,
                    count as int,
                ));
            }
        }
        let ghost gshape = shape@;
        proof {
            lemma_prod_push(gshape, dim_u);
        }
        shape.push(dim_u);
        proof {
            assert(shape@ == gshape.push(dim_u));
            assert(prod(shape@) == prod(gshape) * dim_u);
            if dim_u == 0 {
                assert(prod(gshape) * 0 == 0) by (nonlinear_arith);
            }
        }
    }
    proof {
        assert(reshape_fits(d.data@, 0, 1));
        assert(count as int == reshape_count(d.data@, 0, 1));
    }
    if a.data.len() == 0 {
        if count > 0 {
            return Err(UiuaError::ShapeMismatch);
        }
        let out = Array { shape, data: a.data };
        return Ok(Value::Num(out));
    }
    let n = a.data.len();
    let mut data: Vec<i64> = Vec::new();
    for i in 0..count
        invariant
            n == a.data@.len(),
            n > 0,
            data@.len() == i,
            forall|k: int| 0 <= k < i ==> #[trigger] data@[k] == a.data@[k % n as int],
    {
        data.push(a.data[i % n]);
    }
    let out = Array { shape, data };
    Ok(Value::Num(out))
}

/// Whether the dimension list of a reshape is acceptable: a rank-at-most-one
/// number array of non-negative entries.
pub open spec fn reshape_welltyped(dims: Value) -> bool {
    dims matches Value::Num(d) && d.shape@.len() <= 1 && (forall|j: int|
        0 <= j < d.data@.len() ==> #[trigger] d.data@[j] >= 0)
}

/// Whether the running element counts of a reshape stay within the model's
/// bound and the machine's, step by step from position `j` with the count so
/// far.
pub open spec fn reshape_fits(d: Seq<i64>, j: int, count: int) -> bool
    decreases d.len() - j when 0 <= j <= d.len()
{
    if j >= d.len() {
        true
    } else if d[j] == 0 {
        reshape_fits(d, j + 1, 0)
    } else {
        d[j] <= usize::MAX && count * d[j] <= max_dim() && count * d[j] <= usize::MAX
            && reshape_fits(d, j + 1, count * d[j])
    }
}

/// The element count a reshape requests, step by step from position `j` with
/// the count so far.
pub open spec fn reshape_count(d: Seq<i64>, j: int, count: int) -> int
    decreases d.len() - j when 0 <= j <= d.len()
{
    if j >= d.len() {
        count
    } else if d[j] == 0 {
        reshape_count(d, j + 1, 0)
    } else {
        reshape_count(d, j + 1, count * d[j])
    }
}

/// How a reshaped array relates to the requested dimensions and the argument:
/// the new shape is the dimension list, and element `i` of the buffer holds
/// element `i` modulo the old length of the old buffer.
pub open spec fn reshaped(out: Value, dims: Value, v: Value) -> bool {
    match (out, dims, v) {
        (Value::Num(o), Value::Num(d), Value::Num(a)) => {
            &&& o.shape@.len() == d.data@.len()
            &&& forall|k: int| 0 <= k < d.data@.len() ==> #[trigger] o.shape@[k] == d.data@[k] as usize
            &&& o.data@.len() == prod(o.shape@)
            &&& if a.data@.len() == 0 {
                o.data@.len() == 0
            } else {
                forall|k: int|
                    0 <= k < o.data@.len() ==> #[trigger] o.data@[k] == a.data@[
                        k % a.data@.len() as int
                    ]
            }
        },
        _ => false,
    }
}

/// Inversion round trip: coupling two arrays and splitting the result gives
/// back arrays with the original shapes and elements.
pub proof fn lemma_couple_round_trip(o: Value, a: Value, b: Value, a2: Value, b2: Value)
    requires
        value_wf(a),
        value_wf(a2),
        coupled(o, a, b),
        coupled(o, a2, b2),
    ensures
        match (a, b, a2, b2) {
            (Value::Num(x), Value::Num(y), Value::Num(x2), Value::Num(y2)) => x2.shape@ == x.shape@
                && x2.data@ == x.data@ && y2.shape@ == y.shape@ && y2.data@ == y.data@,
            (Value::Char(x), Value::Char(y), Value::Char(x2), Value::Char(y2)) => x2.shape@
                == x.shape@ && x2.data@ == x.data@ && y2.shape@ == y.shape@ && y2.data@ == y.data@,
            _ => false,
        },
{
    if let (Value::Num(x), Value::Num(y), Value::Num(x2), Value::Num(y2), Value::Num(oo)) = (
        a,
        b,
        a2,
        b2,
        o,
    ) {
        assert(x.shape@ =~= x2.shape@) by {
            assert((seq![2usize] + x.shape@).drop_first() =~= x.shape@);
            assert((seq![2usize] + x2.shape@).drop_first() =~= x2.shape@);
        }
        let n = x.data@.len() as int;
        assert(x2.data@.len() == n);
        assert(x.data@ =~= (x.data@ + y.data@).subrange(0, n));
        assert(x2.data@ =~= (x2.data@ + y2.data@).subrange(0, n));
        assert(y.data@ =~= (x.data@ + y.data@).subrange(n, (x.data@ + y.data@).len() as int));
        assert(y2.data@ =~= (x2.data@ + y2.data@).subrange(n, (x2.data@ + y2.data@).len() as int));
    }
    if let (Value::Char(x), Value::Char(y), Value::Char(x2), Value::Char(y2), Value::Char(oo)) = (
        a,
        b,
        a2,
        b2,
        o,
    ) {
        assert(x.shape@ =~= x2.shape@) by {
            assert((seq![2usize] + x.shape@).drop_first() =~= x.shape@);
            assert((seq![2usize] + x2.shape@).drop_first() =~= x2.shape@);
        }
        let n = x.data@.len() as int;
        assert(x2.data@.len() == n);
        assert(x.data@ =~= (x.data@ + y.data@).subrange(0, n));
        assert(x2.data@ =~= (x2.data@ + y2.data@).subrange(0, n));
        assert(y.data@ =~= (x.data@ + y.data@).subrange(n, (x.data@ + y.data@).len() as int));
        assert(y2.data@ =~= (x2.data@ + y2.data@).subrange(n, (x2.data@ + y2.data@).len() as int));
    }
}

/// Keep only the first occurrence of each value of a rank-one number array.
#[verifier::loop_isolation(false)]
pub fn deduplicate(v: &Value) -> (r: Result<Value, UiuaError>)
    requires
        value_wf(*v),
    ensures
        match r {
            Ok(out) => *v matches Value::Num(a) && a.shape@.len() == 1 && (out matches Value::Num(
                o,
            ) && o.data@ == firsts(a.data@, a.data@.len() as int) && o.shape@ == seq![
                o.data@.len() as usize,
            ]) && value_wf(out),
            Err(e) => e matches UiuaError::TypeMismatch && !(*v matches Value::Num(a)
                && a.shape@.len() == 1),
        },
{
    let a = match v {
        Value::Num(a) => a,
        _ => {
            return Err(UiuaError::TypeMismatch);
        },
    };
    if a.shape.len() != 1 {
        return Err(UiuaError::TypeMismatch);
    }
    let mut seen: Vec<i64> = Vec::new();
    for i in 0..a.data.len()
        invariant
            seen@ =~= firsts(a.data@, i as int),
            seen@.len() <= i,
    {
        let x = a.data[i];
        match find_in(&seen, x) {
            Some(_) => {},
            None => {
                seen.push(x);
            },
        }
    }
    let n = seen.len();
    let mut shape: Vec<usize> = Vec::new();
    shape.push(n);
    proof {
        assert(shape@ =~= seq![n]);
        lemma_prod_first(shape@);
    }
    Ok(Value::Num(Array { shape, data: seen }))
}

/// Mark the first occurrence of each value of a rank-one number array with a
/// one and every repeat with a zero.
#[verifier::loop_isolation(false)]
pub fn unique(v: &Value) -> (r: Result<Value, UiuaError>)
    requires
        value_wf(*v),
    ensures
        match r {
            Ok(out) => *v matches Value::Num(a) && a.shape@.len() == 1 && (out matches Value::Num(
                o,
            ) && o.shape@ == a.shape@ && o.data@.len() == a.data@.len() && (forall|i: int|
                0 <= i < a.data@.len() ==> #[trigger] o.data@[i] == (if firsts(
                    a.data@,
                    i,
                ).contains(a.data@[i]) {
                    0i64
                } else {
                    1i64
                }))) && value_wf(out),
            Err(e) => e matches UiuaError::TypeMismatch && !(*v matches Value::Num(a)
                && a.shape@.len() == 1),
        },
{
    let a = match v {
        Value::Num(a) => a,
        _ => {
            return Err(UiuaError::TypeMismatch);
        },
    };
    if a.shape.len() != 1 {
        return Err(UiuaError::TypeMismatch);
    }
    let mut seen: Vec<i64> = Vec::new();
    let mut data: Vec<i64> = Vec::new();
    for i in 0..a.data.len()
        invariant
            seen@ =~= firsts(a.data@, i as int),
            seen@.len() <= i,
            data@.len() == i,
            forall|j: int|
                0 <= j < i ==> #[trigger] data@[j] == (if firsts(a.data@, j).contains(
                    a.data@[j],
                ) {
                    0i64
                } else {
                    1i64
                }),
    {
        let x = a.data[i];
        match find_in(&seen, x) {
            Some(_) => {
                data.push(0);
            },
            None => {
                data.push(1);
                seen.push(x);
            },
        }
    }
    let out = Array { shape: crate::value::copy_vec(&a.shape), data };
    Ok(Value::Num(out))
}

/// Copy the rows `lo` to `hi` of a flat buffer.
#[verifier::loop_isolation(false)]
fn rows_slice<T: Copy>(data: &Vec<T>, rl: usize, lo: usize, hi: usize) -> (r: Vec<T>)
    requires
        lo <= hi,
        hi * rl <= data@.len(),
    ensures
        r@ == data@.subrange(lo as int * rl as int, hi as int * rl as int),
{
    let nlen = data.len();
    proof {
        assert(hi * rl <= nlen);
        assert(lo * rl <= hi * rl) by (nonlinear_arith)
            requires
                lo <= hi,
                rl >= 0,
        ;
    }
    let base = lo * rl;
    let top = hi * rl;
    let mut out: Vec<T> = Vec::new();
    let mut k = base;
    while k < top
        invariant
            base <= k <= top,
            top <= data@.len(),
            out@ == data@.subrange(base as int, k as int),
        decreases top - k,
    {
        out.push(data[k]);
        proof {
            assert(data@.subrange(base as int, k as int).push(data@[k as int]) =~= data@.subrange(
                base as int,
                k + 1int,
            ));
        }
        k += 1;
    }
    out
}

/// The shape of a row range: the leading axis replaced by the range's length.
#[verifier::loop_isolation(false)]
fn shape_with_head(shape: &Vec<usize>, head: usize) -> (r: Vec<usize>)
    requires
        shape@.len() >= 1,
    ensures
        r@ == shape@.update(0, head),
{
    let mut out: Vec<usize> = Vec::new();
    out.push(head);
    let mut j: usize = 1;
    while j < shape.len()
        invariant
            1 <= j <= shape@.len(),
            out@ == shape@.update(0, head).take(j as int),
        decreases shape@.len() - j,
    {
        proof {
            assert(shape@.update(0, head).take(j as int).push(shape@[j as int]) =~= shape@.update(
                0,
                head,
            ).take(j + 1int));
        }
        out.push(shape[j]);
        j += 1;
    }
    proof {
        assert(shape@.update(0, head).take(shape@.len() as int) =~= shape@.update(0, head));
    }
    out
}

/// How a row range of `v` relates the result to the argument: the leading
/// axis shrinks to the range and the buffer keeps exactly those rows.
pub open spec fn row_range_of(out: Value, v: Value, lo: int, hi: int) -> bool {
    match (out, v) {
        (Value::Num(o), Value::Num(a)) => o.shape@ == a.shape@.update(0, (hi - lo) as usize)
            && o.data@ == a.data@.subrange(lo * a.row_len_spec(), hi * a.row_len_spec()),
        (Value::Char(o), Value::Char(a)) => o.shape@ == a.shape@.update(0, (hi - lo) as usize)
            && o.data@ == a.data@.subrange(lo * a.row_len_spec(), hi * a.row_len_spec()),
        _ => false,
    }
}

/// The whole-number row count a take or drop asks for, negative meaning from
/// the end.
pub open spec fn signed_count_of(n: Value) -> int {
    match n {
        Value::Num(a) => a.data@[0] as int,
        _ => 0,
    }
}

/// Whether a take or drop count is a scalar number.
pub open spec fn is_scalar_num(n: Value) -> bool {
    n matches Value::Num(a) && a.shape@.len() == 0
}

/// Take a row range out of an array.
fn row_range(v: &Value, lo: usize, hi: usize) -> (r: Result<Value, UiuaError>)
    requires
        value_wf(*v),
        shape_seq(*v).len() > 0,
        lo <= hi,
        hi as int <= row_count_of(*v),
    ensures
        match r {
            Ok(out) => value_wf(out) && row_range_of(out, *v, lo as int, hi as int),
            Err(e) => e matches UiuaError::TypeMismatch && !(*v matches Value::Num(_) || *v
                matches Value::Char(_)),
        },
{
    match v {
        Value::Num(a) => {
            let (rc, rl) = row_params(a);
            proof {
                lemma_row_bounds(rc as int, rl as int, a.data@.len() as int, hi as int);
            }
            proof {
                assert(lo as int * rl as int <= hi as int * rl as int) by (nonlinear_arith)
                    requires
                        lo <= hi,
                        rl >= 0,
                ;
            }
            let data = rows_slice(&a.data, rl, lo, hi);
            let shape = shape_with_head(&a.shape, hi - lo);
            let out = Array { shape, data };
            proof {
                lemma_range_wf(a.shape@, out.shape@, rl as int, lo as int, hi as int);
                assert(out.shape@.drop_first() =~= a.shape@.drop_first());
                lemma_prod_first(out.shape@);
                assert(out.data@.len() == hi as int * rl as int - lo as int * rl as int);
                assert(prod(out.shape@) == out.data@.len() as int) by (nonlinear_arith)
                    requires
                        prod(out.shape@) == (out.shape@[0] as int) * prod(out.shape@.drop_first()),
                        out.shape@[0] as int == hi - lo,
                        rc > 0 ==> rl as int == prod(out.shape@.drop_first()),
                        rc == 0 ==> hi == 0 && lo == 0,
                        out.data@.len() == hi as int * rl as int - lo as int * rl as int,
                        0 <= lo <= hi,
                ;
                if rc > 0 {
                    assert(rl as int == a.row_len_spec());
                } else {
                    assert(hi == 0 && lo == 0);
                    assert(0 * (rl as int) == 0 && 0 * a.row_len_spec() == 0) by (nonlinear_arith);
                    assert(a.data@.subrange(0, 0) =~= a.data@.subrange(
                        0 * a.row_len_spec(),
                        0 * a.row_len_spec(),
                    ));
                }
            }
            Ok(Value::Num(out))
        },
        Value::Char(a) => {
            let (rc, rl) = row_params(a);
            proof {
                lemma_row_bounds(rc as int, rl as int, a.data@.len() as int, hi as int);
            }
            proof {
                assert(lo as int * rl as int <= hi as int * rl as int) by (nonlinear_arith)
                    requires
                        lo <= hi,
                        rl >= 0,
                ;
            }
            let data = rows_slice(&a.data, rl, lo, hi);
            let shape = shape_with_head(&a.shape, hi - lo);
            let out = Array { shape, data };
            proof {
                lemma_range_wf(a.shape@, out.shape@, rl as int, lo as int, hi as int);
                assert(out.shape@.drop_first() =~= a.shape@.drop_first());
                lemma_prod_first(out.shape@);
                assert(out.data@.len() == hi as int * rl as int - lo as int * rl as int);
                assert(prod(out.shape@) == out.data@.len() as int) by (nonlinear_arith)
                    requires
                        prod(out.shape@) == (out.shape@[0] as int) * prod(out.shape@.drop_first()),
                        out.shape@[0] as int == hi - lo,
                        rc > 0 ==> rl as int == prod(out.shape@.drop_first()),
                        rc == 0 ==> hi == 0 && lo == 0,
                        out.data@.len() == hi as int * rl as int - lo as int * rl as int,
                        0 <= lo <= hi,
                ;
                if rc > 0 {
                    assert(rl as int == a.row_len_spec());
                } else {
                    assert(hi == 0 && lo == 0);
                    assert(0 * (rl as int) == 0 && 0 * a.row_len_spec() == 0) by (nonlinear_arith);
                    assert(a.data@.subrange(0, 0) =~= a.data@.subrange(
                        0 * a.row_len_spec(),
                        0 * a.row_len_spec(),
                    ));
                }
            }
            Ok(Value::Char(out))
        },
        _ => Err(UiuaError::TypeMismatch),
    }
}

/// A row range lies inside the buffer.
proof fn lemma_row_bounds(rc: int, rl: int, len: int, hi: int)
    requires
        rc * rl == len,
        rl >= 0,
        len >= 0,
        0 <= hi <= rc,
    ensures
        hi * rl <= len,
{
    assert(hi * rl <= rc * rl) by (nonlinear_arith)
        requires
            0 <= hi <= rc,
            rl >= 0,
    ;
}

/// A row range of a well-formed array is well-formed.
proof fn lemma_range_wf(orig: Seq<usize>, shape: Seq<usize>, rl: int, lo: int, hi: int)
    requires
        orig.len() > 0,
        shape == orig.update(0, ((hi - lo) as usize)),
        0 <= lo <= hi,
        hi - lo <= orig[0],
        forall|i: int| 0 <= i < orig.len() ==> (#[trigger] orig[i]) as int <= crate::value::max_dim(),
        rl == (if orig.len() == 1 {
            1int
        } else {
            prod(orig.drop_first())
        }) || orig[0] == 0,
        prod(orig) == orig[0] * rl || orig[0] == 0,
    ensures
        shape.len() == orig.len(),
        forall|i: int|
            0 <= i < shape.len() ==> (#[trigger] shape[i]) as int <= crate::value::max_dim(),
{
    assert forall|i: int|
        0 <= i < shape.len() implies (#[trigger] shape[i]) as int <= crate::value::max_dim() by {
        if i > 0 {
            assert(shape[i] == orig[i]);
        } else {
            assert(shape[0] as int == hi - lo <= orig[0] as int);
        }
    }
}

/// Take the first rows of an array: the count's magnitude many, from the end
/// when it is negative. Taking more rows than there are is refused.
pub fn take(n: &Value, v: &Value) -> (r: Result<Value, UiuaError>)
    requires
        value_wf(*n),
        value_wf(*v),
    ensures
        match r {
            Ok(out) => {
                &&& is_scalar_num(*n)
                &&& shape_seq(*v).len() > 0
                &&& value_wf(out)
                &&& {
                    let c = signed_count_of(*n);
                    if c >= 0 {
                        c <= row_count_of(*v) && row_range_of(out, *v, 0, c)
                    } else {
                        -c <= row_count_of(*v) && row_range_of(
                            out,
                            *v,
                            row_count_of(*v) + c,
                            row_count_of(*v),
                        )
                    }
                }
            },
            Err(e) => match e {
                UiuaError::TypeMismatch => !is_scalar_num(*n) || !(*v matches Value::Num(_) || *v
                    matches Value::Char(_)),
                UiuaError::ShapeMismatch => is_scalar_num(*n) && shape_seq(*v).len() == 0,
                UiuaError::OutOfBounds => is_scalar_num(*n) && shape_seq(*v).len() > 0 && (
                signed_count_of(*n) > row_count_of(*v) || -signed_count_of(*n) > row_count_of(*v)),
                _ => false,
            },
        },
{
    let c = match n {
        Value::Num(a) => {
            if a.shape.len() != 0 {
                return Err(UiuaError::TypeMismatch);
            }
            a.data[0]
        },
        _ => {
            return Err(UiuaError::TypeMismatch);
        },
    };
    let rc: usize = match v {
        Value::Num(a) => {
            if a.shape.len() == 0 {
                return Err(UiuaError::ShapeMismatch);
            }
            a.shape[0]
        },
        Value::Char(a) => {
            if a.shape.len() == 0 {
                return Err(UiuaError::ShapeMismatch);
            }
            a.shape[0]
        },
        _ => {
            return Err(UiuaError::TypeMismatch);
        },
    };
    if c >= 0 {
        if c as u64 > rc as u64 {
            return Err(UiuaError::OutOfBounds);
        }
        row_range(v, 0, c as usize)
    } else {
        if c == i64::MIN {
            return Err(UiuaError::OutOfBounds);
        }
        let m = 0 - c;
        if m as u64 > rc as u64 {
            return Err(UiuaError::OutOfBounds);
        }
        row_range(v, rc - m as usize, rc)
    }
}

/// Drop the first rows of an array: the count's magnitude many, from the end
/// when it is negative. Dropping more rows than there are leaves none.
pub fn drop_rows(n: &Value, v: &Value) -> (r: Result<Value, UiuaError>)
    requires
        value_wf(*n),
        value_wf(*v),
    ensures
        match r {
            Ok(out) => {
                &&& is_scalar_num(*n)
                &&& shape_seq(*v).len() > 0
                &&& value_wf(out)
                &&& {
                    let c = signed_count_of(*n);
                    let rc = row_count_of(*v);
                    if c >= 0 {
                        row_range_of(
                            out,
                            *v,
                            if c <= rc {
                                c
                            } else {
                                rc
                            },
                            rc,
                        )
                    } else {
                        row_range_of(
                            out,
                            *v,
                            0,
                            if -c <= rc {
                                rc + c
                            } else {
                                0
                            },
                        )
                    }
                }
            },
            Err(e) => match e {
                UiuaError::TypeMismatch => !is_scalar_num(*n) || !(*v matches Value::Num(_) || *v
                    matches Value::Char(_)),
                UiuaError::ShapeMismatch => is_scalar_num(*n) && shape_seq(*v).len() == 0,
                _ => false,
            },
        },
{
    let c = match n {
        Value::Num(a) => {
            if a.shape.len() != 0 {
                return Err(UiuaError::TypeMismatch);
            }
            a.data[0]
        },
        _ => {
            return Err(UiuaError::TypeMismatch);
        },
    };
    let rc: usize = match v {
        Value::Num(a) => {
            if a.shape.len() == 0 {
                return Err(UiuaError::ShapeMismatch);
            }
            a.shape[0]
        },
        Value::Char(a) => {
            if a.shape.len() == 0 {
                return Err(UiuaError::ShapeMismatch);
            }
            a.shape[0]
        },
        _ => {
            return Err(UiuaError::TypeMismatch);
        },
    };
    if c >= 0 {
        let lo: usize = if c as u64 > rc as u64 {
            rc
        } else {
            c as usize
        };
        row_range(v, lo, rc)
    } else {
        if c == i64::MIN {
            return row_range(v, 0, 0);
        }
        let m = 0 - c;
        let hi: usize = if m as u64 > rc as u64 {
            0
        } else {
            rc - m as usize
        };
        row_range(v, 0, hi)
    }
}

} // verus!
