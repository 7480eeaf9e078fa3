//! The value model: a rank-N array of numbers, characters or boxed values,
//! or a function, together with well-formedness and match equality.
use vstd::prelude::*;

use crate::prim::Primitive;
use crate::impl_prim::ImplPrimitive;
use crate::Signature;

verus! {

/// The largest dimension a shape may hold, so that lengths fit in `i64`.
pub open spec fn max_dim() -> int {
    0x7fff_ffff_ffff_ffff
}

/// A flat, row-major array: an ordered shape and the element buffer.
#[derive(Debug)]
pub struct Array<T> {
    /// The ordered dimensions; their product is the element count.
    pub shape: Vec<usize>,
    /// The elements, in row-major order.
    pub data: Vec<T>,
}

/// The product of a shape.
pub open spec fn prod(s: Seq<usize>) -> int
    decreases s.len(),
{
    if s.len() == 0 {
        1
    } else {
        s[0] * prod(s.drop_first())
    }
}

impl<T> Array<T> {
    /// Shapes multiply out to the element count; the rank, the length and
    /// every dimension fit in `i64`.
    pub open spec fn wf(&self) -> bool {
        &&& prod(self.shape@) == self.data@.len()
        &&& self.shape@.len() as int <= max_dim()
        &&& self.data@.len() as int <= max_dim()
        &&& forall|i: int|
            0 <= i < self.shape@.len() ==> (#[trigger] self.shape@[i]) as int <= max_dim()
    }

    /// The number of dimensions.
    pub open spec fn rank(&self) -> int {
        self.shape@.len() as int
    }

    /// The number of rows: the leading dimension, or one for a scalar.
    pub open spec fn row_count_spec(&self) -> int {
        if self.rank() == 0 {
            1
        } else {
            self.shape@[0] as int
        }
    }

    /// How many elements one row holds.
    pub open spec fn row_len_spec(&self) -> int {
        if self.rank() == 0 {
            1
        } else {
            prod(self.shape@.drop_first())
        }
    }
}

/// A boxed value: one explicit level of wrapping.
#[derive(Debug)]
pub struct Boxed(pub Box<Value>);

/// An identifier of a function: the distinguished bottom frame, a name, or a
/// compiler-assigned number.
#[derive(Debug)]
pub enum FunctionId {
    /// The bottom-most call frame.
    Main,
    /// A named function.
    Named(String),
    /// An anonymous function, numbered by the compiler.
    Anonymous(u64),
}

/// A compiled function: its identity, declared signature, and instructions.
#[derive(Debug)]
pub struct Function {
    /// The function's identity, used by memoization and diagnostics.
    pub id: FunctionId,
    /// The declared stack signature.
    pub sig: Signature,
    /// The instruction sequence the runtime drives.
    pub instrs: Vec<Instr>,
}

/// One instruction of the flat sequence an external compiler produces.
#[derive(Debug)]
pub enum Instr {
    /// Push a literal value.
    Push(Value),
    /// Run a primitive; the second field is the source span for diagnostics.
    Prim(Primitive, u64),
    /// Run an internal primitive produced by inversion or optimization.
    ImplPrim(ImplPrimitive, u64),
    /// Pop a function value and call it.
    Call(u64),
}

/// The sole runtime datum: an array of one of the element kinds, or a function.
#[derive(Debug)]
pub enum Value {
    /// An array of numbers.
    Num(Array<i64>),
    /// An array of characters.
    Char(Array<char>),
    /// An array of boxed values.
    Box(Array<Boxed>),
    /// A function value.
    Func(Box<Function>),
}

/// Well-formedness of a value: every array's shape multiplies out to its
/// element count, down through boxes and function literals.
pub open spec fn value_wf(v: Value) -> bool
    decreases v,
{
    match v {
        Value::Num(a) => a.wf(),
        Value::Char(a) => a.wf(),
        Value::Box(a) => a.wf() && boxed_all_wf(a.data@),
        Value::Func(f) => instrs_wf(f.instrs@),
    }
}

/// Well-formedness of a sequence of boxed values.
pub open spec fn boxed_all_wf(s: Seq<Boxed>) -> bool
    decreases s, s.len(),
{
    s.len() == 0 || (value_wf(*s[0].0) && boxed_all_wf(s.drop_first()))
}

/// Well-formedness of an instruction sequence.
pub open spec fn instrs_wf(s: Seq<Instr>) -> bool
    decreases s, s.len(),
{
    s.len() == 0 || (instr_wf(s[0]) && instrs_wf(s.drop_first()))
}

/// Well-formedness of one instruction.
pub open spec fn instr_wf(i: Instr) -> bool
    decreases i,
{
    match i {
        Instr::Push(v) => value_wf(v),
        _ => true,
    }
}

/// Match equality: two arrays match when their shapes and all their elements
/// are equal; functions match when they share an identity.
pub open spec fn val_match(a: Value, b: Value) -> bool
    decreases a,
{
    match (a, b) {
        (Value::Num(x), Value::Num(y)) => x.shape@ == y.shape@ && x.data@ == y.data@,
        (Value::Char(x), Value::Char(y)) => x.shape@ == y.shape@ && x.data@ == y.data@,
        (Value::Box(x), Value::Box(y)) => x.shape@ == y.shape@ && x.data@.len() == y.data@.len()
            && boxed_match(x.data@, y.data@),
        (Value::Func(f), Value::Func(g)) => id_eq(f.id, g.id),
        _ => false,
    }
}

/// Pointwise match equality of boxed elements.
pub open spec fn boxed_match(x: Seq<Boxed>, y: Seq<Boxed>) -> bool
    decreases x, x.len(),
{
    x.len() == 0 || y.len() == 0 || (val_match(*x[0].0, *y[0].0) && boxed_match(
        x.drop_first(),
        y.drop_first(),
    ))
}

/// Equality of function identities.
pub open spec fn id_eq(a: FunctionId, b: FunctionId) -> bool {
    match (a, b) {
        (FunctionId::Main, FunctionId::Main) => true,
        (FunctionId::Named(x), FunctionId::Named(y)) => x@ == y@,
        (FunctionId::Anonymous(x), FunctionId::Anonymous(y)) => x == y,
        _ => false,
    }
}

/// Copy a vector of plain elements.
pub fn copy_vec<T: Copy>(v: &Vec<T>) -> (r: Vec<T>)
    ensures
        r@ == v@,
{
    let mut out: Vec<T> = Vec::new();
    for i in 0..v.len()
        invariant
            out@ == v@.take(i as int),
    {
        out.push(v[i]);
        proof {
            assert(v@.take(i as int).push(v@[i as int]) =~= v@.take(i + 1int));
        }
    }
    proof {
        assert(v@.take(v@.len() as int) =~= v@);
    }
    out
}

/// Compare two vectors of plain elements.
pub fn vec_eq_i64(a: &Vec<i64>, b: &Vec<i64>) -> (r: bool)
    ensures
        r == (a@ == b@),
{
    if a.len() != b.len() {
        return false;
    }
    for i in 0..a.len()
        invariant
            a@.len() == b@.len(),
            forall|j: int| 0 <= j < i ==> a@[j] == b@[j],
    {
        if a[i] != b[i] {
            return false;
        }
    }
    proof {
        assert(a@ =~= b@);
    }
    true
}

/// Compare two shape vectors.
pub fn vec_eq_usize(a: &Vec<usize>, b: &Vec<usize>) -> (r: bool)
    ensures
        r == (a@ == b@),
{
    if a.len() != b.len() {
        return false;
    }
    for i in 0..a.len()
        invariant
            a@.len() == b@.len(),
            forall|j: int| 0 <= j < i ==> a@[j] == b@[j],
    {
        if a[i] != b[i] {
            return false;
        }
    }
    proof {
        assert(a@ =~= b@);
    }
    true
}

/// Compare two character vectors.
pub fn vec_eq_char(a: &Vec<char>, b: &Vec<char>) -> (r: bool)
    ensures
        r == (a@ == b@),
{
    if a.len() != b.len() {
        return false;
    }
    for i in 0..a.len()
        invariant
            a@.len() == b@.len(),
            forall|j: int| 0 <= j < i ==> a@[j] == b@[j],
    {
        if a[i] != b[i] {
            return false;
        }
    }
    proof {
        assert(a@ =~= b@);
    }
    true
}

impl Value {
    /// The stable small natural identifying the element kind.
    pub fn type_id(&self) -> (r: i64)
        ensures
            r == type_id_spec(*self),
    {
        match self {
            Value::Num(_) => 0,
            Value::Char(_) => 1,
            Value::Box(_) => 2,
            Value::Func(_) => 3,
        }
    }

    /// A scalar number.
    pub fn num_scalar(n: i64) -> (r: Value)
        ensures
            r matches Value::Num(a) && a.shape@ == Seq::<usize>::empty() && a.data@ == seq![n],
            value_wf(r),
    {
        let a = Array { shape: Vec::new(), data: {
            let mut d = Vec::new();
            d.push(n);
            d
        } };
        proof {
            assert(a.shape@ =~= Seq::<usize>::empty());
            assert(a.data@ =~= seq![n]);
            assert(prod(a.shape@) == 1);
        }
        Value::Num(a)
    }

    /// A rank-one array of numbers.
    pub fn num_list(data: Vec<i64>) -> (r: Value)
        requires
            data@.len() as int <= max_dim(),
        ensures
            r matches Value::Num(a) && a.shape@ == seq![data@.len() as usize] && a.data@ == data@,
            value_wf(r),
    {
        let n = data.len();
        let mut shape: Vec<usize> = Vec::new();
        shape.push(n);
        let a = Array { shape, data };
        proof {
            assert(a.shape@ =~= seq![n]);
            assert(a.shape@.drop_first() =~= Seq::<usize>::empty());
            assert(prod(a.shape@) == a.shape@[0] * prod(a.shape@.drop_first()));
            assert(prod(Seq::<usize>::empty()) == 1);
        }
        Value::Num(a)
    }

    /// Read a scalar natural number, as indices and counts require.
    pub fn as_nat(&self) -> (r: Option<usize>)
        requires
            value_wf(*self),
        ensures
            match r {
                Some(k) => *self matches Value::Num(a) && a.shape@.len() == 0 && a.data@ == seq![
                    k as i64,
                ] && is_scalar_nat(*self) && scalar_num_of(*self) == k as int,
                None => !(is_scalar_nat(*self) && scalar_num_of(*self) <= usize::MAX as int),
            },
    {
        match self {
            Value::Num(a) => {
                if a.shape.len() == 0 && a.data.len() == 1 && a.data[0] >= 0 && a.data[0] as u64
                    <= usize::MAX as u64 {
                    proof {
                        assert(a.data@ =~= seq![a.data@[0]]);
                    }
                    Some(a.data[0] as usize)
                } else {
                    proof {
                        if a.shape@.len() == 0 {
                            lemma_scalar_has_one(*self);
                        }
                    }
                    None
                }
            },
            _ => None,
        }
    }
}

/// The stable small natural identifying the element kind.
pub open spec fn type_id_spec(v: Value) -> i64 {
    match v {
        Value::Num(_) => 0,
        Value::Char(_) => 1,
        Value::Box(_) => 2,
        Value::Func(_) => 3,
    }
}

/// Whether the value is a scalar whole number.
pub open spec fn is_scalar_nat(v: Value) -> bool {
    v matches Value::Num(a) && a.shape@.len() == 0 && a.data@.len() == 1 && a.data@[0] >= 0
}

/// The number a scalar holds.
pub open spec fn scalar_num_of(v: Value) -> int {
    match v {
        Value::Num(a) => a.data@[0] as int,
        _ => 0,
    }
}

/// A well-formed scalar array holds exactly one element.
pub proof fn lemma_scalar_has_one(v: Value)
    requires
        value_wf(v),
        v matches Value::Num(a) && a.shape@.len() == 0,
    ensures
        v matches Value::Num(a) ==> a.data@.len() == 1,
{
}

} // verus!
