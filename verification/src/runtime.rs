//! The stack-machine runtime: the evaluation state, the instruction driver,
//! and the primitive dispatcher.
use vstd::prelude::*;

use crate::error::{error_wf, UiuaError};
use crate::ops::{clone_value, lemma_sim_to_wf, val_sim, values_match};
use crate::prim::Primitive;
use crate::value::{id_eq, instrs_wf, val_match, value_wf, Function, FunctionId, Instr, Value};

verus! {

/// Every value of a sequence is well-formed.
pub open spec fn all_wf(s: Seq<Value>) -> bool {
    forall|i: int| 0 <= i < s.len() ==> value_wf(#[trigger] s[i])
}

/// One memoization entry: a function identity, the arguments it was called
/// on, and the outputs that call produced.
pub struct MemoEntry {
    /// The function's identity.
    pub id: FunctionId,
    /// The arguments, bottom first.
    pub args: Vec<Value>,
    /// The outputs, bottom first.
    pub outputs: Vec<Value>,
}

/// Every entry of the memo table holds well-formed values.
pub open spec fn memo_wf(m: Seq<MemoEntry>) -> bool {
    forall|i: int|
        0 <= i < m.len() ==> all_wf((#[trigger] m[i]).args@) && all_wf(m[i].outputs@)
}

/// Whether a memo entry answers a call of `id` on `args`.
pub open spec fn memo_hits(e: MemoEntry, id: FunctionId, args: Seq<Value>) -> bool {
    id_eq(e.id, id) && e.args@.len() == args.len() && (forall|i: int|
        0 <= i < args.len() ==> val_match(#[trigger] e.args@[i], args[i]))
}

/// The first memo entry, at or after position `i`, answering the call.
pub open spec fn memo_find(m: Seq<MemoEntry>, id: FunctionId, args: Seq<Value>, i: int) -> Option<
    int,
>
    decreases m.len() - i when 0 <= i <= m.len()
{
    if i < 0 || i >= m.len() {
        None
    } else if memo_hits(m[i], id, args) {
        Some(i)
    } else {
        memo_find(m, id, args, i + 1)
    }
}

/// Memo purity, the table half: a freshly stored call is found again, so a
/// second call with matching arguments is answered from the table with the
/// first call's outputs.
pub proof fn lemma_memo_find_after_insert(
    m: Seq<MemoEntry>,
    e: MemoEntry,
    id: FunctionId,
    args: Seq<Value>,
)
    requires
        memo_hits(e, id, args),
        memo_find(m, id, args, 0) is None,
    ensures
        memo_find(m.push(e), id, args, 0) == Some(m.len() as int),
{
    lemma_memo_find_push(m, e, id, args, 0);
}

/// Unwinds the scan over a table extended by one entry.
proof fn lemma_memo_find_push(
    m: Seq<MemoEntry>,
    e: MemoEntry,
    id: FunctionId,
    args: Seq<Value>,
    i: int,
)
    requires
        memo_hits(e, id, args),
        0 <= i <= m.len(),
        memo_find(m, id, args, i) is None,
    ensures
        memo_find(m.push(e), id, args, i) == Some(m.len() as int),
    decreases m.len() - i,
{
    if i < m.len() {
        assert(m.push(e)[i] == m[i]);
        lemma_memo_find_push(m, e, id, args, i + 1);
    } else {
        assert(m.push(e)[i] == e);
    }
}

/// The runtime state of one evaluation.
pub struct Uiua {
    /// The value stack; the top is the end.
    pub stack: Vec<Value>,
    /// The anti-stack: the scratch stash of `save` and `load`.
    pub antistack: Vec<Value>,
    /// The memoization table.
    pub memo: Vec<MemoEntry>,
    /// The next tag to hand out.
    pub next_tag: u64,
    /// The source span of the instruction being run, for diagnostics.
    pub span: u64,
    /// The lines the diagnostic operations have written to the backend.
    pub trace_log: Vec<String>,
}

/// Well-formedness of the runtime: every value anywhere in it is well-formed.
pub open spec fn env_wf(e: Uiua) -> bool {
    all_wf(e.stack@) && all_wf(e.antistack@) && memo_wf(e.memo@)
}

/// Everything of the state except the stack is unchanged.
pub open spec fn same_but_stack(pre: Uiua, post: Uiua) -> bool {
    &&& post.antistack == pre.antistack
    &&& post.memo == pre.memo
    &&& post.next_tag == pre.next_tag
    &&& post.trace_log == pre.trace_log
}

impl Uiua {
    /// A fresh runtime with empty stacks.
    pub fn new() -> (r: Uiua)
        ensures
            r.stack@ == Seq::<Value>::empty(),
            r.antistack@ == Seq::<Value>::empty(),
            r.memo@ == Seq::<MemoEntry>::empty(),
            r.next_tag == 0,
            r.span == 0,
            r.trace_log@ == Seq::<String>::empty(),
            env_wf(r),
    {
        Uiua {
            stack: Vec::new(),
            antistack: Vec::new(),
            memo: Vec::new(),
            next_tag: 0,
            span: 0,
            trace_log: Vec::new(),
        }
    }

    /// The number of values on the stack.
    pub fn stack_size(&self) -> (r: usize)
        ensures
            r == self.stack@.len(),
    {
        self.stack.len()
    }

    /// The number of values on the anti-stack.
    pub fn antistack_size(&self) -> (r: usize)
        ensures
            r == self.antistack@.len(),
    {
        self.antistack.len()
    }

    /// Push a value onto the stack.
    pub fn push(&mut self, v: Value)
        requires
            value_wf(v),
            env_wf(*old(self)),
        ensures
            final(self).stack@ == old(self).stack@.push(v),
            same_but_stack(*old(self), *final(self)),
            final(self).span == old(self).span,
            env_wf(*final(self)),
    {
        self.stack.push(v);
    }

    /// Pop the top value off the stack.
    pub fn pop(&mut self) -> (r: Result<Value, UiuaError>)
        requires
            env_wf(*old(self)),
        ensures
            same_but_stack(*old(self), *final(self)),
            final(self).span == old(self).span,
            env_wf(*final(self)),
            match r {
                Ok(v) => old(self).stack@.len() > 0 && v == old(self).stack@.last()
                    && final(self).stack@ == old(self).stack@.drop_last() && value_wf(v),
                Err(e) => e matches UiuaError::StackUnderflow && old(self).stack@.len() == 0
                    && final(self).stack@ == old(self).stack@,
            },
    {
        match self.stack.pop() {
            Some(v) => Ok(v),
            None => Err(UiuaError::StackUnderflow),
        }
    }

    /// Push a value onto the anti-stack.
    pub fn antipush(&mut self, v: Value)
        requires
            value_wf(v),
            env_wf(*old(self)),
        ensures
            final(self).antistack@ == old(self).antistack@.push(v),
            final(self).stack == old(self).stack,
            final(self).memo == old(self).memo,
            final(self).next_tag == old(self).next_tag,
            final(self).trace_log == old(self).trace_log,
            final(self).span == old(self).span,
            env_wf(*final(self)),
    {
        self.antistack.push(v);
    }

    /// Pop the top value off the anti-stack.
    pub fn antipop(&mut self) -> (r: Result<Value, UiuaError>)
        requires
            env_wf(*old(self)),
        ensures
            final(self).stack == old(self).stack,
            final(self).memo == old(self).memo,
            final(self).next_tag == old(self).next_tag,
            final(self).trace_log == old(self).trace_log,
            final(self).span == old(self).span,
            env_wf(*final(self)),
            match r {
                Ok(v) => old(self).antistack@.len() > 0 && v == old(self).antistack@.last()
                    && final(self).antistack@ == old(self).antistack@.drop_last() && value_wf(v),
                Err(e) => e matches UiuaError::AntistackUnderflow && old(self).antistack@.len()
                    == 0 && final(self).antistack@ == old(self).antistack@,
            },
    {
        match self.antistack.pop() {
            Some(v) => Ok(v),
            None => Err(UiuaError::AntistackUnderflow),
        }
    }

    /// Shrink the stack back to at most `n` values.
    pub fn truncate_stack(&mut self, n: usize)
        requires
            env_wf(*old(self)),
        ensures
            same_but_stack(*old(self), *final(self)),
            final(self).span == old(self).span,
            env_wf(*final(self)),
            final(self).stack@ == if n <= old(self).stack@.len() {
                old(self).stack@.take(n as int)
            } else {
                old(self).stack@
            },
    {
        proof {
            if n > self.stack@.len() {
                assert(self.stack@.take(self.stack@.len() as int) =~= self.stack@);
            }
        }
        self.stack.truncate(n);
    }

    /// Shrink the anti-stack back to at most `n` values.
    pub fn truncate_antistack(&mut self, n: usize)
        requires
            env_wf(*old(self)),
        ensures
            final(self).stack == old(self).stack,
            final(self).memo == old(self).memo,
            final(self).next_tag == old(self).next_tag,
            final(self).trace_log == old(self).trace_log,
            final(self).span == old(self).span,
            env_wf(*final(self)),
            final(self).antistack@ == if n <= old(self).antistack@.len() {
                old(self).antistack@.take(n as int)
            } else {
                old(self).antistack@
            },
    {
        proof {
            if n > self.antistack@.len() {
                assert(self.antistack@.take(self.antistack@.len() as int) =~= self.antistack@);
            }
        }
        self.antistack.truncate(n);
    }

    /// Pop a function value off the stack; any other value is refused and
    /// left in place.
    pub fn pop_function(&mut self) -> (r: Result<Box<Function>, UiuaError>)
        requires
            env_wf(*old(self)),
        ensures
            same_but_stack(*old(self), *final(self)),
            final(self).span == old(self).span,
            env_wf(*final(self)),
            match r {
                Ok(f) => old(self).stack@.len() > 0 && old(self).stack@.last() == Value::Func(f)
                    && final(self).stack@ == old(self).stack@.drop_last() && instrs_wf(f.instrs@),
                Err(e) => final(self).stack@ == old(self).stack@ && ((e matches
                UiuaError::StackUnderflow && old(self).stack@.len() == 0) || (e matches
                UiuaError::TypeMismatch && old(self).stack@.len() > 0 && !(old(self).stack@.last()
                    is Func))),
            },
    {
        let is_fn = match self.stack.last() {
            Some(Value::Func(_)) => true,
            Some(_) => {
                return Err(UiuaError::TypeMismatch);
            },
            None => {
                return Err(UiuaError::StackUnderflow);
            },
        };
        match self.stack.pop() {
            Some(Value::Func(f)) => Ok(f),
            _ => Err(UiuaError::StackUnderflow),
        }
    }
}

/// The modifiers the compiler must inline: reaching one at run time is a
/// compiler invariant violation, not a user error.
pub open spec fn is_inlined_only(p: Primitive) -> bool {
    ||| p == Primitive::Dip
    ||| p == Primitive::Gap
    ||| p == Primitive::Un
    ||| p == Primitive::Under
    ||| p == Primitive::Bind
    ||| p == Primitive::Both
    ||| p == Primitive::Fork
    ||| p == Primitive::Cascade
    ||| p == Primitive::Bracket
    ||| p == Primitive::Comptime
}

/// The stack-arity law: a successful run of a primitive with a declared
/// signature moves the stack height by exactly its outputs minus its
/// arguments.
pub open spec fn prim_sig_ok(p: Primitive, pre_len: int, post_len: int) -> bool {
    match (crate::prim::meta_spec(p).args, crate::prim::meta_spec(p).outputs) {
        (Some(a), Some(o)) => post_len == pre_len - a + o,
        _ => true,
    }
}

/// The value left by a monadic pervasive primitive.
pub open spec fn mon_of(p: Primitive) -> crate::array_ops::MonOp {
    match p {
        Primitive::Not => crate::array_ops::MonOp::Not,
        Primitive::Sign => crate::array_ops::MonOp::Sign,
        Primitive::Neg => crate::array_ops::MonOp::Neg,
        Primitive::Abs => crate::array_ops::MonOp::Abs,
        Primitive::Floor => crate::array_ops::MonOp::Floor,
        Primitive::Ceil => crate::array_ops::MonOp::Ceil,
        _ => crate::array_ops::MonOp::Round,
    }
}

/// The operation run by a dyadic pervasive primitive.
pub open spec fn dy_of(p: Primitive) -> crate::array_ops::DyOp {
    match p {
        Primitive::Add => crate::array_ops::DyOp::Add,
        Primitive::Sub => crate::array_ops::DyOp::Sub,
        Primitive::Mul => crate::array_ops::DyOp::Mul,
        Primitive::Mod => crate::array_ops::DyOp::Modulus,
        Primitive::Min => crate::array_ops::DyOp::Min,
        Primitive::Max => crate::array_ops::DyOp::Max,
        Primitive::Eq => crate::array_ops::DyOp::CmpEq,
        Primitive::Ne => crate::array_ops::DyOp::CmpNe,
        Primitive::Lt => crate::array_ops::DyOp::CmpLt,
        Primitive::Le => crate::array_ops::DyOp::CmpLe,
        Primitive::Gt => crate::array_ops::DyOp::CmpGt,
        _ => crate::array_ops::DyOp::CmpGe,
    }
}

/// Whether a primitive is one of the implemented monadic pervasives.
pub open spec fn is_mon_perv(p: Primitive) -> bool {
    ||| p == Primitive::Not
    ||| p == Primitive::Sign
    ||| p == Primitive::Neg
    ||| p == Primitive::Abs
    ||| p == Primitive::Floor
    ||| p == Primitive::Ceil
    ||| p == Primitive::Round
}

/// Whether a primitive is one of the implemented dyadic pervasives.
pub open spec fn is_dy_perv(p: Primitive) -> bool {
    ||| p == Primitive::Add
    ||| p == Primitive::Sub
    ||| p == Primitive::Mul
    ||| p == Primitive::Mod
    ||| p == Primitive::Min
    ||| p == Primitive::Max
    ||| p == Primitive::Eq
    ||| p == Primitive::Ne
    ||| p == Primitive::Lt
    ||| p == Primitive::Le
    ||| p == Primitive::Gt
    ||| p == Primitive::Ge
}

/// A one-in, one-out step: only the top of the stack changed.
pub open spec fn top1(pre: Uiua, post: Uiua) -> bool {
    &&& pre.stack@.len() >= 1
    &&& post.stack@ == pre.stack@.drop_last().push(post.stack@.last())
    &&& same_but_stack(pre, post)
}

/// A two-in, one-out step: the top two values were replaced by one.
pub open spec fn top2(pre: Uiua, post: Uiua) -> bool {
    &&& pre.stack@.len() >= 2
    &&& post.stack@ == pre.stack@.drop_last().drop_last().push(post.stack@.last())
    &&& same_but_stack(pre, post)
}

/// What a successful run of each implemented pure primitive does to the
/// state, stated over the relations of the array operations. Primitives that
/// call functions promise their effects through their own helpers.
pub open spec fn run_post(p: Primitive, pre: Uiua, post: Uiua) -> bool {
    if is_mon_perv(p) {
        top1(pre, post) && crate::array_ops::mon_value_rel(
            mon_of(p),
            post.stack@.last(),
            pre.stack@.last(),
        )
    } else if is_dy_perv(p) {
        // the top value is the first argument; the result applies the
        // operation to the second argument on the left
        top2(pre, post) && crate::array_ops::dy_value_rel(
            dy_of(p),
            post.stack@.last(),
            pre.stack@[pre.stack@.len() - 2],
            pre.stack@.last(),
        )
    } else {
        match p {
            Primitive::Dup => {
                &&& pre.stack@.len() >= 1
                &&& post.stack@.len() == pre.stack@.len() + 1
                &&& post.stack@.take(pre.stack@.len() - 1) == pre.stack@.take(
                    pre.stack@.len() - 1,
                )
                &&& val_sim(post.stack@[pre.stack@.len() - 1], pre.stack@.last())
                &&& post.stack@.last() == pre.stack@.last()
                &&& same_but_stack(pre, post)
            },
            Primitive::Over => {
                &&& pre.stack@.len() >= 2
                &&& post.stack@.len() == pre.stack@.len() + 1
                &&& post.stack@.take(pre.stack@.len() - 2) == pre.stack@.take(
                    pre.stack@.len() - 2,
                )
                &&& val_sim(post.stack@[pre.stack@.len() - 2], pre.stack@[pre.stack@.len() - 2])
                &&& post.stack@[pre.stack@.len() - 1] == pre.stack@.last()
                &&& post.stack@.last() == pre.stack@[pre.stack@.len() - 2]
                &&& same_but_stack(pre, post)
            },
            Primitive::Flip => {
                &&& pre.stack@.len() >= 2
                &&& post.stack@ == pre.stack@.update(pre.stack@.len() - 2, pre.stack@.last())
                    .update(pre.stack@.len() - 1, pre.stack@[pre.stack@.len() - 2])
                &&& same_but_stack(pre, post)
            },
            Primitive::Pop => {
                &&& pre.stack@.len() >= 1
                &&& post.stack@ == pre.stack@.drop_last()
                &&& same_but_stack(pre, post)
            },
            Primitive::Identity => {
                &&& pre.stack@.len() >= 1
                &&& post.stack@ == pre.stack@
                &&& same_but_stack(pre, post)
            },
            Primitive::Save => {
                &&& pre.stack@.len() >= 1
                &&& post.stack@ == pre.stack@.drop_last()
                &&& post.antistack@ == pre.antistack@.push(pre.stack@.last())
                &&& post.memo == pre.memo && post.next_tag == pre.next_tag && post.trace_log
                    == pre.trace_log
            },
            Primitive::Load => {
                &&& pre.antistack@.len() >= 1
                &&& post.stack@ == pre.stack@.push(pre.antistack@.last())
                &&& post.antistack@ == pre.antistack@.drop_last()
                &&& post.memo == pre.memo && post.next_tag == pre.next_tag && post.trace_log
                    == pre.trace_log
            },
            Primitive::Len => top1(pre, post) && (post.stack@.last() matches Value::Num(o)
                && o.shape@ == Seq::<usize>::empty() && o.data@ == seq![
                crate::array_ops::row_count_of(pre.stack@.last()) as i64,
            ]),
            Primitive::Shape => top1(pre, post) && (post.stack@.last() matches Value::Num(o)
                && o.shape@ == seq![crate::array_ops::shape_seq(pre.stack@.last()).len() as usize]
                && o.data@.len() == crate::array_ops::shape_seq(pre.stack@.last()).len() && (
            forall|i: int|
                0 <= i < o.data@.len() ==> o.data@[i] == crate::array_ops::shape_seq(
                    pre.stack@.last(),
                )[i] as i64)),
            Primitive::Range => top1(pre, post) && crate::value::is_scalar_nat(pre.stack@.last())
                && (post.stack@.last() matches Value::Num(o) && o.data@.len()
                == crate::value::scalar_num_of(pre.stack@.last()) && o.shape@ == seq![
                crate::value::scalar_num_of(pre.stack@.last()) as usize,
            ] && (forall|i: int| 0 <= i < o.data@.len() ==> #[trigger] o.data@[i] == i as i64)),
            Primitive::First => top1(pre, post) && (if crate::array_ops::shape_seq(
                pre.stack@.last(),
            ).len() == 0 {
                post.stack@.last() == pre.stack@.last()
            } else {
                crate::array_ops::row_of(post.stack@.last(), pre.stack@.last(), 0)
            }),
            Primitive::Reverse => top1(pre, post) && crate::array_ops::rev_value_rel(
                post.stack@.last(),
                pre.stack@.last(),
            ),
            Primitive::Deshape => top1(pre, post) && match (post.stack@.last(), pre.stack@.last()) {
                (Value::Num(o), Value::Num(a)) => o.shape@ == seq![a.data@.len() as usize]
                    && o.data@ == a.data@,
                (Value::Char(o), Value::Char(a)) => o.shape@ == seq![a.data@.len() as usize]
                    && o.data@ == a.data@,
                _ => false,
            },
            Primitive::Box => top1(pre, post) && (post.stack@.last() matches Value::Box(o)
                && o.shape@ == Seq::<usize>::empty() && o.data@.len() == 1 && *o.data@[0].0
                == pre.stack@.last()),
            Primitive::Fix => top1(pre, post) && match (post.stack@.last(), pre.stack@.last()) {
                (Value::Num(o), Value::Num(a)) => o.shape@ == seq![1usize] + a.shape@ && o.data@
                    == a.data@,
                (Value::Char(o), Value::Char(a)) => o.shape@ == seq![1usize] + a.shape@ && o.data@
                    == a.data@,
                _ => false,
            },
            Primitive::Match => top2(pre, post) && (post.stack@.last() matches Value::Num(o)
                && o.shape@ == Seq::<usize>::empty() && o.data@ == seq![
                if val_match(pre.stack@.last(), pre.stack@[pre.stack@.len() - 2]) {
                    1i64
                } else {
                    0i64
                },
            ]),
            Primitive::Couple => top2(pre, post) && crate::array_ops::coupled(
                post.stack@.last(),
                pre.stack@.last(),
                pre.stack@[pre.stack@.len() - 2],
            ),
            Primitive::Pick => top2(pre, post) && crate::array_ops::row_of(
                post.stack@.last(),
                pre.stack@[pre.stack@.len() - 2],
                crate::value::scalar_num_of(pre.stack@.last()),
            ),
            Primitive::Take => top2(pre, post) && ({
                let n = pre.stack@.last();
                let v = pre.stack@[pre.stack@.len() - 2];
                let c = crate::array_ops::signed_count_of(n);
                if c >= 0 {
                    c <= crate::array_ops::row_count_of(v) && crate::array_ops::row_range_of(
                        post.stack@.last(),
                        v,
                        0,
                        c,
                    )
                } else {
                    -c <= crate::array_ops::row_count_of(v) && crate::array_ops::row_range_of(
                        post.stack@.last(),
                        v,
                        crate::array_ops::row_count_of(v) + c,
                        crate::array_ops::row_count_of(v),
                    )
                }
            }),
            Primitive::Drop => top2(pre, post) && ({
                let n = pre.stack@.last();
                let v = pre.stack@[pre.stack@.len() - 2];
                let c = crate::array_ops::signed_count_of(n);
                let rc = crate::array_ops::row_count_of(v);
                if c >= 0 {
                    crate::array_ops::row_range_of(
                        post.stack@.last(),
                        v,
                        if c <= rc {
                            c
                        } else {
                            rc
                        },
                        rc,
                    )
                } else {
                    crate::array_ops::row_range_of(
                        post.stack@.last(),
                        v,
                        0,
                        if -c <= rc {
                            rc + c
                        } else {
                            0
                        },
                    )
                }
            }),
            Primitive::Reshape => top2(pre, post) && crate::array_ops::reshaped(
                post.stack@.last(),
                pre.stack@.last(),
                pre.stack@[pre.stack@.len() - 2],
            ),
            Primitive::Classify => top1(pre, post) && (match (post.stack@.last(), pre.stack@.last()) {
                (Value::Num(o), Value::Num(a)) => o.shape@ == a.shape@ && o.data@.len()
                    == a.data@.len() && (forall|i: int|
                    0 <= i < a.data@.len() ==> #[trigger] o.data@[i]
                        == crate::array_ops::class_of(a.data@, i) as i64),
                _ => false,
            }),
            Primitive::Deduplicate => top1(pre, post) && (match (
                post.stack@.last(),
                pre.stack@.last(),
            ) {
                (Value::Num(o), Value::Num(a)) => o.data@ == crate::array_ops::firsts(
                    a.data@,
                    a.data@.len() as int,
                ) && o.shape@ == seq![o.data@.len() as usize],
                _ => false,
            }),
            Primitive::Unique => top1(pre, post) && (match (post.stack@.last(), pre.stack@.last()) {
                (Value::Num(o), Value::Num(a)) => o.shape@ == a.shape@ && o.data@.len()
                    == a.data@.len() && (forall|i: int|
                    0 <= i < a.data@.len() ==> #[trigger] o.data@[i] == (if crate::array_ops::firsts(
                        a.data@,
                        i,
                    ).contains(a.data@[i]) {
                        0i64
                    } else {
                        1i64
                    })),
                _ => false,
            }),
            Primitive::Assert => {
                &&& pre.stack@.len() >= 2
                &&& post.stack@ == pre.stack@.drop_last().drop_last()
                &&& same_but_stack(pre, post)
                &&& crate::value::is_scalar_nat(pre.stack@[pre.stack@.len() - 2])
                &&& crate::value::scalar_num_of(pre.stack@[pre.stack@.len() - 2]) == 1
            },
            Primitive::Gen => {
                &&& pre.stack@.len() >= 1
                &&& (pre.stack@.last() matches Value::Num(a) && a.shape@.len() == 0)
                &&& post.stack@.len() == pre.stack@.len() + 1
                &&& post.stack@.take(pre.stack@.len() - 1) == pre.stack@.take(
                    pre.stack@.len() - 1,
                )
                &&& (post.stack@[pre.stack@.len() - 1] matches Value::Num(o) && o.shape@
                    == Seq::<usize>::empty() && o.data@ == seq![
                    crate::rng::gen_val_of(gen_seed_bits(pre.stack@.last())) as i64,
                ])
                &&& (post.stack@.last() matches Value::Num(o) && o.shape@
                    == Seq::<usize>::empty() && o.data@ == seq![
                    crate::rng::gen_seed_of(gen_seed_bits(pre.stack@.last())) as i64,
                ])
                &&& same_but_stack(pre, post)
            },
            Primitive::Tag => {
                &&& post.stack@.len() == pre.stack@.len() + 1
                &&& post.stack@.take(pre.stack@.len() as int) == pre.stack@
                &&& (post.stack@.last() matches Value::Num(o) && o.shape@
                    == Seq::<usize>::empty() && o.data@ == seq![pre.next_tag as i64])
                &&& post.antistack == pre.antistack && post.memo == pre.memo && post.trace_log
                    == pre.trace_log
            },
            Primitive::Type => top1(pre, post) && (post.stack@.last() matches Value::Num(o)
                && o.shape@ == Seq::<usize>::empty() && o.data@ == seq![
                crate::value::type_id_spec(pre.stack@.last()),
            ]),
            Primitive::Deal => {
                &&& pre.stack@.len() >= 2
                &&& post.stack@.len() == pre.stack@.len() - 1
                &&& post.stack@.drop_last() == pre.stack@.drop_last().drop_last()
                &&& same_but_stack(pre, post)
                &&& match (post.stack@.last(), pre.stack@[pre.stack@.len() - 2]) {
                    (Value::Num(o), Value::Num(a)) => o.shape@ == a.shape@ && o.data@.to_multiset()
                        == a.data@.to_multiset(),
                    _ => false,
                }
            },
            Primitive::Now | Primitive::Rand => {
                &&& post.stack@.len() == pre.stack@.len() + 1
                &&& post.stack@.take(pre.stack@.len() as int) == pre.stack@
                &&& (post.stack@.last() matches Value::Num(o) && o.shape@
                    == Seq::<usize>::empty() && o.data@.len() == 1)
                &&& same_but_stack(pre, post)
            },
            _ => true,
        }
    }
}

/// The seed bits a `gen` call derives from the popped scalar.
pub open spec fn gen_seed_bits(v: Value) -> u64 {
    match v {
        Value::Num(a) => a.data@[0] as u64,
        _ => 0,
    }
}

/// The primitives this runtime implements directly.
pub open spec fn is_implemented(p: Primitive) -> bool {
    ||| p == Primitive::Dup
    ||| p == Primitive::Over
    ||| p == Primitive::Flip
    ||| p == Primitive::Pop
    ||| p == Primitive::Identity
    ||| p == Primitive::Save
    ||| p == Primitive::Load
    ||| is_mon_perv(p)
    ||| is_dy_perv(p)
    ||| p == Primitive::Len
    ||| p == Primitive::Shape
    ||| p == Primitive::Range
    ||| p == Primitive::First
    ||| p == Primitive::Reverse
    ||| p == Primitive::Deshape
    ||| p == Primitive::Box
    ||| p == Primitive::Fix
    ||| p == Primitive::Match
    ||| p == Primitive::Couple
    ||| p == Primitive::Pick
    ||| p == Primitive::Reshape
    ||| p == Primitive::Take
    ||| p == Primitive::Drop
    ||| p == Primitive::Classify
    ||| p == Primitive::Deduplicate
    ||| p == Primitive::Unique
    ||| p == Primitive::Assert
    ||| p == Primitive::Gen
    ||| p == Primitive::Deal
    ||| p == Primitive::Tag
    ||| p == Primitive::Type
    ||| p == Primitive::Now
    ||| p == Primitive::Rand
    ||| p == Primitive::Try
    ||| p == Primitive::Memo
    ||| p == Primitive::Repeat
    ||| p == Primitive::Rectify
    ||| p == Primitive::SetInverse
    ||| p == Primitive::SetUnder
}

/// The primitives this runtime refuses: those whose results the integer
/// value model cannot carry (floating point), those that reach the host
/// facade or other tasks, and the structural and function-calling operations
/// it does not implement.
pub open spec fn is_unsupported(p: Primitive) -> bool {
    !is_inlined_only(p) && !is_implemented(p)
}

/// The monadic pervasive operation of a primitive.
fn mon_of_exec(p: Primitive) -> (r: crate::array_ops::MonOp)
    ensures
        r == mon_of(p),
{
    match p {
        Primitive::Not => crate::array_ops::MonOp::Not,
        Primitive::Sign => crate::array_ops::MonOp::Sign,
        Primitive::Neg => crate::array_ops::MonOp::Neg,
        Primitive::Abs => crate::array_ops::MonOp::Abs,
        Primitive::Floor => crate::array_ops::MonOp::Floor,
        Primitive::Ceil => crate::array_ops::MonOp::Ceil,
        _ => crate::array_ops::MonOp::Round,
    }
}

/// The dyadic pervasive operation of a primitive.
fn dy_of_exec(p: Primitive) -> (r: crate::array_ops::DyOp)
    ensures
        r == dy_of(p),
{
    match p {
        Primitive::Add => crate::array_ops::DyOp::Add,
        Primitive::Sub => crate::array_ops::DyOp::Sub,
        Primitive::Mul => crate::array_ops::DyOp::Mul,
        Primitive::Mod => crate::array_ops::DyOp::Modulus,
        Primitive::Min => crate::array_ops::DyOp::Min,
        Primitive::Max => crate::array_ops::DyOp::Max,
        Primitive::Eq => crate::array_ops::DyOp::CmpEq,
        Primitive::Ne => crate::array_ops::DyOp::CmpNe,
        Primitive::Lt => crate::array_ops::DyOp::CmpLt,
        Primitive::Le => crate::array_ops::DyOp::CmpLe,
        Primitive::Gt => crate::array_ops::DyOp::CmpGt,
        _ => crate::array_ops::DyOp::CmpGe,
    }
}


/// When a dispatched primitive owes success: for each implemented primitive,
/// the exact condition on the starting state under which `run` must return
/// `Ok`. Primitives that call a popped function (`try`, `repeat`, the
/// inversion-setting modifiers, and a memoized call that misses the table)
/// cannot owe success unconditionally, since the called function decides.
pub open spec fn run_ok_at(p: Primitive, pre: Uiua) -> bool {
    let s = pre.stack@;
    if is_mon_perv(p) {
        s.len() >= 1 && s.last() is Num
    } else if is_dy_perv(p) {
        s.len() >= 2 && (match (s[s.len() - 2], s.last()) {
            (Value::Num(x), Value::Num(y)) => crate::array_ops::dy_shapes_ok(x, y)
                && !crate::array_ops::dy_has_undef(dy_of(p), x, y),
            _ => false,
        })
    } else {
        match p {
            Primitive::Dup => s.len() >= 1,
            Primitive::Pop => s.len() >= 1,
            Primitive::Identity => s.len() >= 1,
            Primitive::Save => s.len() >= 1,
            Primitive::Len => s.len() >= 1,
            Primitive::Shape => s.len() >= 1,
            Primitive::Box => s.len() >= 1,
            Primitive::Type => s.len() >= 1,
            Primitive::Over => s.len() >= 2,
            Primitive::Flip => s.len() >= 2,
            Primitive::Match => s.len() >= 2,
            Primitive::Load => pre.antistack@.len() >= 1,
            Primitive::Range => s.len() >= 1 && crate::value::is_scalar_nat(s.last())
                && crate::value::scalar_num_of(s.last()) <= usize::MAX as int,
            Primitive::First => s.len() >= 1 && (s.last() is Num || s.last() is Char) && (
            crate::array_ops::shape_seq(s.last()).len() == 0 || crate::array_ops::row_count_of(
                s.last(),
            ) > 0),
            Primitive::Reverse => s.len() >= 1 && (s.last() is Num || s.last() is Char),
            Primitive::Deshape => s.len() >= 1 && (s.last() is Num || s.last() is Char),
            Primitive::Fix => s.len() >= 1 && (s.last() is Num || s.last() is Char)
                && crate::array_ops::shape_seq(s.last()).len() + 1 <= crate::value::max_dim(),
            Primitive::Couple => s.len() >= 2 && (match (s[s.len() - 2], s.last()) {
                (Value::Num(x), Value::Num(y)) => y.shape@ == x.shape@ && y.data@.len()
                    <= 0x3fff_ffff_ffff_ffff && y.shape@.len() + 1 <= crate::value::max_dim(),
                (Value::Char(x), Value::Char(y)) => y.shape@ == x.shape@ && y.data@.len()
                    <= 0x3fff_ffff_ffff_ffff && y.shape@.len() + 1 <= crate::value::max_dim(),
                _ => false,
            }),
            Primitive::Pick => s.len() >= 2 && crate::value::is_scalar_nat(s.last())
                && crate::value::scalar_num_of(s.last()) <= usize::MAX as int && (s[s.len() - 2]
                is Num || s[s.len() - 2] is Char) && crate::array_ops::shape_seq(
                s[s.len() - 2],
            ).len() > 0 && crate::value::scalar_num_of(s.last()) < crate::array_ops::row_count_of(
                s[s.len() - 2],
            ),
            Primitive::Take => s.len() >= 2 && crate::array_ops::is_scalar_num(s.last()) && (
            s[s.len() - 2] is Num || s[s.len() - 2] is Char) && crate::array_ops::shape_seq(
                s[s.len() - 2],
            ).len() > 0 && crate::array_ops::signed_count_of(s.last())
                <= crate::array_ops::row_count_of(s[s.len() - 2]) && -crate::array_ops::signed_count_of(
                s.last(),
            ) <= crate::array_ops::row_count_of(s[s.len() - 2]),
            Primitive::Drop => s.len() >= 2 && crate::array_ops::is_scalar_num(s.last()) && (
            s[s.len() - 2] is Num || s[s.len() - 2] is Char) && crate::array_ops::shape_seq(
                s[s.len() - 2],
            ).len() > 0,
            Primitive::Reshape => s.len() >= 2 && crate::array_ops::reshape_welltyped(s.last())
                && (match (s.last(), s[s.len() - 2]) {
                (Value::Num(d), Value::Num(a)) => crate::array_ops::reshape_fits(d.data@, 0, 1) && (
                a.data@.len() > 0 || crate::array_ops::reshape_count(d.data@, 0, 1) == 0),
                _ => false,
            }),
            Primitive::Classify => s.len() >= 1 && (s.last() matches Value::Num(a) && a.shape@.len()
                == 1),
            Primitive::Deduplicate => s.len() >= 1 && (s.last() matches Value::Num(a)
                && a.shape@.len() == 1),
            Primitive::Unique => s.len() >= 1 && (s.last() matches Value::Num(a) && a.shape@.len()
                == 1),
            Primitive::Assert => s.len() >= 2 && crate::value::is_scalar_nat(s[s.len() - 2])
                && crate::value::scalar_num_of(s[s.len() - 2]) == 1,
            Primitive::Gen => s.len() >= 1 && (s.last() matches Value::Num(a) && a.shape@.len()
                == 0),
            Primitive::Deal => s.len() >= 2 && (s.last() matches Value::Num(sd) && sd.shape@.len()
                == 0) && (s[s.len() - 2] matches Value::Num(a) && a.shape@.len() == 1),
            Primitive::Tag => true,
            Primitive::Now => true,
            Primitive::Rand => true,
            Primitive::Memo => s.len() >= 1 && (match s.last() {
                Value::Func(f) => s.len() >= 1 + f.sig.args && memo_find(
                    pre.memo@,
                    f.id,
                    s.subrange(s.len() - 1 - f.sig.args, s.len() - 1),
                    0,
                ) is Some,
                _ => false,
            }),
            _ => false,
        }
    }
}

/// The entry protocol of `try`: a malformed starting state is refused with
/// exactly the stated error, before any call is made. Success past this
/// point rests with the body and the handler.
pub open spec fn try_pop_errors(pre: Uiua, r: Result<(), UiuaError>) -> bool {
    let s = pre.stack@;
    &&& s.len() == 0 ==> r == Err::<(), UiuaError>(UiuaError::StackUnderflow)
    &&& s.len() >= 1 && !(s.last() is Func) ==> r == Err::<(), UiuaError>(UiuaError::TypeMismatch)
    &&& s.len() >= 2 && s.last() is Func && !(s[s.len() - 2] is Func) ==> r == Err::<
        (),
        UiuaError,
    >(UiuaError::TypeMismatch)
    &&& (match (s.len() >= 2, s.last()) {
        (true, Value::Func(f)) => s[s.len() - 2] is Func && s.len() - 2 < f.sig.args,
        _ => false,
    }) ==> r == Err::<(), UiuaError>(UiuaError::StackUnderflow)
}

/// When a dispatched internal primitive owes success.
pub open spec fn run_impl_ok_at(p: crate::impl_prim::ImplPrimitive, pre: Uiua) -> bool {
    let s = pre.stack@;
    match p {
        crate::impl_prim::ImplPrimitive::InvBox => s.len() >= 1,
        crate::impl_prim::ImplPrimitive::InvCouple => s.len() >= 1 && (match s.last() {
            Value::Num(x) => x.shape@.len() > 0 && x.shape@[0] == 2,
            Value::Char(x) => x.shape@.len() > 0 && x.shape@[0] == 2,
            _ => false,
        }),
        crate::impl_prim::ImplPrimitive::Last => s.len() >= 1 && (s.last() is Num || s.last()
            is Char) && (crate::array_ops::shape_seq(s.last()).len() == 0
            || crate::array_ops::row_count_of(s.last()) > 0),
        _ => false,
    }
}

impl Primitive {
    /// Execute the primitive against the runtime. A successful run moves the
    /// stack by exactly the declared signature and leaves the state related
    /// to the old one as `run_post` says; success is owed whenever
    /// `run_ok_at` holds of the starting state; a memoized call keeps the
    /// purity contract `memo_post`; a modifier the compiler must inline is
    /// refused as an internal invariant violation, and an operation outside
    /// this model is refused as unsupported. The catch step of `try` carries
    /// its restoration contract on `Uiua::try_body`.
    pub fn run(&self, env: &mut Uiua, fuel: u64) -> (r: Result<(), UiuaError>)
        requires
            env_wf(*old(env)),
        ensures
            env_wf(*final(env)),
            r matches Ok(v) ==> prim_sig_ok(*self, old(env).stack@.len() as int, final(env).stack@.len() as int),
            r matches Ok(v) ==> run_post(*self, *old(env), *final(env)),
            run_ok_at(*self, *old(env)) ==> r is Ok,
            r is Ok && *self == Primitive::Memo && old(env).stack@.len() > 0 ==> match old(
                env,
            ).stack@.last() {
                Value::Func(f) => old(env).stack@.len() >= 1 + f.sig.args ==> memo_post(
                    *old(env),
                    *final(env),
                    f.id,
                    f.sig.args as int,
                    f.sig.outputs as int,
                ),
                _ => true,
            },
            *self == Primitive::Try ==> try_pop_errors(*old(env), r),
            is_inlined_only(*self) ==> r == Err::<(), UiuaError>(UiuaError::NotInlined(*self))
                && *final(env) == *old(env),
            is_unsupported(*self) ==> r == Err::<(), UiuaError>(UiuaError::Unsupported(*self))
                && *final(env) == *old(env),
            r matches Err(e) ==> error_wf(e),
        decreases fuel, 5int,
    {
        let p = *self;
        match p {
            Primitive::Dup => {
                let x = env.pop()?;
                let c = clone_value(&x);
                proof {
                    lemma_sim_to_wf(c, x);
                }
                env.push(c);
                env.push(x);
                proof {
                    assert(final(env).stack@.take(old(env).stack@.len() - 1) =~= old(
                        env,
                    ).stack@.take(old(env).stack@.len() - 1));
                }
                Ok(())
            },
            Primitive::Over => {
                let a = env.pop()?;
                let b = env.pop()?;
                let c = clone_value(&b);
                proof {
                    lemma_sim_to_wf(c, b);
                }
                env.push(c);
                env.push(a);
                env.push(b);
                proof {
                    assert(final(env).stack@.take(old(env).stack@.len() - 2) =~= old(
                        env,
                    ).stack@.take(old(env).stack@.len() - 2));
                }
                Ok(())
            },
            Primitive::Flip => {
                let a = env.pop()?;
                let b = env.pop()?;
                env.push(a);
                env.push(b);
                proof {
                    assert(final(env).stack@ =~= old(env).stack@.update(
                        old(env).stack@.len() - 2,
                        old(env).stack@.last(),
                    ).update(old(env).stack@.len() - 1, old(env).stack@[old(env).stack@.len() - 2]));
                }
                Ok(())
            },
            Primitive::Pop => {
                let _ = env.pop()?;
                Ok(())
            },
            Primitive::Identity => {
                if env.stack_size() == 0 {
                    return Err(UiuaError::StackUnderflow);
                }
                Ok(())
            },
            Primitive::Save => {
                let x = env.pop()?;
                env.antipush(x);
                Ok(())
            },
            Primitive::Load => {
                let x = env.antipop()?;
                env.push(x);
                Ok(())
            },
            Primitive::Not | Primitive::Sign | Primitive::Neg | Primitive::Abs | Primitive::Floor
                | Primitive::Ceil | Primitive::Round => {
                let v = env.pop()?;
                match crate::array_ops::pervasive_mon(mon_of_exec(p), v) {
                    Ok(out) => {
                        env.push(out);
                        Ok(())
                    },
                    Err(e) => Err(e),
                }
            },
            Primitive::Add | Primitive::Sub | Primitive::Mul | Primitive::Mod | Primitive::Min
                | Primitive::Max | Primitive::Eq | Primitive::Ne | Primitive::Lt | Primitive::Le
                | Primitive::Gt | Primitive::Ge => {
                let a = env.pop()?;
                let b = env.pop()?;
                match crate::array_ops::pervasive_dy(dy_of_exec(p), b, a) {
                    Ok(out) => {
                        env.push(out);
                        Ok(())
                    },
                    Err(e) => Err(e),
                }
            },
            Primitive::Len => {
                let v = env.pop()?;
                let out = crate::array_ops::length_of(&v);
                env.push(out);
                Ok(())
            },
            Primitive::Shape => {
                let v = env.pop()?;
                let out = crate::array_ops::shape_of(&v);
                env.push(out);
                Ok(())
            },
            Primitive::Range => {
                let v = env.pop()?;
                match crate::array_ops::range(&v) {
                    Ok(out) => {
                        env.push(out);
                        Ok(())
                    },
                    Err(e) => Err(e),
                }
            },
            Primitive::First => {
                let v = env.pop()?;
                match crate::array_ops::first(v) {
                    Ok(out) => {
                        env.push(out);
                        Ok(())
                    },
                    Err(e) => Err(e),
                }
            },
            Primitive::Reverse => {
                let v = env.pop()?;
                match crate::array_ops::reverse(v) {
                    Ok(out) => {
                        env.push(out);
                        Ok(())
                    },
                    Err(e) => Err(e),
                }
            },
            Primitive::Deshape => {
                let v = env.pop()?;
                match crate::array_ops::deshape(v) {
                    Ok(out) => {
                        env.push(out);
                        Ok(())
                    },
                    Err(e) => Err(e),
                }
            },
            Primitive::Box => {
                let v = env.pop()?;
                let out = crate::array_ops::box_val(v);
                env.push(out);
                Ok(())
            },
            Primitive::Fix => {
                let v = env.pop()?;
                match crate::array_ops::fix(v) {
                    Ok(out) => {
                        env.push(out);
                        Ok(())
                    },
                    Err(e) => Err(e),
                }
            },
            Primitive::Match => {
                let a = env.pop()?;
                let b = env.pop()?;
                let out = crate::array_ops::match_values(&a, &b);
                env.push(out);
                Ok(())
            },
            Primitive::Couple => {
                let a = env.pop()?;
                let b = env.pop()?;
                match crate::array_ops::couple(a, b) {
                    Ok(out) => {
                        env.push(out);
                        Ok(())
                    },
                    Err(e) => Err(e),
                }
            },
            Primitive::Pick => {
                let idx = env.pop()?;
                let v = env.pop()?;
                match crate::array_ops::pick(&idx, &v) {
                    Ok(out) => {
                        env.push(out);
                        Ok(())
                    },
                    Err(e) => Err(e),
                }
            },
            Primitive::Take => {
                let n = env.pop()?;
                let v = env.pop()?;
                match crate::array_ops::take(&n, &v) {
                    Ok(out) => {
                        env.push(out);
                        Ok(())
                    },
                    Err(e) => Err(e),
                }
            },
            Primitive::Drop => {
                let n = env.pop()?;
                let v = env.pop()?;
                match crate::array_ops::drop_rows(&n, &v) {
                    Ok(out) => {
                        env.push(out);
                        Ok(())
                    },
                    Err(e) => Err(e),
                }
            },
            Primitive::Reshape => {
                let dims = env.pop()?;
                let v = env.pop()?;
                match crate::array_ops::reshape(&dims, v) {
                    Ok(out) => {
                        env.push(out);
                        Ok(())
                    },
                    Err(e) => Err(e),
                }
            },
            Primitive::Classify => {
                let v = env.pop()?;
                match crate::array_ops::classify(&v) {
                    Ok(out) => {
                        env.push(out);
                        Ok(())
                    },
                    Err(e) => Err(e),
                }
            },
            Primitive::Deduplicate => {
                let v = env.pop()?;
                match crate::array_ops::deduplicate(&v) {
                    Ok(out) => {
                        env.push(out);
                        Ok(())
                    },
                    Err(e) => Err(e),
                }
            },
            Primitive::Unique => {
                let v = env.pop()?;
                match crate::array_ops::unique(&v) {
                    Ok(out) => {
                        env.push(out);
                        Ok(())
                    },
                    Err(e) => Err(e),
                }
            },
            Primitive::Assert => {
                let msg = env.pop()?;
                let cond = env.pop()?;
                let ok = match cond.as_nat() {
                    Some(1) => true,
                    _ => false,
                };
                if ok {
                    Ok(())
                } else {
                    Err(UiuaError::Throw(Box::new(msg), env.span))
                }
            },
            Primitive::Gen => {
                let seed = env.pop()?;
                let bits = match &seed {
                    Value::Num(a) => {
                        if a.shape.len() == 0 {
                            a.data[0] as u64
                        } else {
                            return Err(UiuaError::TypeMismatch);
                        }
                    },
                    _ => {
                        return Err(UiuaError::TypeMismatch);
                    },
                };
                let (val, next) = crate::rng::gen_pair(bits);
                env.push(Value::num_scalar(val as i64));
                env.push(Value::num_scalar(next as i64));
                proof {
                    assert(final(env).stack@.take(old(env).stack@.len() - 1) =~= old(
                        env,
                    ).stack@.take(old(env).stack@.len() - 1));
                }
                Ok(())
            },
            Primitive::Tag => {
                let t = env.next_tag;
                env.push_tagged(t)
            },
            Primitive::Type => {
                let v = env.pop()?;
                let out = Value::num_scalar(v.type_id());
                env.push(out);
                Ok(())
            },
            Primitive::Now => {
                let ms = crate::rng::now_millis();
                env.push(Value::num_scalar(ms as i64));
                proof {
                    assert(final(env).stack@.take(old(env).stack@.len() as int) =~= old(
                        env,
                    ).stack@);
                }
                Ok(())
            },
            Primitive::Rand => {
                let fallback = crate::rng::now_millis();
                let bits = crate::rng::random_bits(fallback);
                env.push(Value::num_scalar(bits as i64));
                proof {
                    assert(final(env).stack@.take(old(env).stack@.len() as int) =~= old(
                        env,
                    ).stack@);
                }
                Ok(())
            },
            Primitive::Deal => {
                env.run_deal()
            },
            Primitive::Try => env.run_try(fuel),
            Primitive::Memo => env.run_memo(fuel),
            Primitive::Repeat => env.run_repeat(fuel),
            Primitive::Rectify => {
                let f = env.pop_function()?;
                env.call_function(&f, fuel)
            },
            Primitive::SetInverse => {
                let f = env.pop_function()?;
                let _inv = env.pop_function()?;
                env.call_function(&f, fuel)
            },
            Primitive::SetUnder => {
                let f = env.pop_function()?;
                let _before = env.pop_function()?;
                let _after = env.pop_function()?;
                env.call_function(&f, fuel)
            },
            Primitive::Dip | Primitive::Gap | Primitive::Un | Primitive::Under | Primitive::Bind
                | Primitive::Both | Primitive::Fork | Primitive::Cascade | Primitive::Bracket
                | Primitive::Comptime => Err(UiuaError::NotInlined(p)),
            _ => Err(UiuaError::Unsupported(p)),
        }
    }
}

impl Uiua {
    /// Push the current tag and advance the counter.
    pub fn push_tagged(&mut self, t: u64) -> (r: Result<(), UiuaError>)
        requires
            env_wf(*old(self)),
            t == old(self).next_tag,
        ensures
            env_wf(*final(self)),
            r is Ok,
            final(self).stack@.len() == old(self).stack@.len() + 1,
            final(self).stack@.take(old(self).stack@.len() as int) == old(self).stack@,
            final(self).stack@.last() matches Value::Num(o) && o.shape@ == Seq::<usize>::empty()
                && o.data@ == seq![old(self).next_tag as i64],
            final(self).antistack == old(self).antistack,
            final(self).memo == old(self).memo,
            final(self).trace_log == old(self).trace_log,
            final(self).span == old(self).span,
            old(self).next_tag < u64::MAX ==> final(self).next_tag == old(self).next_tag + 1,
    {
        let v = Value::num_scalar(t as i64);
        self.stack.push(v);
        if self.next_tag < u64::MAX {
            self.next_tag = self.next_tag + 1;
        } else {
            self.next_tag = 0;
        }
        proof {
            assert(self.stack@.take(old(self).stack@.len() as int) =~= old(self).stack@);
        }
        Ok(())
    }

    /// Shuffle the elements of a rank-one number array with an explicit seed:
    /// whatever order the seed gives, the same elements come back.
    pub fn run_deal(&mut self) -> (r: Result<(), UiuaError>)
        requires
            env_wf(*old(self)),
        ensures
            env_wf(*final(self)),
            run_ok_at(Primitive::Deal, *old(self)) ==> r is Ok,
            r is Ok ==> {
                &&& old(self).stack@.len() >= 2
                &&& final(self).stack@.len() == old(self).stack@.len() - 1
                &&& final(self).stack@.drop_last() == old(self).stack@.drop_last().drop_last()
                &&& same_but_stack(*old(self), *final(self))
                &&& match (final(self).stack@.last(), old(self).stack@[old(self).stack@.len() - 2]) {
                    (Value::Num(o), Value::Num(a)) => o.shape@ == a.shape@ && o.data@.to_multiset()
                        == a.data@.to_multiset(),
                    _ => false,
                }
            },
            r matches Err(e) ==> error_wf(e),
    {
        let seed = self.pop()?;
        let bits = match &seed {
            Value::Num(a) => {
                if a.shape.len() == 0 {
                    a.data[0] as u64
                } else {
                    return Err(UiuaError::TypeMismatch);
                }
            },
            _ => {
                return Err(UiuaError::TypeMismatch);
            },
        };
        let arr = self.pop()?;
        match arr {
            Value::Num(a) => {
                if a.shape.len() != 1 {
                    return Err(UiuaError::TypeMismatch);
                }
                let data = crate::rng::shuffle_seeded(bits, a.data);
                let out = crate::value::Array { shape: a.shape, data };
                proof {
                    vstd::seq_lib::to_multiset_len(a.data@);
                    vstd::seq_lib::to_multiset_len(data@);
                }
                self.push(Value::Num(out));
                Ok(())
            },
            _ => Err(UiuaError::TypeMismatch),
        }
    }

    /// Clone the top `n` values of the stack, bottom first.
    #[verifier::loop_isolation(false)]
    pub fn clone_stack_top(&self, n: usize) -> (r: Vec<Value>)
        requires
            env_wf(*self),
            n <= self.stack@.len(),
        ensures
            r@.len() == n,
            all_wf(r@),
            forall|i: int|
                0 <= i < n ==> val_sim(#[trigger] r@[i], self.stack@[self.stack@.len() - n + i]),
    {
        let base = self.stack.len() - n;
        let mut out: Vec<Value> = Vec::new();
        for i in 0..n
            invariant
                base == self.stack@.len() - n,
                n <= self.stack@.len(),
                env_wf(*self),
                out@.len() == i,
                forall|j: int|
                    0 <= j < i ==> val_sim(#[trigger] out@[j], self.stack@[base + j]) && value_wf(
                        out@[j],
                    ),
        {
            let c = clone_value(&self.stack[base + i]);
            proof {
                lemma_sim_to_wf(c, self.stack@[base + i]);
            }
            out.push(c);
        }
        out
    }

    /// The final stack, top first, for the host; the runtime is emptied.
    #[verifier::loop_isolation(false)]
    pub fn take_stack(&mut self) -> (r: Vec<Value>)
        requires
            env_wf(*old(self)),
        ensures
            env_wf(*final(self)),
            r@.len() == old(self).stack@.len(),
            forall|i: int|
                0 <= i < r@.len() ==> #[trigger] r@[i] == old(self).stack@[old(
                    self,
                ).stack@.len() - 1 - i],
            final(self).stack@.len() == 0,
            same_but_stack(*old(self), *final(self)),
    {
        let mut out: Vec<Value> = Vec::new();
        while self.stack.len() > 0
            invariant
                env_wf(*self),
                same_but_stack(*old(self), *self),
                self.span == old(self).span,
                out@.len() + self.stack@.len() == old(self).stack@.len(),
                self.stack@ == old(self).stack@.take(self.stack@.len() as int),
                forall|i: int|
                    0 <= i < out@.len() ==> #[trigger] out@[i] == old(self).stack@[old(
                        self,
                    ).stack@.len() - 1 - i],
            decreases self.stack@.len(),
        {
            match self.stack.pop() {
                Some(v) => {
                    proof {
                        assert(self.stack@ =~= old(self).stack@.take(self.stack@.len() as int));
                    }
                    out.push(v);
                },
                None => {
                    break;
                },
            }
        }
        out
    }
}

/// Each value of a well-formed sequence matches itself.
pub proof fn lemma_val_match_refl(a: Value)
    ensures
        val_match(a, a),
    decreases a,
{
    match a {
        Value::Box(x) => {
            lemma_boxed_match_refl(x.data@);
        },
        _ => {},
    }
}

/// Pointwise reflexivity of box matching.
proof fn lemma_boxed_match_refl(x: Seq<crate::value::Boxed>)
    ensures
        crate::value::boxed_match(x, x),
    decreases x, x.len(),
{
    if x.len() > 0 {
        lemma_val_match_refl(*x[0].0);
        lemma_boxed_match_refl(x.drop_first());
    }
}

/// Every position of a well-formed instruction sequence is well-formed.
pub proof fn lemma_instrs_wf_index(s: Seq<Instr>, i: int)
    requires
        instrs_wf(s),
        0 <= i < s.len(),
    ensures
        crate::value::instr_wf(s[i]),
    decreases i,
{
    if i > 0 {
        assert(s.drop_first()[i - 1] == s[i]);
        lemma_instrs_wf_index(s.drop_first(), i - 1);
    }
}

/// Whether every instruction of a sequence is a literal push.
pub open spec fn all_pushes(s: Seq<Instr>) -> bool {
    forall|i: int| 0 <= i < s.len() ==> (#[trigger] s[i]) is Push
}

/// What a sequence of literal pushes does: copies of the pushed values are
/// appended in order, and nothing else of the state changes.
pub open spec fn pushes_effect(s: Seq<Instr>, pre: Uiua, post: Uiua) -> bool {
    &&& post.stack@.len() == pre.stack@.len() + s.len()
    &&& post.stack@.take(pre.stack@.len() as int) == pre.stack@
    &&& forall|k: int|
        0 <= k < s.len() ==> val_sim(#[trigger] post.stack@[pre.stack@.len() + k], s[k]->Push_0)
    &&& same_but_stack(pre, post)
    &&& post.span == pre.span
}

/// Clone a vector of values, each copy deeply identical to its original.
#[verifier::loop_isolation(false)]
pub fn clone_values(v: &Vec<Value>) -> (r: Vec<Value>)
    requires
        all_wf(v@),
    ensures
        r@.len() == v@.len(),
        all_wf(r@),
        forall|i: int| 0 <= i < v@.len() ==> val_sim(#[trigger] r@[i], v@[i]),
{
    let mut out: Vec<Value> = Vec::new();
    for i in 0..v.len()
        invariant
            all_wf(v@),
            out@.len() == i,
            all_wf(out@),
            forall|j: int| 0 <= j < i ==> val_sim(#[trigger] out@[j], v@[j]),
    {
        let c = clone_value(&v[i]);
        proof {
            lemma_sim_to_wf(c, v@[i as int]);
        }
        out.push(c);
    }
    out
}

impl Uiua {
    /// Append a vector of well-formed values on top of the stack.
    fn append_stack(&mut self, vals: Vec<Value>)
        requires
            env_wf(*old(self)),
            all_wf(vals@),
        ensures
            env_wf(*final(self)),
            final(self).stack@ == old(self).stack@ + vals@,
            same_but_stack(*old(self), *final(self)),
            final(self).span == old(self).span,
    {
        let mut vals = vals;
        self.stack.append(&mut vals);
    }

    /// Drive a function's instructions; one unit of the budget pays for the
    /// call frame. An empty function or one of literal pushes alone always
    /// succeeds when the budget is not spent, with exactly the pushes'
    /// effect.
    pub fn call_function(&mut self, f: &Function, fuel: u64) -> (r: Result<(), UiuaError>)
        requires
            env_wf(*old(self)),
            instrs_wf(f.instrs@),
        ensures
            env_wf(*final(self)),
            r matches Err(e) ==> error_wf(e),
            fuel == 0 ==> r == Err::<(), UiuaError>(UiuaError::OutOfFuel) && *final(self) == *old(
                self,
            ),
            fuel > 0 && all_pushes(f.instrs@) ==> r is Ok && pushes_effect(
                f.instrs@,
                *old(self),
                *final(self),
            ),
        decreases fuel, 2int,
    {
        if fuel == 0 {
            return Err(UiuaError::OutOfFuel);
        }
        self.exec_instrs(&f.instrs, fuel - 1)
    }

    /// Drive a flat instruction sequence: push literals, set spans, run
    /// primitives, and call popped functions. An empty sequence does nothing;
    /// a sequence of literal pushes alone always succeeds and appends copies
    /// of the pushed values in order, touching nothing else.
    #[verifier::loop_isolation(false)]
    pub fn exec_instrs(&mut self, instrs: &Vec<Instr>, fuel: u64) -> (r: Result<(), UiuaError>)
        requires
            env_wf(*old(self)),
            instrs_wf(instrs@),
        ensures
            env_wf(*final(self)),
            r matches Err(e) ==> error_wf(e),
            instrs@.len() == 0 ==> r is Ok && *final(self) == *old(self),
            all_pushes(instrs@) ==> r is Ok && pushes_effect(instrs@, *old(self), *final(self)),
        decreases fuel, 6int,
    {
        let mut pc: usize = 0;
        proof {
            assert(instrs@.take(0int) =~= Seq::<Instr>::empty());
            assert(self.stack@.take(old(self).stack@.len() as int) =~= old(self).stack@);
        }
        while pc < instrs.len()
            invariant
                env_wf(*self),
                instrs_wf(instrs@),
                pc <= instrs@.len(),
                pc == 0 ==> *self == *old(self),
                all_pushes(instrs@) ==> pushes_effect(instrs@.take(pc as int), *old(self), *self),
            decreases instrs@.len() - pc,
        {
            proof {
                lemma_instrs_wf_index(instrs@, pc as int);
            }
            match &instrs[pc] {
                Instr::Push(v) => {
                    let ghost prev = *self;
                    let c = clone_value(v);
                    proof {
                        lemma_sim_to_wf(c, instrs@[pc as int]->Push_0);
                    }
                    self.push(c);
                    proof {
                        if all_pushes(instrs@) {
                            let base = old(self).stack@.len() as int;
                            assert(instrs@.take(pc as int).push(instrs@[pc as int]) =~= instrs@
                                .take(pc + 1int));
                            assert(self.stack@.take(base) =~= prev.stack@.take(base));
                            assert forall|k: int| 0 <= k < pc + 1 implies val_sim(
                                #[trigger] self.stack@[base + k],
                                instrs@.take(pc + 1int)[k]->Push_0,
                            ) by {
                                if k < pc {
                                    assert(self.stack@[base + k] == prev.stack@[base + k]);
                                    assert(instrs@.take(pc + 1int)[k] == instrs@.take(
                                        pc as int,
                                    )[k]);
                                } else {
                                    assert(self.stack@[base + k] == c);
                                }
                            }
                            assert(pushes_effect(instrs@.take(pc + 1int), *old(self), *self));
                        }
                    }
                },
                Instr::Prim(p, sp) => {
                    self.span = *sp;
                    let pp = *p;
                    match pp.run(self, fuel) {
                        Ok(()) => {},
                        Err(e) => {
                            return Err(e);
                        },
                    }
                },
                Instr::ImplPrim(p, sp) => {
                    self.span = *sp;
                    let pp = *p;
                    match pp.run(self, fuel) {
                        Ok(()) => {},
                        Err(e) => {
                            return Err(e);
                        },
                    }
                },
                Instr::Call(sp) => {
                    self.span = *sp;
                    let f = match self.pop_function() {
                        Ok(f) => f,
                        Err(e) => {
                            return Err(e);
                        },
                    };
                    match self.call_function(&f, fuel) {
                        Ok(()) => {},
                        Err(e) => {
                            return Err(e);
                        },
                    }
                },
            }
            pc += 1;
        }
        proof {
            assert(instrs@.take(instrs@.len() as int) =~= instrs@);
        }
        Ok(())
    }

    /// Run the body of `try` against its arguments on an isolated stack. On
    /// failure, the stack and the anti-stack are restored to exactly their
    /// pre-call lengths and contents, the arguments standing as identical
    /// copies — try atomicity — and the error is handed back as a value for
    /// the caller to give the handler.
    pub fn try_body(&mut self, f: &Function, nargs: usize, backup: Vec<Value>, fuel: u64) -> (r:
        Result<Option<Value>, UiuaError>)
        requires
            env_wf(*old(self)),
            instrs_wf(f.instrs@),
            nargs <= old(self).stack@.len(),
            backup@.len() == nargs,
            all_wf(backup@),
            forall|i: int|
                0 <= i < nargs ==> val_sim(
                    #[trigger] backup@[i],
                    old(self).stack@[old(self).stack@.len() - nargs + i],
                ),
        ensures
            env_wf(*final(self)),
            r matches Ok(m) ==> m is None || {
                &&& value_wf(m->0)
                &&& final(self).stack@.len() == old(self).stack@.len()
                &&& final(self).stack@.take(old(self).stack@.len() - nargs) == old(
                    self,
                ).stack@.take(old(self).stack@.len() - nargs)
                &&& forall|i: int|
                    0 <= i < nargs ==> val_sim(
                        #[trigger] final(self).stack@[old(self).stack@.len() - nargs + i],
                        old(self).stack@[old(self).stack@.len() - nargs + i],
                    )
                &&& final(self).antistack@ == old(self).antistack@
            },
            r matches Ok(m) ==> m is Some || {
                &&& final(self).stack@.len() >= old(self).stack@.len() - nargs
                &&& final(self).stack@.take(old(self).stack@.len() - nargs) == old(
                    self,
                ).stack@.take(old(self).stack@.len() - nargs)
                &&& final(self).antistack@.take(old(self).antistack@.len() as int) == old(
                    self,
                ).antistack@
            },
            r matches Err(e) ==> error_wf(e),
        decreases fuel, 3int,
    {
        let split_at = self.stack.len() - nargs;
        let args = self.stack.split_off(split_at);
        let base = self.stack.split_off(0);
        self.stack = args;
        let saved_anti = self.antistack.split_off(0);
        proof {
            assert(all_wf(self.stack@));
            assert(all_wf(base@));
            assert(all_wf(saved_anti@));
        }
        let res = self.call_function(f, fuel);
        match res {
            Ok(()) => {
                let body_stack = self.stack.split_off(0);
                let body_anti = self.antistack.split_off(0);
                self.stack = base;
                self.antistack = saved_anti;
                self.append_stack(body_stack);
                let mut body_anti = body_anti;
                self.antistack.append(&mut body_anti);
                proof {
                    assert(final(self).stack@.take(old(self).stack@.len() - nargs) =~= old(
                        self,
                    ).stack@.take(old(self).stack@.len() - nargs));
                    assert(final(self).antistack@.take(old(self).antistack@.len() as int) =~= old(
                        self,
                    ).antistack@);
                }
                Ok(None)
            },
            Err(e) => {
                if let UiuaError::OutOfFuel = e {
                    self.stack = base;
                    self.antistack = saved_anti;
                    return Err(UiuaError::OutOfFuel);
                }
                self.stack = base;
                self.antistack = saved_anti;
                self.append_stack(backup);
                let msg = e.message();
                proof {
                    assert(final(self).stack@.take(old(self).stack@.len() - nargs) =~= old(
                        self,
                    ).stack@.take(old(self).stack@.len() - nargs));
                }
                Ok(Some(msg))
            },
        }
    }

    /// Call a function, catching its failure: on success the body's results
    /// stand; on failure the stacks are restored — try atomicity, the
    /// contract of `try_body` — the error message is pushed, copies of the
    /// original arguments are pushed back on top of it, and the handler is
    /// called. A malformed entry state is refused exactly as stated below;
    /// any other error comes from the body past the catch (the budget) or
    /// from the handler itself.
    pub fn run_try(&mut self, fuel: u64) -> (r: Result<(), UiuaError>)
        requires
            env_wf(*old(self)),
        ensures
            env_wf(*final(self)),
            r matches Err(e) ==> error_wf(e),
            try_pop_errors(*old(self), r),
        decreases fuel, 4int,
    {
        let f = self.pop_function()?;
        let handler = self.pop_function()?;
        let nargs = f.sig.args;
        if self.stack.len() < nargs {
            return Err(UiuaError::StackUnderflow);
        }
        let backup = self.clone_stack_top(nargs);
        match self.try_body(&f, nargs, backup, fuel) {
            Err(e) => Err(e),
            Ok(None) => Ok(()),
            Ok(Some(msg)) => {
                let split_at = self.stack.len() - nargs;
                let args = self.stack.split_off(split_at);
                proof {
                    assert(all_wf(args@));
                }
                self.push(msg);
                self.append_stack(args);
                self.call_function(&handler, fuel)
            },
        }
    }

    /// The position of the first memo entry answering a call, if any.
    #[verifier::loop_isolation(false)]
    fn memo_lookup(&self, id: &FunctionId, args: &Vec<Value>) -> (r: Option<usize>)
        ensures
            match r {
                Some(k) => k < self.memo@.len() && memo_find(self.memo@, *id, args@, 0) == Some(
                    k as int,
                ),
                None => memo_find(self.memo@, *id, args@, 0) is None,
            },
    {
        let mut i: usize = 0;
        while i < self.memo.len()
            invariant
                i <= self.memo@.len(),
                memo_find(self.memo@, *id, args@, 0) == memo_find(self.memo@, *id, args@, i as int),
            decreases self.memo@.len() - i,
        {
            if entry_hits(&self.memo[i], id, args) {
                return Some(i);
            }
            i += 1;
        }
        None
    }

    /// Memoize a call: pop the function and its arguments; a cached call is
    /// answered from the table with copies of the first call's outputs and no
    /// other effect — memo purity — and a fresh call runs once and is
    /// recorded.
    pub fn run_memo(&mut self, fuel: u64) -> (r: Result<(), UiuaError>)
        requires
            env_wf(*old(self)),
        ensures
            env_wf(*final(self)),
            r matches Err(e) ==> error_wf(e),
            run_ok_at(Primitive::Memo, *old(self)) ==> r is Ok,
            r is Ok && old(self).stack@.len() > 0 ==> match old(self).stack@.last() {
                Value::Func(f) => old(self).stack@.len() >= 1 + f.sig.args ==> memo_post(
                    *old(self),
                    *final(self),
                    f.id,
                    f.sig.args as int,
                    f.sig.outputs as int,
                ),
                _ => true,
            },
        decreases fuel, 4int,
    {
        let f = self.pop_function()?;
        let nargs = f.sig.args;
        let nout = f.sig.outputs;
        if self.stack.len() < nargs {
            return Err(UiuaError::StackUnderflow);
        }
        let split_at = self.stack.len() - nargs;
        let args = self.stack.split_off(split_at);
        proof {
            assert(all_wf(args@));
        }
        proof {
            let pre = *old(self);
            let n = pre.stack@.len() as int;
            assert(args@ =~= pre.stack@.subrange(n - 1 - nargs, n - 1));
        }
        match self.memo_lookup(&f.id, &args) {
            Some(k) => {
                let outs = clone_values(&self.memo[k].outputs);
                self.append_stack(outs);
                proof {
                    let pre = *old(self);
                    let n = pre.stack@.len() as int;
                    assert(self.stack@.take(n - 1 - nargs) =~= pre.stack@.take(n - 1 - nargs));
                }
                Ok(())
            },
            None => {
                let arg_clones = clone_values(&args);
                self.append_stack(arg_clones);
                match self.call_function(&f, fuel) {
                    Ok(()) => {},
                    Err(e) => {
                        return Err(e);
                    },
                }
                if self.stack.len() < nout {
                    return Err(UiuaError::StackUnderflow);
                }
                let outs = self.clone_stack_top(nout);
                proof {
                    let pre = *old(self);
                    let n = pre.stack@.len() as int;
                    let args_spec = pre.stack@.subrange(n - 1 - nargs, n - 1);
                    assert forall|i: int| 0 <= i < args@.len() implies val_match(
                        #[trigger] args@[i],
                        args_spec[i],
                    ) by {
                        lemma_val_match_refl(args@[i]);
                    }
                }
                let entry = MemoEntry { id: f.id, args, outputs: outs };
                proof {
                    assert(memo_wf(self.memo@.push(entry)));
                }
                self.memo.push(entry);
                Ok(())
            },
        }
    }

    /// Pop a function and a count, and call the function that many times.
    #[verifier::loop_isolation(false)]
    pub fn run_repeat(&mut self, fuel: u64) -> (r: Result<(), UiuaError>)
        requires
            env_wf(*old(self)),
        ensures
            env_wf(*final(self)),
            r matches Err(e) ==> error_wf(e),
        decreases fuel, 4int,
    {
        let f = self.pop_function()?;
        let count = self.pop()?;
        let n = match count.as_nat() {
            Some(n) => n,
            None => {
                return Err(UiuaError::TypeMismatch);
            },
        };
        let mut i: usize = 0;
        while i < n
            invariant
                env_wf(*self),
                instrs_wf(f.instrs@),
            decreases n - i,
        {
            match self.call_function(&f, fuel) {
                Ok(()) => {},
                Err(e) => {
                    return Err(e);
                },
            }
            i += 1;
        }
        Ok(())
    }
}

/// Memo purity: a cached call pushes copies of the recorded outputs and does
/// nothing else; a fresh call is recorded so that the next matching call is
/// answered from the table.
pub open spec fn memo_post(pre: Uiua, post: Uiua, id: FunctionId, nargs: int, nout: int) -> bool {
    let args = pre.stack@.subrange(pre.stack@.len() - 1 - nargs, pre.stack@.len() - 1);
    match memo_find(pre.memo@, id, args, 0) {
        Some(k) => {
            &&& post.stack@.len() == pre.stack@.len() - 1 - nargs + pre.memo@[k].outputs@.len()
            &&& post.stack@.take(pre.stack@.len() - 1 - nargs) == pre.stack@.take(
                pre.stack@.len() - 1 - nargs,
            )
            &&& forall|i: int|
                0 <= i < pre.memo@[k].outputs@.len() ==> val_sim(
                    #[trigger] post.stack@[pre.stack@.len() - 1 - nargs + i],
                    pre.memo@[k].outputs@[i],
                )
            &&& post.memo == pre.memo
            &&& post.antistack == pre.antistack
            &&& post.next_tag == pre.next_tag
            &&& post.trace_log == pre.trace_log
        },
        None => {
            &&& post.memo@.len() >= 1
            &&& memo_hits(post.memo@.last(), id, args)
            &&& post.memo@.last().outputs@.len() == nout
            &&& post.stack@.len() >= nout
            &&& forall|i: int|
                0 <= i < nout ==> val_sim(
                    #[trigger] post.memo@.last().outputs@[i],
                    post.stack@[post.stack@.len() - nout + i],
                )
        },
    }
}

/// Whether one memo entry answers a call.
fn entry_hits(e: &MemoEntry, id: &FunctionId, args: &Vec<Value>) -> (r: bool)
    ensures
        r == memo_hits(*e, *id, args@),
{
    if !id_eq_exec(&e.id, id) {
        return false;
    }
    if e.args.len() != args.len() {
        return false;
    }
    let mut i: usize = 0;
    while i < args.len()
        invariant
            e.args@.len() == args@.len(),
            i <= args@.len(),
            id_eq(e.id, *id),
            forall|j: int| 0 <= j < i ==> val_match(#[trigger] e.args@[j], args@[j]),
        decreases args@.len() - i,
    {
        if !values_match(&e.args[i], &args[i]) {
            return false;
        }
        i += 1;
    }
    true
}

/// Whether two function identities are the same.
fn id_eq_exec(a: &FunctionId, b: &FunctionId) -> (r: bool)
    ensures
        r == id_eq(*a, *b),
{
    match (a, b) {
        (FunctionId::Main, FunctionId::Main) => true,
        (FunctionId::Named(x), FunctionId::Named(y)) => x.eq(y),
        (FunctionId::Anonymous(x), FunctionId::Anonymous(y)) => x == y,
        _ => false,
    }
}

/// The internal primitives this runtime implements directly.
pub open spec fn is_impl_implemented(p: crate::impl_prim::ImplPrimitive) -> bool {
    ||| p == crate::impl_prim::ImplPrimitive::InvBox
    ||| p == crate::impl_prim::ImplPrimitive::InvCouple
    ||| p == crate::impl_prim::ImplPrimitive::Last
}

/// What a successful run of an implemented internal primitive does.
pub open spec fn run_impl_post(p: crate::impl_prim::ImplPrimitive, pre: Uiua, post: Uiua) -> bool {
    match p {
        crate::impl_prim::ImplPrimitive::InvBox => top1(pre, post) && (match pre.stack@.last() {
            Value::Box(a) => if a.shape@.len() == 0 && a.data@.len() == 1 {
                post.stack@.last() == *a.data@[0].0
            } else {
                post.stack@.last() == pre.stack@.last()
            },
            _ => post.stack@.last() == pre.stack@.last(),
        }),
        crate::impl_prim::ImplPrimitive::InvCouple => {
            &&& pre.stack@.len() >= 1
            &&& post.stack@.len() == pre.stack@.len() + 1
            &&& post.stack@.take(pre.stack@.len() - 1) == pre.stack@.take(pre.stack@.len() - 1)
            &&& crate::array_ops::coupled(
                pre.stack@.last(),
                post.stack@.last(),
                post.stack@[pre.stack@.len() - 1],
            )
            &&& same_but_stack(pre, post)
        },
        crate::impl_prim::ImplPrimitive::Last => top1(pre, post) && (if crate::array_ops::shape_seq(
            pre.stack@.last(),
        ).len() == 0 {
            post.stack@.last() == pre.stack@.last()
        } else {
            crate::array_ops::row_of(
                post.stack@.last(),
                pre.stack@.last(),
                crate::array_ops::row_count_of(pre.stack@.last()) - 1,
            )
        }),
        _ => true,
    }
}

impl crate::impl_prim::ImplPrimitive {
    /// Execute the internal primitive against the runtime. Each implemented
    /// variant behaves as the composition it renders as, and owes success
    /// whenever `run_impl_ok_at` holds of the starting state; the others are
    /// refused as outside this model.
    pub fn run(&self, env: &mut Uiua, fuel: u64) -> (r: Result<(), UiuaError>)
        requires
            env_wf(*old(env)),
        ensures
            env_wf(*final(env)),
            r matches Ok(v) ==> run_impl_post(*self, *old(env), *final(env)),
            run_impl_ok_at(*self, *old(env)) ==> r is Ok,
            !is_impl_implemented(*self) ==> r == Err::<(), UiuaError>(
                UiuaError::UnsupportedInternal(*self),
            ) && *final(env) == *old(env),
            r matches Err(e) ==> error_wf(e),
        decreases fuel, 5int,
    {
        let p = *self;
        match p {
            crate::impl_prim::ImplPrimitive::InvBox => {
                let v = env.pop()?;
                let out = crate::array_ops::unbox(v);
                env.push(out);
                Ok(())
            },
            crate::impl_prim::ImplPrimitive::InvCouple => {
                let v = env.pop()?;
                match crate::array_ops::uncouple(v) {
                    Ok((a, b)) => {
                        env.push(b);
                        env.push(a);
                        proof {
                            assert(final(env).stack@.take(old(env).stack@.len() - 1) =~= old(
                                env,
                            ).stack@.take(old(env).stack@.len() - 1));
                        }
                        Ok(())
                    },
                    Err(e) => Err(e),
                }
            },
            crate::impl_prim::ImplPrimitive::Last => {
                let v = env.pop()?;
                match crate::array_ops::last(v) {
                    Ok(out) => {
                        env.push(out);
                        Ok(())
                    },
                    Err(e) => Err(e),
                }
            },
            _ => Err(UiuaError::UnsupportedInternal(p)),
        }
    }
}

} // verus!
