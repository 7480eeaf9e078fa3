//! The failure kinds of the runtime, and how each renders as a message value.
use vstd::prelude::*;

use crate::prim::Primitive;
use crate::value::{value_wf, Array, Value};

verus! {

/// A failure escalated to the runtime's error channel.
#[derive(Debug)]
pub enum UiuaError {
    /// A pop found the stack empty.
    StackUnderflow,
    /// A pop found the anti-stack empty.
    AntistackUnderflow,
    /// A primitive was given a value of an element kind it does not accept.
    TypeMismatch,
    /// Shapes that a structural operation cannot reconcile.
    ShapeMismatch,
    /// An index outside an array's valid range.
    OutOfBounds,
    /// An explicit failure carrying a user value and the originating span.
    Throw(Box<Value>, u64),
    /// An unwind marker: levels still to unwind, and the originating span.
    Break(u64, u64),
    /// A modifier the compiler must inline reached the runtime.
    NotInlined(Primitive),
    /// An operation whose result the integer value model cannot carry, or
    /// that reaches the host facade.
    Unsupported(Primitive),
    /// An internal primitive outside this model.
    UnsupportedInternal(crate::impl_prim::ImplPrimitive),
    /// The step budget of the evaluation ran out.
    OutOfFuel,
}

/// Well-formedness of an error: a carried value is well-formed.
pub open spec fn error_wf(e: UiuaError) -> bool {
    match e {
        UiuaError::Throw(v, _) => value_wf(*v),
        _ => true,
    }
}

/// A character array holding the given text.
pub fn str_value(s: &str) -> (r: Value)
    requires
        s@.len() as int <= crate::value::max_dim(),
    ensures
        r matches Value::Char(a) && a.shape@ == seq![s@.len() as usize] && a.data@ == s@,
        value_wf(r),
{
    let n = s.unicode_len();
    let mut data: Vec<char> = Vec::new();
    for i in 0..n
        invariant
            n == s@.len(),
            data@ == s@.take(i as int),
    {
        data.push(s.get_char(i));
        proof {
            assert(s@.take(i as int).push(s@[i as int]) =~= s@.take(i + 1int));
        }
    }
    let mut shape: Vec<usize> = Vec::new();
    shape.push(n);
    let a = Array { shape, data };
    proof {
        assert(s@.take(n as int) =~= s@);
        assert(a.shape@ =~= seq![n]);
        assert(a.shape@.drop_first() =~= Seq::<usize>::empty());
        assert(crate::value::prod(a.shape@) == a.shape@[0] * crate::value::prod(
            a.shape@.drop_first(),
        ));
    }
    Value::Char(a)
}

impl UiuaError {
    /// The message value a `try` handler receives: the thrown value itself,
    /// or a short text describing the failure kind.
    pub fn message(self) -> (r: Value)
        requires
            error_wf(self),
        ensures
            value_wf(r),
            self matches UiuaError::Throw(v, _) ==> r == *v,
    {
        match self {
            UiuaError::Throw(v, _) => *v,
            UiuaError::StackUnderflow => {
                proof {
                    reveal_strlit("stack underflow");
                }
                str_value("stack underflow")
            },
            UiuaError::AntistackUnderflow => {
                proof {
                    reveal_strlit("antistack underflow");
                }
                str_value("antistack underflow")
            },
            UiuaError::TypeMismatch => {
                proof {
                    reveal_strlit("type mismatch");
                }
                str_value("type mismatch")
            },
            UiuaError::ShapeMismatch => {
                proof {
                    reveal_strlit("shape mismatch");
                }
                str_value("shape mismatch")
            },
            UiuaError::OutOfBounds => {
                proof {
                    reveal_strlit("index out of bounds");
                }
                str_value("index out of bounds")
            },
            UiuaError::Break(_, _) => {
                proof {
                    reveal_strlit("break outside of loop");
                }
                str_value("break outside of loop")
            },
            UiuaError::NotInlined(_) => {
                proof {
                    reveal_strlit("modifier was not inlined");
                }
                str_value("modifier was not inlined")
            },
            UiuaError::UnsupportedInternal(_) => {
                proof {
                    reveal_strlit("operation not supported");
                }
                str_value("operation not supported")
            },
            UiuaError::Unsupported(_) => {
                proof {
                    reveal_strlit("operation not supported");
                }
                str_value("operation not supported")
            },
            UiuaError::OutOfFuel => {
                proof {
                    reveal_strlit("execution budget exhausted");
                }
                str_value("execution budget exhausted")
            },
        }
    }
}

} // verus!
