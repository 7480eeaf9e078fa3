//! Core of a stack-oriented array language: the primitive catalogue, the
//! name resolver, the array value model, and the stack-machine runtime.
use vstd::prelude::*;

pub mod array_ops;
pub mod doc;
pub mod error;
pub mod impl_prim;
pub mod prim;
pub mod resolve;
pub mod ops;
pub mod rng;
pub mod runtime;
pub mod strutil;
pub mod value;

verus! {

/// The stack arity of a primitive: how many values it pops and pushes.
#[derive(Debug, Clone, Copy, PartialEq, Eq, Structural)]
pub struct Signature {
    /// Number of values popped from the stack.
    pub args: usize,
    /// Number of values pushed onto the stack.
    pub outputs: usize,
}

impl Signature {
    /// The net change a primitive with this signature makes to the stack height.
    pub open spec fn delta(self) -> int {
        self.outputs - self.args
    }

    /// Build a signature from its two arities.
    pub fn new(args: usize, outputs: usize) -> (r: Signature)
        ensures
            r.args == args,
            r.outputs == outputs,
    {
        Signature { args, outputs }
    }
}

} // verus!
