//! The internal primitives produced by inversion and optimization rewrites.
//! Users never write them; each renders as the composition it morally equals.
use vstd::prelude::*;

use crate::prim::{display_spec, Primitive};

verus! {

/// An internal operation produced by inversion or optimization.
#[derive(Debug, Clone, Copy, PartialEq, Eq, Structural)]
pub enum ImplPrimitive {
    InverseBits,
    InvWhere,
    InvCouple,
    InvMap,
    InvAtan,
    InvComplex,
    InvUtf,
    InvParse,
    InvFix,
    InvScan,
    InvTrace,
    InvStack,
    InvDump,
    InvBox,
    Untake,
    Undrop,
    Unselect,
    Unpick,
    Unpartition,
    Cos,
    Asin,
    Acos,
    Last,
    Unfirst,
    Unlast,
    Unkeep,
    Unrerank,
    Unreshape,
    Ungroup,
    Unjoin,
    FirstMinIndex,
    FirstMaxIndex,
    LastMinIndex,
    LastMaxIndex,
    FirstWhere,
    SortUp,
    SortDown,
    Primes,
    ReplaceRand,
    ReplaceRand2,
    ReduceContent,
    TransposeN(i32),
}

/// The fixed stack arity of an internal primitive, where it has one.
pub open spec fn impl_meta_spec(p: ImplPrimitive) -> (Option<usize>, Option<usize>) {
    match p {
        ImplPrimitive::InverseBits => (Some(1), Some(1)),
        ImplPrimitive::InvWhere => (Some(1), Some(1)),
        ImplPrimitive::InvCouple => (Some(1), Some(2)),
        ImplPrimitive::InvMap => (Some(1), Some(2)),
        ImplPrimitive::InvAtan => (Some(1), Some(2)),
        ImplPrimitive::InvComplex => (Some(1), Some(2)),
        ImplPrimitive::InvUtf => (Some(1), Some(1)),
        ImplPrimitive::InvParse => (Some(1), Some(1)),
        ImplPrimitive::InvFix => (Some(1), Some(1)),
        ImplPrimitive::InvScan => (None, None),
        ImplPrimitive::InvTrace => (Some(1), Some(1)),
        ImplPrimitive::InvStack => (None, None),
        ImplPrimitive::InvDump => (None, None),
        ImplPrimitive::InvBox => (Some(1), Some(1)),
        ImplPrimitive::Untake => (Some(3), Some(1)),
        ImplPrimitive::Undrop => (Some(3), Some(1)),
        ImplPrimitive::Unselect => (Some(3), Some(1)),
        ImplPrimitive::Unpick => (Some(3), Some(1)),
        ImplPrimitive::Unpartition => (None, None),
        ImplPrimitive::Cos => (Some(1), Some(1)),
        ImplPrimitive::Asin => (Some(1), Some(1)),
        ImplPrimitive::Acos => (Some(1), Some(1)),
        ImplPrimitive::Last => (Some(1), Some(1)),
        ImplPrimitive::Unfirst => (Some(2), Some(1)),
        ImplPrimitive::Unlast => (Some(2), Some(1)),
        ImplPrimitive::Unkeep => (Some(3), Some(1)),
        ImplPrimitive::Unrerank => (Some(3), Some(1)),
        ImplPrimitive::Unreshape => (Some(2), Some(1)),
        ImplPrimitive::Ungroup => (None, None),
        ImplPrimitive::Unjoin => (Some(3), Some(2)),
        ImplPrimitive::FirstMinIndex => (Some(1), Some(1)),
        ImplPrimitive::FirstMaxIndex => (Some(1), Some(1)),
        ImplPrimitive::LastMinIndex => (Some(1), Some(1)),
        ImplPrimitive::LastMaxIndex => (Some(1), Some(1)),
        ImplPrimitive::FirstWhere => (Some(1), Some(1)),
        ImplPrimitive::SortUp => (Some(1), Some(1)),
        ImplPrimitive::SortDown => (Some(1), Some(1)),
        ImplPrimitive::Primes => (Some(1), Some(1)),
        ImplPrimitive::ReplaceRand => (Some(1), Some(1)),
        ImplPrimitive::ReplaceRand2 => (Some(2), Some(1)),
        ImplPrimitive::ReduceContent => (None, None),
        ImplPrimitive::TransposeN(_) => (Some(1), Some(1)),
    }
}

impl ImplPrimitive {
    /// How many values the internal primitive pops, where fixed.
    pub fn args(&self) -> (r: Option<usize>)
        ensures
            r == impl_meta_spec(*self).0,
    {
        let (a, _) = impl_meta(*self);
        a
    }

    /// How many values the internal primitive pushes, where fixed.
    pub fn outputs(&self) -> (r: Option<usize>)
        ensures
            r == impl_meta_spec(*self).1,
    {
        let (_, o) = impl_meta(*self);
        o
    }
}

/// The fixed stack arity of an internal primitive, where it has one.
fn impl_meta(p: ImplPrimitive) -> (r: (Option<usize>, Option<usize>))
    ensures
        r == impl_meta_spec(p),
{
    match p {
        ImplPrimitive::InverseBits => (Some(1), Some(1)),
        ImplPrimitive::InvWhere => (Some(1), Some(1)),
        ImplPrimitive::InvCouple => (Some(1), Some(2)),
        ImplPrimitive::InvMap => (Some(1), Some(2)),
        ImplPrimitive::InvAtan => (Some(1), Some(2)),
        ImplPrimitive::InvComplex => (Some(1), Some(2)),
        ImplPrimitive::InvUtf => (Some(1), Some(1)),
        ImplPrimitive::InvParse => (Some(1), Some(1)),
        ImplPrimitive::InvFix => (Some(1), Some(1)),
        ImplPrimitive::InvScan => (None, None),
        ImplPrimitive::InvTrace => (Some(1), Some(1)),
        ImplPrimitive::InvStack => (None, None),
        ImplPrimitive::InvDump => (None, None),
        ImplPrimitive::InvBox => (Some(1), Some(1)),
        ImplPrimitive::Untake => (Some(3), Some(1)),
        ImplPrimitive::Undrop => (Some(3), Some(1)),
        ImplPrimitive::Unselect => (Some(3), Some(1)),
        ImplPrimitive::Unpick => (Some(3), Some(1)),
        ImplPrimitive::Unpartition => (None, None),
        ImplPrimitive::Cos => (Some(1), Some(1)),
        ImplPrimitive::Asin => (Some(1), Some(1)),
        ImplPrimitive::Acos => (Some(1), Some(1)),
        ImplPrimitive::Last => (Some(1), Some(1)),
        ImplPrimitive::Unfirst => (Some(2), Some(1)),
        ImplPrimitive::Unlast => (Some(2), Some(1)),
        ImplPrimitive::Unkeep => (Some(3), Some(1)),
        ImplPrimitive::Unrerank => (Some(3), Some(1)),
        ImplPrimitive::Unreshape => (Some(2), Some(1)),
        ImplPrimitive::Ungroup => (None, None),
        ImplPrimitive::Unjoin => (Some(3), Some(2)),
        ImplPrimitive::FirstMinIndex => (Some(1), Some(1)),
        ImplPrimitive::FirstMaxIndex => (Some(1), Some(1)),
        ImplPrimitive::LastMinIndex => (Some(1), Some(1)),
        ImplPrimitive::LastMaxIndex => (Some(1), Some(1)),
        ImplPrimitive::FirstWhere => (Some(1), Some(1)),
        ImplPrimitive::SortUp => (Some(1), Some(1)),
        ImplPrimitive::SortDown => (Some(1), Some(1)),
        ImplPrimitive::Primes => (Some(1), Some(1)),
        ImplPrimitive::ReplaceRand => (Some(1), Some(1)),
        ImplPrimitive::ReplaceRand2 => (Some(2), Some(1)),
        ImplPrimitive::ReduceContent => (None, None),
        ImplPrimitive::TransposeN(_) => (Some(1), Some(1)),
    }
}

/// A run of transpose glyphs.
pub open spec fn transpose_run(n: int) -> Seq<char>
    decreases n,
{
    if n <= 0 {
        Seq::empty()
    } else {
        transpose_run(n - 1) + display_spec(Primitive::Transpose)
    }
}

/// How an internal primitive renders: the catenated display forms of the
/// user primitives whose composition it morally equals.
pub open spec fn impl_display_spec(p: ImplPrimitive) -> Seq<char> {
    match p {
        ImplPrimitive::InverseBits => display_spec(Primitive::Un) + display_spec(Primitive::Bits),
        ImplPrimitive::InvWhere => display_spec(Primitive::Un) + display_spec(Primitive::Where),
        ImplPrimitive::InvCouple => display_spec(Primitive::Un) + display_spec(Primitive::Couple),
        ImplPrimitive::InvMap => display_spec(Primitive::Un) + display_spec(Primitive::MakeMap),
        ImplPrimitive::InvAtan => display_spec(Primitive::Un) + display_spec(Primitive::Atan),
        ImplPrimitive::InvComplex => display_spec(Primitive::Un) + display_spec(Primitive::Complex),
        ImplPrimitive::InvUtf => display_spec(Primitive::Un) + display_spec(Primitive::Utf),
        ImplPrimitive::InvParse => display_spec(Primitive::Un) + display_spec(Primitive::Parse),
        ImplPrimitive::InvFix => display_spec(Primitive::Un) + display_spec(Primitive::Fix),
        ImplPrimitive::InvScan => display_spec(Primitive::Un) + display_spec(Primitive::Scan),
        ImplPrimitive::InvTrace => display_spec(Primitive::Un) + display_spec(Primitive::Trace),
        ImplPrimitive::InvStack => display_spec(Primitive::Un) + display_spec(Primitive::Stack),
        ImplPrimitive::InvDump => display_spec(Primitive::Un) + display_spec(Primitive::Dump),
        ImplPrimitive::InvBox => display_spec(Primitive::Un) + display_spec(Primitive::Box),
        ImplPrimitive::Untake => display_spec(Primitive::Un) + display_spec(Primitive::Take),
        ImplPrimitive::Undrop => display_spec(Primitive::Un) + display_spec(Primitive::Drop),
        ImplPrimitive::Unselect => display_spec(Primitive::Un) + display_spec(Primitive::Select),
        ImplPrimitive::Unpick => display_spec(Primitive::Un) + display_spec(Primitive::Pick),
        ImplPrimitive::Unpartition => display_spec(Primitive::Un) + display_spec(Primitive::Partition),
        ImplPrimitive::Cos => display_spec(Primitive::Sin) + display_spec(Primitive::Add) + display_spec(Primitive::Eta),
        ImplPrimitive::Asin => display_spec(Primitive::Un) + display_spec(Primitive::Sin),
        ImplPrimitive::Acos => display_spec(Primitive::Un) + display_spec(Primitive::Sin) + display_spec(Primitive::Add) + display_spec(Primitive::Eta),
        ImplPrimitive::Last => display_spec(Primitive::First) + display_spec(Primitive::Reverse),
        ImplPrimitive::Unfirst => display_spec(Primitive::Un) + display_spec(Primitive::First),
        ImplPrimitive::Unlast => display_spec(Primitive::Un) + display_spec(Primitive::First) + display_spec(Primitive::Reverse),
        ImplPrimitive::Unkeep => display_spec(Primitive::Un) + display_spec(Primitive::Keep),
        ImplPrimitive::Unrerank => display_spec(Primitive::Un) + display_spec(Primitive::Rerank),
        ImplPrimitive::Unreshape => display_spec(Primitive::Un) + display_spec(Primitive::Reshape),
        ImplPrimitive::Ungroup => display_spec(Primitive::Un) + display_spec(Primitive::Group),
        ImplPrimitive::Unjoin => display_spec(Primitive::Un) + display_spec(Primitive::Join),
        ImplPrimitive::FirstMinIndex => display_spec(Primitive::First) + display_spec(Primitive::Rise),
        ImplPrimitive::FirstMaxIndex => display_spec(Primitive::First) + display_spec(Primitive::Fall),
        ImplPrimitive::LastMinIndex => display_spec(Primitive::First) + display_spec(Primitive::Reverse) + display_spec(Primitive::Rise),
        ImplPrimitive::LastMaxIndex => display_spec(Primitive::First) + display_spec(Primitive::Reverse) + display_spec(Primitive::Fall),
        ImplPrimitive::FirstWhere => display_spec(Primitive::First) + display_spec(Primitive::Where),
        ImplPrimitive::SortUp => display_spec(Primitive::Select) + display_spec(Primitive::Rise) + display_spec(Primitive::Dup),
        ImplPrimitive::SortDown => display_spec(Primitive::Select) + display_spec(Primitive::Fall) + display_spec(Primitive::Dup),
        ImplPrimitive::Primes => display_spec(Primitive::Un) + display_spec(Primitive::Reduce) + display_spec(Primitive::Mul),
        ImplPrimitive::ReplaceRand => display_spec(Primitive::Gap) + display_spec(Primitive::Rand),
        ImplPrimitive::ReplaceRand2 => display_spec(Primitive::Gap) + display_spec(Primitive::Gap) + display_spec(Primitive::Rand),
        ImplPrimitive::ReduceContent => display_spec(Primitive::Reduce) + display_spec(Primitive::Content),
        ImplPrimitive::TransposeN(n) => if n < 0 {
            display_spec(Primitive::Un) + "("@ + transpose_run(-n) + ")"@
        } else {
            transpose_run(n as int)
        },
    }
}

impl ImplPrimitive {
    /// Render the internal primitive as the composition it morally equals.
    #[verifier::loop_isolation(false)]
    #[verifier::rlimit(80)]
    pub fn display_string(&self) -> (r: String)
        ensures
            r@ == impl_display_spec(*self),
    {
        match self {
            ImplPrimitive::InverseBits => cat_two(Primitive::Un, Primitive::Bits),
            ImplPrimitive::InvWhere => cat_two(Primitive::Un, Primitive::Where),
            ImplPrimitive::InvCouple => cat_two(Primitive::Un, Primitive::Couple),
            ImplPrimitive::InvMap => cat_two(Primitive::Un, Primitive::MakeMap),
            ImplPrimitive::InvAtan => cat_two(Primitive::Un, Primitive::Atan),
            ImplPrimitive::InvComplex => cat_two(Primitive::Un, Primitive::Complex),
            ImplPrimitive::InvUtf => cat_two(Primitive::Un, Primitive::Utf),
            ImplPrimitive::InvParse => cat_two(Primitive::Un, Primitive::Parse),
            ImplPrimitive::InvFix => cat_two(Primitive::Un, Primitive::Fix),
            ImplPrimitive::InvScan => cat_two(Primitive::Un, Primitive::Scan),
            ImplPrimitive::InvTrace => cat_two(Primitive::Un, Primitive::Trace),
            ImplPrimitive::InvStack => cat_two(Primitive::Un, Primitive::Stack),
            ImplPrimitive::InvDump => cat_two(Primitive::Un, Primitive::Dump),
            ImplPrimitive::InvBox => cat_two(Primitive::Un, Primitive::Box),
            ImplPrimitive::Untake => cat_two(Primitive::Un, Primitive::Take),
            ImplPrimitive::Undrop => cat_two(Primitive::Un, Primitive::Drop),
            ImplPrimitive::Unselect => cat_two(Primitive::Un, Primitive::Select),
            ImplPrimitive::Unpick => cat_two(Primitive::Un, Primitive::Pick),
            ImplPrimitive::Unpartition => cat_two(Primitive::Un, Primitive::Partition),
            ImplPrimitive::Cos => cat_three(Primitive::Sin, Primitive::Add, Primitive::Eta),
            ImplPrimitive::Asin => cat_two(Primitive::Un, Primitive::Sin),
            ImplPrimitive::Acos => cat_four(Primitive::Un, Primitive::Sin, Primitive::Add, Primitive::Eta),
            ImplPrimitive::Last => cat_two(Primitive::First, Primitive::Reverse),
            ImplPrimitive::Unfirst => cat_two(Primitive::Un, Primitive::First),
            ImplPrimitive::Unlast => cat_three(Primitive::Un, Primitive::First, Primitive::Reverse),
            ImplPrimitive::Unkeep => cat_two(Primitive::Un, Primitive::Keep),
            ImplPrimitive::Unrerank => cat_two(Primitive::Un, Primitive::Rerank),
            ImplPrimitive::Unreshape => cat_two(Primitive::Un, Primitive::Reshape),
            ImplPrimitive::Ungroup => cat_two(Primitive::Un, Primitive::Group),
            ImplPrimitive::Unjoin => cat_two(Primitive::Un, Primitive::Join),
            ImplPrimitive::FirstMinIndex => cat_two(Primitive::First, Primitive::Rise),
            ImplPrimitive::FirstMaxIndex => cat_two(Primitive::First, Primitive::Fall),
            ImplPrimitive::LastMinIndex => cat_three(Primitive::First, Primitive::Reverse, Primitive::Rise),
            ImplPrimitive::LastMaxIndex => cat_three(Primitive::First, Primitive::Reverse, Primitive::Fall),
            ImplPrimitive::FirstWhere => cat_two(Primitive::First, Primitive::Where),
            ImplPrimitive::SortUp => cat_three(Primitive::Select, Primitive::Rise, Primitive::Dup),
            ImplPrimitive::SortDown => cat_three(Primitive::Select, Primitive::Fall, Primitive::Dup),
            ImplPrimitive::Primes => cat_three(Primitive::Un, Primitive::Reduce, Primitive::Mul),
            ImplPrimitive::ReplaceRand => cat_two(Primitive::Gap, Primitive::Rand),
            ImplPrimitive::ReplaceRand2 => cat_three(Primitive::Gap, Primitive::Gap, Primitive::Rand),
            ImplPrimitive::ReduceContent => cat_two(Primitive::Reduce, Primitive::Content),
            ImplPrimitive::TransposeN(n) => {
                let n = *n;
                let mut out = String::new();
                if n < 0 {
                    out.append(Primitive::Un.display_string().as_str());
                    out.append("(");
                }
                let count: u32 = if n < 0 {
                    if n == i32::MIN {
                        0x8000_0000u32
                    } else {
                        (0 - n) as u32
                    }
                } else {
                    n as u32
                };
                let mut k: u32 = 0;
                while k < count
                    invariant
                        k <= count,
                        n < 0 ==> out@ == display_spec(Primitive::Un) + "("@ + transpose_run(
                            k as int,
                        ),
                        n >= 0 ==> out@ == transpose_run(k as int),
                    decreases count - k,
                {
                    out.append(Primitive::Transpose.display_string().as_str());
                    k += 1;
                }
                if n < 0 {
                    out.append(")");
                }
                proof {
                    reveal_strlit("(");
                    reveal_strlit(")");
                    if n >= 0 {
                        assert(count as int == n as int);
                    } else {
                        assert(count as int == -(n as int));
                        assert(out@ =~= display_spec(Primitive::Un) + "("@ + transpose_run(
                            -(n as int),
                        ) + ")"@);
                    }
                }
                return out;
            },
        }
    }
}

/// Two display forms, catenated.
fn cat_two(a: Primitive, b: Primitive) -> (r: String)
    ensures
        r@ == display_spec(a) + display_spec(b),
{
    let mut out = a.display_string();
    out.append(b.display_string().as_str());
    out
}

/// Four display forms, catenated.
fn cat_four(a: Primitive, b: Primitive, c: Primitive, d: Primitive) -> (r: String)
    ensures
        r@ == display_spec(a) + display_spec(b) + display_spec(c) + display_spec(d),
{
    let mut out = a.display_string();
    out.append(b.display_string().as_str());
    out.append(c.display_string().as_str());
    out.append(d.display_string().as_str());
    out
}

/// Three display forms, catenated.
fn cat_three(a: Primitive, b: Primitive, c: Primitive) -> (r: String)
    ensures
        r@ == display_spec(a) + display_spec(b) + display_spec(c),
{
    let mut out = a.display_string();
    out.append(b.display_string().as_str());
    out.append(c.display_string().as_str());
    out
}

} // verus!
