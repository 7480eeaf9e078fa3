//! The primitive catalogue: the closed set of built-in operations together
//! with their static metadata (names, glyphs, arities, classes, flags).
use vstd::prelude::*;

use crate::Signature;
use crate::strutil::str_eq;

verus! {

/// An ASCII token that the formatter rewrites into a primitive's glyph.
#[derive(Debug, Clone, Copy, PartialEq, Eq, Structural)]
pub enum AsciiToken {
    Backtick,
    Equal,
    BangEqual,
    LessEqual,
    GreaterEqual,
    Star,
    Percent,
}

impl AsciiToken {
    /// The token's source text.
    pub fn text(&self) -> &'static str {
        match self {
            AsciiToken::Backtick => "`",
            AsciiToken::Equal => "=",
            AsciiToken::BangEqual => "!=",
            AsciiToken::LessEqual => "<=",
            AsciiToken::GreaterEqual => ">=",
            AsciiToken::Star => "*",
            AsciiToken::Percent => "%",
        }
    }
}

/// Categories of primitives.
#[derive(Debug, Clone, Copy, PartialEq, Eq, Structural)]
pub enum PrimClass {
    Stack,
    Constant,
    MonadicPervasive,
    DyadicPervasive,
    MonadicArray,
    DyadicArray,
    IteratingModifier,
    AggregatingModifier,
    InversionModifier,
    OtherModifier,
    Planet,
    MapOps,
    Local,
    Misc,
    Sys,
}

/// A variant for every built-in operation of the language.
#[derive(Debug, Clone, Copy, PartialEq, Eq, PartialOrd, Ord, Hash, Structural)]
pub enum Primitive {
    Dup,
    Over,
    Flip,
    Pop,
    Save,
    Load,
    Identity,
    Dip,
    Gap,
    Fork,
    Both,
    Bracket,
    Eta,
    Pi,
    Tau,
    Infinity,
    Not,
    Sign,
    Neg,
    Abs,
    Sqrt,
    Sin,
    Floor,
    Ceil,
    Round,
    Eq,
    Ne,
    Lt,
    Le,
    Gt,
    Ge,
    Add,
    Sub,
    Mul,
    Div,
    Mod,
    Pow,
    Log,
    Min,
    Max,
    Atan,
    Complex,
    Len,
    Shape,
    Range,
    First,
    Reverse,
    Deshape,
    Bits,
    Transpose,
    Rise,
    Fall,
    Where,
    Classify,
    Deduplicate,
    Unique,
    Box,
    Parse,
    Utf,
    Fix,
    Match,
    Couple,
    Join,
    Pick,
    Select,
    Take,
    Drop,
    Reshape,
    Rerank,
    Rotate,
    Windows,
    Keep,
    Find,
    Member,
    IndexOf,
    Replicate,
    Each,
    Rows,
    Table,
    Cross,
    Repeat,
    Do,
    All,
    Reduce,
    Fold,
    Scan,
    Group,
    Partition,
    Un,
    Under,
    SetInverse,
    SetUnder,
    Rectify,
    Bind,
    Content,
    Unpack,
    Fill,
    Comptime,
    Memo,
    Spawn,
    Try,
    This,
    Recur,
    Cascade,
    Dump,
    MakeMap,
    Insert,
    Has,
    Get,
    Remove,
    Assert,
    Rand,
    Gen,
    Deal,
    Tag,
    Type,
    Now,
    Regex,
    Trace,
    Stack,
    Send,
    Recv,
    TryRecv,
    Wait,
}

/// The number of primitives in the catalogue.
pub const PRIM_COUNT: usize = 124;

/// The canonical text name of a primitive, as a sequence of characters.
pub open spec fn name_spec(p: Primitive) -> Seq<char> {
    match p {
        Primitive::Dup => "duplicate"@,
        Primitive::Over => "over"@,
        Primitive::Flip => "flip"@,
        Primitive::Pop => "pop"@,
        Primitive::Save => "save"@,
        Primitive::Load => "load"@,
        Primitive::Identity => "identity"@,
        Primitive::Dip => "dip"@,
        Primitive::Gap => "gap"@,
        Primitive::Fork => "fork"@,
        Primitive::Both => "both"@,
        Primitive::Bracket => "bracket"@,
        Primitive::Eta => "eta"@,
        Primitive::Pi => "pi"@,
        Primitive::Tau => "tau"@,
        Primitive::Infinity => "infinity"@,
        Primitive::Not => "not"@,
        Primitive::Sign => "sign"@,
        Primitive::Neg => "negate"@,
        Primitive::Abs => "absolute value"@,
        Primitive::Sqrt => "sqrt"@,
        Primitive::Sin => "sine"@,
        Primitive::Floor => "floor"@,
        Primitive::Ceil => "ceiling"@,
        Primitive::Round => "round"@,
        Primitive::Eq => "equals"@,
        Primitive::Ne => "not equals"@,
        Primitive::Lt => "less than"@,
        Primitive::Le => "less or equal"@,
        Primitive::Gt => "greater than"@,
        Primitive::Ge => "greater or equal"@,
        Primitive::Add => "add"@,
        Primitive::Sub => "subtract"@,
        Primitive::Mul => "multiply"@,
        Primitive::Div => "divide"@,
        Primitive::Mod => "modulus"@,
        Primitive::Pow => "power"@,
        Primitive::Log => "logarithm"@,
        Primitive::Min => "minimum"@,
        Primitive::Max => "maximum"@,
        Primitive::Atan => "atangent"@,
        Primitive::Complex => "complex"@,
        Primitive::Len => "length"@,
        Primitive::Shape => "shape"@,
        Primitive::Range => "range"@,
        Primitive::First => "first"@,
        Primitive::Reverse => "reverse"@,
        Primitive::Deshape => "deshape"@,
        Primitive::Bits => "bits"@,
        Primitive::Transpose => "transpose"@,
        Primitive::Rise => "rise"@,
        Primitive::Fall => "fall"@,
        Primitive::Where => "where"@,
        Primitive::Classify => "classify"@,
        Primitive::Deduplicate => "deduplicate"@,
        Primitive::Unique => "unique"@,
        Primitive::Box => "box"@,
        Primitive::Parse => "parse"@,
        Primitive::Utf => "utf"@,
        Primitive::Fix => "fix"@,
        Primitive::Match => "match"@,
        Primitive::Couple => "couple"@,
        Primitive::Join => "join"@,
        Primitive::Pick => "pick"@,
        Primitive::Select => "select"@,
        Primitive::Take => "take"@,
        Primitive::Drop => "drop"@,
        Primitive::Reshape => "reshape"@,
        Primitive::Rerank => "rerank"@,
        Primitive::Rotate => "rotate"@,
        Primitive::Windows => "windows"@,
        Primitive::Keep => "keep"@,
        Primitive::Find => "find"@,
        Primitive::Member => "member"@,
        Primitive::IndexOf => "indexof"@,
        Primitive::Replicate => "replicate"@,
        Primitive::Each => "each"@,
        Primitive::Rows => "rows"@,
        Primitive::Table => "table"@,
        Primitive::Cross => "cross"@,
        Primitive::Repeat => "repeat"@,
        Primitive::Do => "do"@,
        Primitive::All => "all"@,
        Primitive::Reduce => "reduce"@,
        Primitive::Fold => "fold"@,
        Primitive::Scan => "scan"@,
        Primitive::Group => "group"@,
        Primitive::Partition => "partition"@,
        Primitive::Un => "un"@,
        Primitive::Under => "under"@,
        Primitive::SetInverse => "setinv"@,
        Primitive::SetUnder => "setund"@,
        Primitive::Rectify => "rectify"@,
        Primitive::Bind => "bind"@,
        Primitive::Content => "content"@,
        Primitive::Unpack => "unpack"@,
        Primitive::Fill => "fill"@,
        Primitive::Comptime => "comptime"@,
        Primitive::Memo => "memo"@,
        Primitive::Spawn => "spawn"@,
        Primitive::Try => "try"@,
        Primitive::This => "this"@,
        Primitive::Recur => "recur"@,
        Primitive::Cascade => "cascade"@,
        Primitive::Dump => "dump"@,
        Primitive::MakeMap => "map"@,
        Primitive::Insert => "insert"@,
        Primitive::Has => "has"@,
        Primitive::Get => "get"@,
        Primitive::Remove => "remove"@,
        Primitive::Assert => "assert"@,
        Primitive::Rand => "rand"@,
        Primitive::Gen => "gen"@,
        Primitive::Deal => "deal"@,
        Primitive::Tag => "tag"@,
        Primitive::Type => "type"@,
        Primitive::Now => "now"@,
        Primitive::Regex => "regex"@,
        Primitive::Trace => "trace"@,
        Primitive::Stack => "stack"@,
        Primitive::Send => "send"@,
        Primitive::Recv => "recv"@,
        Primitive::TryRecv => "tryrecv"@,
        Primitive::Wait => "wait"@,
    }
}

/// The primitive's glyph, if it has one.
pub open spec fn glyph_spec(p: Primitive) -> Option<char> {
    match p {
        Primitive::Dup => Some('.'),
        Primitive::Over => Some(','),
        Primitive::Flip => Some('~'),
        Primitive::Pop => Some(';'),
        Primitive::Save => Some('⇟'),
        Primitive::Load => Some('⇞'),
        Primitive::Identity => Some('∘'),
        Primitive::Dip => Some('⊙'),
        Primitive::Gap => Some('⋅'),
        Primitive::Fork => Some('⊃'),
        Primitive::Both => Some('∩'),
        Primitive::Bracket => Some('⊓'),
        Primitive::Eta => Some('η'),
        Primitive::Pi => Some('π'),
        Primitive::Tau => Some('τ'),
        Primitive::Infinity => Some('∞'),
        Primitive::Not => Some('¬'),
        Primitive::Sign => Some('±'),
        Primitive::Neg => Some('¯'),
        Primitive::Abs => Some('⌵'),
        Primitive::Sqrt => Some('√'),
        Primitive::Sin => Some('∿'),
        Primitive::Floor => Some('⌊'),
        Primitive::Ceil => Some('⌈'),
        Primitive::Round => Some('⁅'),
        Primitive::Eq => Some('='),
        Primitive::Ne => Some('≠'),
        Primitive::Lt => Some('<'),
        Primitive::Le => Some('≤'),
        Primitive::Gt => Some('>'),
        Primitive::Ge => Some('≥'),
        Primitive::Add => Some('+'),
        Primitive::Sub => Some('-'),
        Primitive::Mul => Some('×'),
        Primitive::Div => Some('÷'),
        Primitive::Mod => Some('◿'),
        Primitive::Pow => Some('ⁿ'),
        Primitive::Log => Some('ₙ'),
        Primitive::Min => Some('↧'),
        Primitive::Max => Some('↥'),
        Primitive::Atan => Some('∠'),
        Primitive::Complex => Some('ℂ'),
        Primitive::Len => Some('⧻'),
        Primitive::Shape => Some('△'),
        Primitive::Range => Some('⇡'),
        Primitive::First => Some('⊢'),
        Primitive::Reverse => Some('⇌'),
        Primitive::Deshape => Some('♭'),
        Primitive::Bits => Some('⋯'),
        Primitive::Transpose => Some('⍉'),
        Primitive::Rise => Some('⍏'),
        Primitive::Fall => Some('⍖'),
        Primitive::Where => Some('⊚'),
        Primitive::Classify => Some('⊛'),
        Primitive::Deduplicate => Some('⊝'),
        Primitive::Unique => Some('◰'),
        Primitive::Box => Some('□'),
        Primitive::Parse => Some('⋕'),
        Primitive::Utf => None,
        Primitive::Fix => Some('¤'),
        Primitive::Match => Some('≍'),
        Primitive::Couple => Some('⊟'),
        Primitive::Join => Some('⊂'),
        Primitive::Pick => Some('⊡'),
        Primitive::Select => Some('⊏'),
        Primitive::Take => Some('↙'),
        Primitive::Drop => Some('↘'),
        Primitive::Reshape => Some('↯'),
        Primitive::Rerank => Some('☇'),
        Primitive::Rotate => Some('↻'),
        Primitive::Windows => Some('◫'),
        Primitive::Keep => Some('▽'),
        Primitive::Find => Some('⌕'),
        Primitive::Member => Some('∊'),
        Primitive::IndexOf => Some('⊗'),
        Primitive::Replicate => Some('‡'),
        Primitive::Each => Some('∵'),
        Primitive::Rows => Some('≡'),
        Primitive::Table => Some('⊞'),
        Primitive::Cross => Some('⊠'),
        Primitive::Repeat => Some('⍥'),
        Primitive::Do => Some('⍢'),
        Primitive::All => None,
        Primitive::Reduce => Some('/'),
        Primitive::Fold => Some('∧'),
        Primitive::Scan => Some('\\'),
        Primitive::Group => Some('⊕'),
        Primitive::Partition => Some('⊜'),
        Primitive::Un => Some('°'),
        Primitive::Under => Some('⍜'),
        Primitive::SetInverse => None,
        Primitive::SetUnder => None,
        Primitive::Rectify => Some('⌅'),
        Primitive::Bind => None,
        Primitive::Content => Some('◇'),
        Primitive::Unpack => Some('⊐'),
        Primitive::Fill => Some('⬚'),
        Primitive::Comptime => None,
        Primitive::Memo => None,
        Primitive::Spawn => None,
        Primitive::Try => Some('⍣'),
        Primitive::This => None,
        Primitive::Recur => Some('↬'),
        Primitive::Cascade => None,
        Primitive::Dump => None,
        Primitive::MakeMap => None,
        Primitive::Insert => None,
        Primitive::Has => None,
        Primitive::Get => None,
        Primitive::Remove => None,
        Primitive::Assert => Some('⍤'),
        Primitive::Rand => Some('⚂'),
        Primitive::Gen => None,
        Primitive::Deal => None,
        Primitive::Tag => None,
        Primitive::Type => None,
        Primitive::Now => None,
        Primitive::Regex => None,
        Primitive::Trace => Some('⸮'),
        Primitive::Stack => Some('?'),
        Primitive::Send => None,
        Primitive::Recv => None,
        Primitive::TryRecv => None,
        Primitive::Wait => None,
    }
}

/// The ASCII token that formats to the primitive, if any.
pub open spec fn ascii_spec(p: Primitive) -> Option<AsciiToken> {
    match p {
        Primitive::Neg => Some(AsciiToken::Backtick),
        Primitive::Eq => Some(AsciiToken::Equal),
        Primitive::Ne => Some(AsciiToken::BangEqual),
        Primitive::Le => Some(AsciiToken::LessEqual),
        Primitive::Ge => Some(AsciiToken::GreaterEqual),
        Primitive::Mul => Some(AsciiToken::Star),
        Primitive::Div => Some(AsciiToken::Percent),
        _ => None,
    }
}

/// The static stack metadata of a primitive.
pub struct PrimMeta {
    /// How many values the primitive pops, where fixed.
    pub args: Option<usize>,
    /// How many values the primitive pushes, where fixed.
    pub outputs: Option<usize>,
    /// How many values the primitive pops from the anti-stack, where fixed.
    pub antiargs: Option<usize>,
    /// How many values the primitive pushes onto the anti-stack, where fixed.
    pub antioutputs: Option<usize>,
    /// How many function operands a modifier consumes, if it is one.
    pub modifier_args: Option<usize>,
    /// The primitive's category.
    pub class: PrimClass,
}

/// The full metadata record of a primitive.
pub open spec fn meta_spec(p: Primitive) -> PrimMeta {
    match p {
        Primitive::Dup => (PrimMeta { args: Some(1), outputs: Some(2), antiargs: None, antioutputs: None, modifier_args: None, class: PrimClass::Stack }),
        Primitive::Over => (PrimMeta { args: Some(2), outputs: Some(3), antiargs: None, antioutputs: None, modifier_args: None, class: PrimClass::Stack }),
        Primitive::Flip => (PrimMeta { args: Some(2), outputs: Some(2), antiargs: None, antioutputs: None, modifier_args: None, class: PrimClass::Stack }),
        Primitive::Pop => (PrimMeta { args: Some(1), outputs: Some(0), antiargs: None, antioutputs: None, modifier_args: None, class: PrimClass::Stack }),
        Primitive::Save => (PrimMeta { args: Some(1), outputs: Some(0), antiargs: None, antioutputs: Some(1), modifier_args: None, class: PrimClass::Stack }),
        Primitive::Load => (PrimMeta { args: Some(0), outputs: Some(1), antiargs: Some(1), antioutputs: None, modifier_args: None, class: PrimClass::Stack }),
        Primitive::Identity => (PrimMeta { args: Some(1), outputs: Some(1), antiargs: None, antioutputs: None, modifier_args: None, class: PrimClass::Planet }),
        Primitive::Dip => (PrimMeta { args: None, outputs: None, antiargs: None, antioutputs: None, modifier_args: Some(1), class: PrimClass::Planet }),
        Primitive::Gap => (PrimMeta { args: None, outputs: None, antiargs: None, antioutputs: None, modifier_args: Some(1), class: PrimClass::Planet }),
        Primitive::Fork => (PrimMeta { args: None, outputs: None, antiargs: None, antioutputs: None, modifier_args: Some(2), class: PrimClass::Planet }),
        Primitive::Both => (PrimMeta { args: None, outputs: None, antiargs: None, antioutputs: None, modifier_args: Some(1), class: PrimClass::Planet }),
        Primitive::Bracket => (PrimMeta { args: None, outputs: None, antiargs: None, antioutputs: None, modifier_args: Some(2), class: PrimClass::Planet }),
        Primitive::Eta => (PrimMeta { args: Some(0), outputs: Some(1), antiargs: None, antioutputs: None, modifier_args: None, class: PrimClass::Constant }),
        Primitive::Pi => (PrimMeta { args: Some(0), outputs: Some(1), antiargs: None, antioutputs: None, modifier_args: None, class: PrimClass::Constant }),
        Primitive::Tau => (PrimMeta { args: Some(0), outputs: Some(1), antiargs: None, antioutputs: None, modifier_args: None, class: PrimClass::Constant }),
        Primitive::Infinity => (PrimMeta { args: Some(0), outputs: Some(1), antiargs: None, antioutputs: None, modifier_args: None, class: PrimClass::Constant }),
        Primitive::Not => (PrimMeta { args: Some(1), outputs: Some(1), antiargs: None, antioutputs: None, modifier_args: None, class: PrimClass::MonadicPervasive }),
        Primitive::Sign => (PrimMeta { args: Some(1), outputs: Some(1), antiargs: None, antioutputs: None, modifier_args: None, class: PrimClass::MonadicPervasive }),
        Primitive::Neg => (PrimMeta { args: Some(1), outputs: Some(1), antiargs: None, antioutputs: None, modifier_args: None, class: PrimClass::MonadicPervasive }),
        Primitive::Abs => (PrimMeta { args: Some(1), outputs: Some(1), antiargs: None, antioutputs: None, modifier_args: None, class: PrimClass::MonadicPervasive }),
        Primitive::Sqrt => (PrimMeta { args: Some(1), outputs: Some(1), antiargs: None, antioutputs: None, modifier_args: None, class: PrimClass::MonadicPervasive }),
        Primitive::Sin => (PrimMeta { args: Some(1), outputs: Some(1), antiargs: None, antioutputs: None, modifier_args: None, class: PrimClass::MonadicPervasive }),
        Primitive::Floor => (PrimMeta { args: Some(1), outputs: Some(1), antiargs: None, antioutputs: None, modifier_args: None, class: PrimClass::MonadicPervasive }),
        Primitive::Ceil => (PrimMeta { args: Some(1), outputs: Some(1), antiargs: None, antioutputs: None, modifier_args: None, class: PrimClass::MonadicPervasive }),
        Primitive::Round => (PrimMeta { args: Some(1), outputs: Some(1), antiargs: None, antioutputs: None, modifier_args: None, class: PrimClass::MonadicPervasive }),
        Primitive::Eq => (PrimMeta { args: Some(2), outputs: Some(1), antiargs: None, antioutputs: None, modifier_args: None, class: PrimClass::DyadicPervasive }),
        Primitive::Ne => (PrimMeta { args: Some(2), outputs: Some(1), antiargs: None, antioutputs: None, modifier_args: None, class: PrimClass::DyadicPervasive }),
        Primitive::Lt => (PrimMeta { args: Some(2), outputs: Some(1), antiargs: None, antioutputs: None, modifier_args: None, class: PrimClass::DyadicPervasive }),
        Primitive::Le => (PrimMeta { args: Some(2), outputs: Some(1), antiargs: None, antioutputs: None, modifier_args: None, class: PrimClass::DyadicPervasive }),
        Primitive::Gt => (PrimMeta { args: Some(2), outputs: Some(1), antiargs: None, antioutputs: None, modifier_args: None, class: PrimClass::DyadicPervasive }),
        Primitive::Ge => (PrimMeta { args: Some(2), outputs: Some(1), antiargs: None, antioutputs: None, modifier_args: None, class: PrimClass::DyadicPervasive }),
        Primitive::Add => (PrimMeta { args: Some(2), outputs: Some(1), antiargs: None, antioutputs: None, modifier_args: None, class: PrimClass::DyadicPervasive }),
        Primitive::Sub => (PrimMeta { args: Some(2), outputs: Some(1), antiargs: None, antioutputs: None, modifier_args: None, class: PrimClass::DyadicPervasive }),
        Primitive::Mul => (PrimMeta { args: Some(2), outputs: Some(1), antiargs: None, antioutputs: None, modifier_args: None, class: PrimClass::DyadicPervasive }),
        Primitive::Div => (PrimMeta { args: Some(2), outputs: Some(1), antiargs: None, antioutputs: None, modifier_args: None, class: PrimClass::DyadicPervasive }),
        Primitive::Mod => (PrimMeta { args: Some(2), outputs: Some(1), antiargs: None, antioutputs: None, modifier_args: None, class: PrimClass::DyadicPervasive }),
        Primitive::Pow => (PrimMeta { args: Some(2), outputs: Some(1), antiargs: None, antioutputs: None, modifier_args: None, class: PrimClass::DyadicPervasive }),
        Primitive::Log => (PrimMeta { args: Some(2), outputs: Some(1), antiargs: None, antioutputs: None, modifier_args: None, class: PrimClass::DyadicPervasive }),
        Primitive::Min => (PrimMeta { args: Some(2), outputs: Some(1), antiargs: None, antioutputs: None, modifier_args: None, class: PrimClass::DyadicPervasive }),
        Primitive::Max => (PrimMeta { args: Some(2), outputs: Some(1), antiargs: None, antioutputs: None, modifier_args: None, class: PrimClass::DyadicPervasive }),
        Primitive::Atan => (PrimMeta { args: Some(2), outputs: Some(1), antiargs: None, antioutputs: None, modifier_args: None, class: PrimClass::DyadicPervasive }),
        Primitive::Complex => (PrimMeta { args: Some(2), outputs: Some(1), antiargs: None, antioutputs: None, modifier_args: None, class: PrimClass::DyadicPervasive }),
        Primitive::Len => (PrimMeta { args: Some(1), outputs: Some(1), antiargs: None, antioutputs: None, modifier_args: None, class: PrimClass::MonadicArray }),
        Primitive::Shape => (PrimMeta { args: Some(1), outputs: Some(1), antiargs: None, antioutputs: None, modifier_args: None, class: PrimClass::MonadicArray }),
        Primitive::Range => (PrimMeta { args: Some(1), outputs: Some(1), antiargs: None, antioutputs: None, modifier_args: None, class: PrimClass::MonadicArray }),
        Primitive::First => (PrimMeta { args: Some(1), outputs: Some(1), antiargs: None, antioutputs: None, modifier_args: None, class: PrimClass::MonadicArray }),
        Primitive::Reverse => (PrimMeta { args: Some(1), outputs: Some(1), antiargs: None, antioutputs: None, modifier_args: None, class: PrimClass::MonadicArray }),
        Primitive::Deshape => (PrimMeta { args: Some(1), outputs: Some(1), antiargs: None, antioutputs: None, modifier_args: None, class: PrimClass::MonadicArray }),
        Primitive::Bits => (PrimMeta { args: Some(1), outputs: Some(1), antiargs: None, antioutputs: None, modifier_args: None, class: PrimClass::MonadicArray }),
        Primitive::Transpose => (PrimMeta { args: Some(1), outputs: Some(1), antiargs: None, antioutputs: None, modifier_args: None, class: PrimClass::MonadicArray }),
        Primitive::Rise => (PrimMeta { args: Some(1), outputs: Some(1), antiargs: None, antioutputs: None, modifier_args: None, class: PrimClass::MonadicArray }),
        Primitive::Fall => (PrimMeta { args: Some(1), outputs: Some(1), antiargs: None, antioutputs: None, modifier_args: None, class: PrimClass::MonadicArray }),
        Primitive::Where => (PrimMeta { args: Some(1), outputs: Some(1), antiargs: None, antioutputs: None, modifier_args: None, class: PrimClass::MonadicArray }),
        Primitive::Classify => (PrimMeta { args: Some(1), outputs: Some(1), antiargs: None, antioutputs: None, modifier_args: None, class: PrimClass::MonadicArray }),
        Primitive::Deduplicate => (PrimMeta { args: Some(1), outputs: Some(1), antiargs: None, antioutputs: None, modifier_args: None, class: PrimClass::MonadicArray }),
        Primitive::Unique => (PrimMeta { args: Some(1), outputs: Some(1), antiargs: None, antioutputs: None, modifier_args: None, class: PrimClass::MonadicArray }),
        Primitive::Box => (PrimMeta { args: Some(1), outputs: Some(1), antiargs: None, antioutputs: None, modifier_args: None, class: PrimClass::MonadicArray }),
        Primitive::Parse => (PrimMeta { args: Some(1), outputs: Some(1), antiargs: None, antioutputs: None, modifier_args: None, class: PrimClass::MonadicArray }),
        Primitive::Utf => (PrimMeta { args: Some(1), outputs: Some(1), antiargs: None, antioutputs: None, modifier_args: None, class: PrimClass::MonadicArray }),
        Primitive::Fix => (PrimMeta { args: Some(1), outputs: Some(1), antiargs: None, antioutputs: None, modifier_args: None, class: PrimClass::MonadicArray }),
        Primitive::Match => (PrimMeta { args: Some(2), outputs: Some(1), antiargs: None, antioutputs: None, modifier_args: None, class: PrimClass::DyadicArray }),
        Primitive::Couple => (PrimMeta { args: Some(2), outputs: Some(1), antiargs: None, antioutputs: None, modifier_args: None, class: PrimClass::DyadicArray }),
        Primitive::Join => (PrimMeta { args: Some(2), outputs: Some(1), antiargs: None, antioutputs: None, modifier_args: None, class: PrimClass::DyadicArray }),
        Primitive::Pick => (PrimMeta { args: Some(2), outputs: Some(1), antiargs: None, antioutputs: None, modifier_args: None, class: PrimClass::DyadicArray }),
        Primitive::Select => (PrimMeta { args: Some(2), outputs: Some(1), antiargs: None, antioutputs: None, modifier_args: None, class: PrimClass::DyadicArray }),
        Primitive::Take => (PrimMeta { args: Some(2), outputs: Some(1), antiargs: None, antioutputs: None, modifier_args: None, class: PrimClass::DyadicArray }),
        Primitive::Drop => (PrimMeta { args: Some(2), outputs: Some(1), antiargs: None, antioutputs: None, modifier_args: None, class: PrimClass::DyadicArray }),
        Primitive::Reshape => (PrimMeta { args: Some(2), outputs: Some(1), antiargs: None, antioutputs: None, modifier_args: None, class: PrimClass::DyadicArray }),
        Primitive::Rerank => (PrimMeta { args: Some(2), outputs: Some(1), antiargs: None, antioutputs: None, modifier_args: None, class: PrimClass::DyadicArray }),
        Primitive::Rotate => (PrimMeta { args: Some(2), outputs: Some(1), antiargs: None, antioutputs: None, modifier_args: None, class: PrimClass::DyadicArray }),
        Primitive::Windows => (PrimMeta { args: Some(2), outputs: Some(1), antiargs: None, antioutputs: None, modifier_args: None, class: PrimClass::DyadicArray }),
        Primitive::Keep => (PrimMeta { args: Some(2), outputs: Some(1), antiargs: None, antioutputs: None, modifier_args: None, class: PrimClass::DyadicArray }),
        Primitive::Find => (PrimMeta { args: Some(2), outputs: Some(1), antiargs: None, antioutputs: None, modifier_args: None, class: PrimClass::DyadicArray }),
        Primitive::Member => (PrimMeta { args: Some(2), outputs: Some(1), antiargs: None, antioutputs: None, modifier_args: None, class: PrimClass::DyadicArray }),
        Primitive::IndexOf => (PrimMeta { args: Some(2), outputs: Some(1), antiargs: None, antioutputs: None, modifier_args: None, class: PrimClass::DyadicArray }),
        Primitive::Replicate => (PrimMeta { args: Some(2), outputs: Some(1), antiargs: None, antioutputs: None, modifier_args: None, class: PrimClass::DyadicArray }),
        Primitive::Each => (PrimMeta { args: None, outputs: None, antiargs: None, antioutputs: None, modifier_args: Some(1), class: PrimClass::IteratingModifier }),
        Primitive::Rows => (PrimMeta { args: None, outputs: None, antiargs: None, antioutputs: None, modifier_args: Some(1), class: PrimClass::IteratingModifier }),
        Primitive::Table => (PrimMeta { args: None, outputs: None, antiargs: None, antioutputs: None, modifier_args: Some(1), class: PrimClass::IteratingModifier }),
        Primitive::Cross => (PrimMeta { args: None, outputs: None, antiargs: None, antioutputs: None, modifier_args: Some(1), class: PrimClass::IteratingModifier }),
        Primitive::Repeat => (PrimMeta { args: None, outputs: None, antiargs: None, antioutputs: None, modifier_args: Some(1), class: PrimClass::IteratingModifier }),
        Primitive::Do => (PrimMeta { args: None, outputs: None, antiargs: None, antioutputs: None, modifier_args: Some(2), class: PrimClass::IteratingModifier }),
        Primitive::All => (PrimMeta { args: None, outputs: None, antiargs: None, antioutputs: None, modifier_args: Some(1), class: PrimClass::IteratingModifier }),
        Primitive::Reduce => (PrimMeta { args: None, outputs: None, antiargs: None, antioutputs: None, modifier_args: Some(1), class: PrimClass::AggregatingModifier }),
        Primitive::Fold => (PrimMeta { args: None, outputs: None, antiargs: None, antioutputs: None, modifier_args: Some(1), class: PrimClass::AggregatingModifier }),
        Primitive::Scan => (PrimMeta { args: None, outputs: None, antiargs: None, antioutputs: None, modifier_args: Some(1), class: PrimClass::AggregatingModifier }),
        Primitive::Group => (PrimMeta { args: None, outputs: None, antiargs: None, antioutputs: None, modifier_args: Some(1), class: PrimClass::AggregatingModifier }),
        Primitive::Partition => (PrimMeta { args: None, outputs: None, antiargs: None, antioutputs: None, modifier_args: Some(1), class: PrimClass::AggregatingModifier }),
        Primitive::Un => (PrimMeta { args: None, outputs: None, antiargs: None, antioutputs: None, modifier_args: Some(1), class: PrimClass::InversionModifier }),
        Primitive::Under => (PrimMeta { args: None, outputs: None, antiargs: None, antioutputs: None, modifier_args: Some(2), class: PrimClass::InversionModifier }),
        Primitive::SetInverse => (PrimMeta { args: None, outputs: None, antiargs: None, antioutputs: None, modifier_args: Some(2), class: PrimClass::InversionModifier }),
        Primitive::SetUnder => (PrimMeta { args: None, outputs: None, antiargs: None, antioutputs: None, modifier_args: Some(3), class: PrimClass::InversionModifier }),
        Primitive::Rectify => (PrimMeta { args: None, outputs: None, antiargs: None, antioutputs: None, modifier_args: Some(1), class: PrimClass::InversionModifier }),
        Primitive::Bind => (PrimMeta { args: None, outputs: None, antiargs: None, antioutputs: None, modifier_args: Some(2), class: PrimClass::OtherModifier }),
        Primitive::Content => (PrimMeta { args: None, outputs: None, antiargs: None, antioutputs: None, modifier_args: Some(1), class: PrimClass::OtherModifier }),
        Primitive::Unpack => (PrimMeta { args: None, outputs: None, antiargs: None, antioutputs: None, modifier_args: Some(1), class: PrimClass::OtherModifier }),
        Primitive::Fill => (PrimMeta { args: None, outputs: None, antiargs: None, antioutputs: None, modifier_args: Some(2), class: PrimClass::OtherModifier }),
        Primitive::Comptime => (PrimMeta { args: None, outputs: None, antiargs: None, antioutputs: None, modifier_args: Some(1), class: PrimClass::OtherModifier }),
        Primitive::Memo => (PrimMeta { args: None, outputs: None, antiargs: None, antioutputs: None, modifier_args: Some(1), class: PrimClass::OtherModifier }),
        Primitive::Spawn => (PrimMeta { args: None, outputs: None, antiargs: None, antioutputs: None, modifier_args: Some(1), class: PrimClass::OtherModifier }),
        Primitive::Try => (PrimMeta { args: None, outputs: None, antiargs: None, antioutputs: None, modifier_args: Some(2), class: PrimClass::OtherModifier }),
        Primitive::This => (PrimMeta { args: None, outputs: None, antiargs: None, antioutputs: None, modifier_args: Some(1), class: PrimClass::OtherModifier }),
        Primitive::Recur => (PrimMeta { args: None, outputs: None, antiargs: None, antioutputs: None, modifier_args: None, class: PrimClass::OtherModifier }),
        Primitive::Cascade => (PrimMeta { args: None, outputs: None, antiargs: None, antioutputs: None, modifier_args: Some(2), class: PrimClass::OtherModifier }),
        Primitive::Dump => (PrimMeta { args: None, outputs: None, antiargs: None, antioutputs: None, modifier_args: Some(1), class: PrimClass::OtherModifier }),
        Primitive::MakeMap => (PrimMeta { args: Some(2), outputs: Some(1), antiargs: None, antioutputs: None, modifier_args: None, class: PrimClass::MapOps }),
        Primitive::Insert => (PrimMeta { args: Some(3), outputs: Some(1), antiargs: None, antioutputs: None, modifier_args: None, class: PrimClass::MapOps }),
        Primitive::Has => (PrimMeta { args: Some(2), outputs: Some(1), antiargs: None, antioutputs: None, modifier_args: None, class: PrimClass::MapOps }),
        Primitive::Get => (PrimMeta { args: Some(2), outputs: Some(1), antiargs: None, antioutputs: None, modifier_args: None, class: PrimClass::MapOps }),
        Primitive::Remove => (PrimMeta { args: Some(2), outputs: Some(1), antiargs: None, antioutputs: None, modifier_args: None, class: PrimClass::MapOps }),
        Primitive::Assert => (PrimMeta { args: Some(2), outputs: Some(0), antiargs: None, antioutputs: None, modifier_args: None, class: PrimClass::Misc }),
        Primitive::Rand => (PrimMeta { args: Some(0), outputs: Some(1), antiargs: None, antioutputs: None, modifier_args: None, class: PrimClass::Misc }),
        Primitive::Gen => (PrimMeta { args: Some(1), outputs: Some(2), antiargs: None, antioutputs: None, modifier_args: None, class: PrimClass::Misc }),
        Primitive::Deal => (PrimMeta { args: Some(2), outputs: Some(1), antiargs: None, antioutputs: None, modifier_args: None, class: PrimClass::Misc }),
        Primitive::Tag => (PrimMeta { args: Some(0), outputs: Some(1), antiargs: None, antioutputs: None, modifier_args: None, class: PrimClass::Misc }),
        Primitive::Type => (PrimMeta { args: Some(1), outputs: Some(1), antiargs: None, antioutputs: None, modifier_args: None, class: PrimClass::Misc }),
        Primitive::Now => (PrimMeta { args: Some(0), outputs: Some(1), antiargs: None, antioutputs: None, modifier_args: None, class: PrimClass::Misc }),
        Primitive::Regex => (PrimMeta { args: Some(2), outputs: Some(1), antiargs: None, antioutputs: None, modifier_args: None, class: PrimClass::Misc }),
        Primitive::Trace => (PrimMeta { args: Some(1), outputs: Some(1), antiargs: None, antioutputs: None, modifier_args: None, class: PrimClass::Misc }),
        Primitive::Stack => (PrimMeta { args: None, outputs: None, antiargs: None, antioutputs: None, modifier_args: None, class: PrimClass::Misc }),
        Primitive::Send => (PrimMeta { args: Some(2), outputs: Some(0), antiargs: None, antioutputs: None, modifier_args: None, class: PrimClass::Misc }),
        Primitive::Recv => (PrimMeta { args: Some(1), outputs: Some(1), antiargs: None, antioutputs: None, modifier_args: None, class: PrimClass::Misc }),
        Primitive::TryRecv => (PrimMeta { args: Some(1), outputs: Some(1), antiargs: None, antioutputs: None, modifier_args: None, class: PrimClass::Misc }),
        Primitive::Wait => (PrimMeta { args: Some(1), outputs: None, antiargs: None, antioutputs: None, modifier_args: None, class: PrimClass::Misc }),
    }
}

/// Whether the primitive is deprecated in favour of another spelling.
pub open spec fn is_deprecated_spec(p: Primitive) -> bool {
    p == Primitive::Replicate || p == Primitive::Cross || p == Primitive::Rectify || p == Primitive::Unpack || p == Primitive::Cascade
}

/// Whether the primitive is experimental.
pub open spec fn is_experimental_spec(p: Primitive) -> bool {
    p == Primitive::All || p == Primitive::Bind || p == Primitive::Cascade || p == Primitive::Get || p == Primitive::Has || p == Primitive::Insert || p == Primitive::MakeMap || p == Primitive::Rectify || p == Primitive::Recur || p == Primitive::Remove || p == Primitive::This
}

/// Whether the primitive pushes a fixed numeric constant.
pub open spec fn is_constant_spec(p: Primitive) -> bool {
    p == Primitive::Eta || p == Primitive::Pi || p == Primitive::Tau || p == Primitive::Infinity
}

/// The partial inverse map of the catalogue: self-inverse stack shuffles and
/// the save/load pair that mirror each other across the two stacks.
pub open spec fn inverse_spec(p: Primitive) -> Option<Primitive> {
    match p {
        Primitive::Flip => Some(Primitive::Flip),
        Primitive::Neg => Some(Primitive::Neg),
        Primitive::Not => Some(Primitive::Not),
        Primitive::Reverse => Some(Primitive::Reverse),
        Primitive::Save => Some(Primitive::Load),
        Primitive::Load => Some(Primitive::Save),
        _ => None,
    }
}

/// The primitive stored at a given position of the catalogue's canonical order.
pub open spec fn prim_at(i: int) -> Primitive {
    if i <= 0 { Primitive::Dup }
    else if i == 1 { Primitive::Over }
    else if i == 2 { Primitive::Flip }
    else if i == 3 { Primitive::Pop }
    else if i == 4 { Primitive::Save }
    else if i == 5 { Primitive::Load }
    else if i == 6 { Primitive::Identity }
    else if i == 7 { Primitive::Dip }
    else if i == 8 { Primitive::Gap }
    else if i == 9 { Primitive::Fork }
    else if i == 10 { Primitive::Both }
    else if i == 11 { Primitive::Bracket }
    else if i == 12 { Primitive::Eta }
    else if i == 13 { Primitive::Pi }
    else if i == 14 { Primitive::Tau }
    else if i == 15 { Primitive::Infinity }
    else if i == 16 { Primitive::Not }
    else if i == 17 { Primitive::Sign }
    else if i == 18 { Primitive::Neg }
    else if i == 19 { Primitive::Abs }
    else if i == 20 { Primitive::Sqrt }
    else if i == 21 { Primitive::Sin }
    else if i == 22 { Primitive::Floor }
    else if i == 23 { Primitive::Ceil }
    else if i == 24 { Primitive::Round }
    else if i == 25 { Primitive::Eq }
    else if i == 26 { Primitive::Ne }
    else if i == 27 { Primitive::Lt }
    else if i == 28 { Primitive::Le }
    else if i == 29 { Primitive::Gt }
    else if i == 30 { Primitive::Ge }
    else if i == 31 { Primitive::Add }
    else if i == 32 { Primitive::Sub }
    else if i == 33 { Primitive::Mul }
    else if i == 34 { Primitive::Div }
    else if i == 35 { Primitive::Mod }
    else if i == 36 { Primitive::Pow }
    else if i == 37 { Primitive::Log }
    else if i == 38 { Primitive::Min }
    else if i == 39 { Primitive::Max }
    else if i == 40 { Primitive::Atan }
    else if i == 41 { Primitive::Complex }
    else if i == 42 { Primitive::Len }
    else if i == 43 { Primitive::Shape }
    else if i == 44 { Primitive::Range }
    else if i == 45 { Primitive::First }
    else if i == 46 { Primitive::Reverse }
    else if i == 47 { Primitive::Deshape }
    else if i == 48 { Primitive::Bits }
    else if i == 49 { Primitive::Transpose }
    else if i == 50 { Primitive::Rise }
    else if i == 51 { Primitive::Fall }
    else if i == 52 { Primitive::Where }
    else if i == 53 { Primitive::Classify }
    else if i == 54 { Primitive::Deduplicate }
    else if i == 55 { Primitive::Unique }
    else if i == 56 { Primitive::Box }
    else if i == 57 { Primitive::Parse }
    else if i == 58 { Primitive::Utf }
    else if i == 59 { Primitive::Fix }
    else if i == 60 { Primitive::Match }
    else if i == 61 { Primitive::Couple }
    else if i == 62 { Primitive::Join }
    else if i == 63 { Primitive::Pick }
    else if i == 64 { Primitive::Select }
    else if i == 65 { Primitive::Take }
    else if i == 66 { Primitive::Drop }
    else if i == 67 { Primitive::Reshape }
    else if i == 68 { Primitive::Rerank }
    else if i == 69 { Primitive::Rotate }
    else if i == 70 { Primitive::Windows }
    else if i == 71 { Primitive::Keep }
    else if i == 72 { Primitive::Find }
    else if i == 73 { Primitive::Member }
    else if i == 74 { Primitive::IndexOf }
    else if i == 75 { Primitive::Replicate }
    else if i == 76 { Primitive::Each }
    else if i == 77 { Primitive::Rows }
    else if i == 78 { Primitive::Table }
    else if i == 79 { Primitive::Cross }
    else if i == 80 { Primitive::Repeat }
    else if i == 81 { Primitive::Do }
    else if i == 82 { Primitive::All }
    else if i == 83 { Primitive::Reduce }
    else if i == 84 { Primitive::Fold }
    else if i == 85 { Primitive::Scan }
    else if i == 86 { Primitive::Group }
    else if i == 87 { Primitive::Partition }
    else if i == 88 { Primitive::Un }
    else if i == 89 { Primitive::Under }
    else if i == 90 { Primitive::SetInverse }
    else if i == 91 { Primitive::SetUnder }
    else if i == 92 { Primitive::Rectify }
    else if i == 93 { Primitive::Bind }
    else if i == 94 { Primitive::Content }
    else if i == 95 { Primitive::Unpack }
    else if i == 96 { Primitive::Fill }
    else if i == 97 { Primitive::Comptime }
    else if i == 98 { Primitive::Memo }
    else if i == 99 { Primitive::Spawn }
    else if i == 100 { Primitive::Try }
    else if i == 101 { Primitive::This }
    else if i == 102 { Primitive::Recur }
    else if i == 103 { Primitive::Cascade }
    else if i == 104 { Primitive::Dump }
    else if i == 105 { Primitive::MakeMap }
    else if i == 106 { Primitive::Insert }
    else if i == 107 { Primitive::Has }
    else if i == 108 { Primitive::Get }
    else if i == 109 { Primitive::Remove }
    else if i == 110 { Primitive::Assert }
    else if i == 111 { Primitive::Rand }
    else if i == 112 { Primitive::Gen }
    else if i == 113 { Primitive::Deal }
    else if i == 114 { Primitive::Tag }
    else if i == 115 { Primitive::Type }
    else if i == 116 { Primitive::Now }
    else if i == 117 { Primitive::Regex }
    else if i == 118 { Primitive::Trace }
    else if i == 119 { Primitive::Stack }
    else if i == 120 { Primitive::Send }
    else if i == 121 { Primitive::Recv }
    else if i == 122 { Primitive::TryRecv }
    else { Primitive::Wait }
}

/// The position of a primitive in the catalogue's canonical order.
pub open spec fn prim_index(p: Primitive) -> int {
    match p {
        Primitive::Dup => 0,
        Primitive::Over => 1,
        Primitive::Flip => 2,
        Primitive::Pop => 3,
        Primitive::Save => 4,
        Primitive::Load => 5,
        Primitive::Identity => 6,
        Primitive::Dip => 7,
        Primitive::Gap => 8,
        Primitive::Fork => 9,
        Primitive::Both => 10,
        Primitive::Bracket => 11,
        Primitive::Eta => 12,
        Primitive::Pi => 13,
        Primitive::Tau => 14,
        Primitive::Infinity => 15,
        Primitive::Not => 16,
        Primitive::Sign => 17,
        Primitive::Neg => 18,
        Primitive::Abs => 19,
        Primitive::Sqrt => 20,
        Primitive::Sin => 21,
        Primitive::Floor => 22,
        Primitive::Ceil => 23,
        Primitive::Round => 24,
        Primitive::Eq => 25,
        Primitive::Ne => 26,
        Primitive::Lt => 27,
        Primitive::Le => 28,
        Primitive::Gt => 29,
        Primitive::Ge => 30,
        Primitive::Add => 31,
        Primitive::Sub => 32,
        Primitive::Mul => 33,
        Primitive::Div => 34,
        Primitive::Mod => 35,
        Primitive::Pow => 36,
        Primitive::Log => 37,
        Primitive::Min => 38,
        Primitive::Max => 39,
        Primitive::Atan => 40,
        Primitive::Complex => 41,
        Primitive::Len => 42,
        Primitive::Shape => 43,
        Primitive::Range => 44,
        Primitive::First => 45,
        Primitive::Reverse => 46,
        Primitive::Deshape => 47,
        Primitive::Bits => 48,
        Primitive::Transpose => 49,
        Primitive::Rise => 50,
        Primitive::Fall => 51,
        Primitive::Where => 52,
        Primitive::Classify => 53,
        Primitive::Deduplicate => 54,
        Primitive::Unique => 55,
        Primitive::Box => 56,
        Primitive::Parse => 57,
        Primitive::Utf => 58,
        Primitive::Fix => 59,
        Primitive::Match => 60,
        Primitive::Couple => 61,
        Primitive::Join => 62,
        Primitive::Pick => 63,
        Primitive::Select => 64,
        Primitive::Take => 65,
        Primitive::Drop => 66,
        Primitive::Reshape => 67,
        Primitive::Rerank => 68,
        Primitive::Rotate => 69,
        Primitive::Windows => 70,
        Primitive::Keep => 71,
        Primitive::Find => 72,
        Primitive::Member => 73,
        Primitive::IndexOf => 74,
        Primitive::Replicate => 75,
        Primitive::Each => 76,
        Primitive::Rows => 77,
        Primitive::Table => 78,
        Primitive::Cross => 79,
        Primitive::Repeat => 80,
        Primitive::Do => 81,
        Primitive::All => 82,
        Primitive::Reduce => 83,
        Primitive::Fold => 84,
        Primitive::Scan => 85,
        Primitive::Group => 86,
        Primitive::Partition => 87,
        Primitive::Un => 88,
        Primitive::Under => 89,
        Primitive::SetInverse => 90,
        Primitive::SetUnder => 91,
        Primitive::Rectify => 92,
        Primitive::Bind => 93,
        Primitive::Content => 94,
        Primitive::Unpack => 95,
        Primitive::Fill => 96,
        Primitive::Comptime => 97,
        Primitive::Memo => 98,
        Primitive::Spawn => 99,
        Primitive::Try => 100,
        Primitive::This => 101,
        Primitive::Recur => 102,
        Primitive::Cascade => 103,
        Primitive::Dump => 104,
        Primitive::MakeMap => 105,
        Primitive::Insert => 106,
        Primitive::Has => 107,
        Primitive::Get => 108,
        Primitive::Remove => 109,
        Primitive::Assert => 110,
        Primitive::Rand => 111,
        Primitive::Gen => 112,
        Primitive::Deal => 113,
        Primitive::Tag => 114,
        Primitive::Type => 115,
        Primitive::Now => 116,
        Primitive::Regex => 117,
        Primitive::Trace => 118,
        Primitive::Stack => 119,
        Primitive::Send => 120,
        Primitive::Recv => 121,
        Primitive::TryRecv => 122,
        Primitive::Wait => 123,
    }
}

/// All primitives, in the catalogue's canonical order.
pub open spec fn all_prims() -> Seq<Primitive> {
    Seq::new(PRIM_COUNT as nat, |i: int| prim_at(i))
}

/// Every primitive occurs in the catalogue at its canonical position.
pub proof fn lemma_prim_index(p: Primitive)
    ensures
        0 <= prim_index(p) < PRIM_COUNT,
        all_prims()[prim_index(p)] == p,
{
}

/// A numeric key computed from a name: a few characters and the length,
/// packed positionally so that equal names always give equal keys.
pub open spec fn key_of(s: Seq<char>) -> int {
    if s.len() == 0 {
        -1
    } else {
        let c0 = s[0] as int;
        let c1 = s[if s.len() > 1 { 1int } else { 0int }] as int;
        let c2 = s[if s.len() > 2 { 2int } else { s.len() - 1 }] as int;
        let cl = s[s.len() - 1] as int;
        ((((c0 * 0x1000000 + c1) * 0x1000000 + c2) * 0x1000000 + cl) * 0x1000000) + s.len()
    }
}

/// The key of each primitive's name, precomputed.
pub open spec fn name_key(p: Primitive) -> int {
    match p {
        Primitive::Dup => 7922816803943343780301971128329,
        Primitive::Over => 8794326596322614880476074082308,
        Primitive::Flip => 8081273086470572139337599680516,
        Primitive::Pop => 8873554725780316934206811799555,
        Primitive::Save => 9111239147209980875662086373380,
        Primitive::Load => 8556642075723255361707784011780,
        Primitive::Identity => 8318957536234432163261313974280,
        Primitive::Dip => 7922816747274945985866413113347,
        Primitive::Gap => 8160501197038807135689883254787,
        Primitive::Fork => 8081273100637674121221241831428,
        Primitive::Both => 7764360450580617333796969119748,
        Primitive::Bracket => 7764360464747711434381548584967,
        Primitive::Eta => 8002044961735237412901152096259,
        Primitive::Pi => 8873554697446116066663986102274,
        Primitive::Tau => 9190467309724244931780922048515,
        Primitive::Infinity => 8318957583458097273432742821896,
        Primitive::Not => 8715098400751789384919697850371,
        Primitive::Sign => 9111239184988908516494748418052,
        Primitive::Neg => 8715098353528120897048296816646,
        Primitive::Abs => 7685132226675588437423010349070,
        Primitive::Sqrt => 9111239222767843475676754608132,
        Primitive::Sin => 9111239184988910486819434397700,
        Primitive::Floor => 8081273086470573828187493498885,
        Primitive::Ceil => 7843588565871213746469300338695,
        Primitive::Round => 9032011050808847016768581926917,
        Primitive::Eq => 8002044947568143593792052658182,
        Primitive::Ne => 8715098400751789384919681073162,
        Primitive::Lt => 8556642028499595599561080438793,
        Primitive::Le => 8556642028499595599561046884365,
        Primitive::Gt => 8160501277319034248249074515980,
        Primitive::Ge => 8160501277319034248249040961552,
        Primitive::Add => 7685132236120317181037633339395,
        Primitive::Sub => 9111239241657304903555708092424,
        Primitive::Mul => 8635870266571721692744295383048,
        Primitive::Div => 7922816747274947674716088827910,
        Primitive::Mod => 8635870238237520543726509752327,
        Primitive::Pow => 8873554725780318904531682328581,
        Primitive::Log => 8556642075723257050557795270665,
        Primitive::Min => 8635870209903324461258304913415,
        Primitive::Max => 8635870172124395413050910310407,
        Primitive::Atan => 7685132311678180062527295062024,
        Primitive::Complex => 7843588613094879701065944530951,
        Primitive::Len => 8556642028499594192186096222214,
        Primitive::Shape => 9111239180266540344775091945477,
        Primitive::Range => 9032010984695714286268728737797,
        Primitive::First => 8081273072303475224003521544197,
        Primitive::Reverse => 9032011003585182469547123277831,
        Primitive::Deshape => 7922816728385480898812577841159,
        Primitive::Bits => 7764360422246418436579282386948,
        Primitive::Transpose => 9190467390004469511065088032777,
        Primitive::Rise => 9032011022474647556600774000644,
        Primitive::Fall => 8081273034524541672196365352964,
        Primitive::Where => 9428151830323598821049174589445,
        Primitive::Classify => 7843588598927776874757305139208,
        Primitive::Deduplicate => 7922816728385476676687927181323,
        Primitive::Unique => 9269695533629270168979864813574,
        Primitive::Box => 7764360450580618459697144397827,
        Primitive::Parse => 8873554659667186736981547679749,
        Primitive::Utf => 9269695561963468221772822740995,
        Primitive::Fix => 8081273072303476912853448916995,
        Primitive::Match => 8635870172124394287150919581701,
        Primitive::Couple => 7843588613094881952865439449094,
        Primitive::Join => 8398185750694728938320677568516,
        Primitive::Pick => 8873554697446114377814159392772,
        Primitive::Select => 9111239166099443992391151779846,
        Primitive::Take => 9190467309724242117030886506500,
        Primitive::Drop => 7922816789776244050218243325956,
        Primitive::Reshape => 9032011003585181625122193145863,
        Primitive::Rerank => 9032011003585181343647317098502,
        Primitive::Rotate => 9032011050808846735293621993478,
        Primitive::Windows => 9428151835045967837193845080071,
        Primitive::Keep => 8477413865985327321317896093700,
        Primitive::Find => 8081273072303474098103346266116,
        Primitive::Member => 8635870191013858248304831234054,
        Primitive::IndexOf => 8318957583458096710482470633479,
        Primitive::Replicate => 9032011003585180780697263013897,
        Primitive::Each => 8002044872010274801327963897860,
        Primitive::Rows => 9032011050808847579718787006468,
        Primitive::Table => 9190467309724239583756096110597,
        Primitive::Cross => 7843588627261979712624749707269,
        Primitive::Repeat => 9032011003585180780697514672134,
        Primitive::Do => 7922816775609144601609290907650,
        Primitive::All => 7685132273899251295794742951939,
        Primitive::Reduce => 9032011003585177402997542486022,
        Primitive::Fold => 8081273100637672432371264126980,
        Primitive::Scan => 9111239156654707930427016871940,
        Primitive::Group => 8160501277319037062998875176965,
        Primitive::Partition => 8873554659667186736981698674697,
        Primitive::Un => 9269695533629271576354899361794,
        Primitive::Under => 9269695533629268761605199364101,
        Primitive::SetInverse => 9111239166099446244190999019526,
        Primitive::SetUnder => 9111239166099446244190697029638,
        Primitive::Rectify => 9032011003585177121522901319687,
        Primitive::Bind => 7764360422246416747729170464772,
        Primitive::Content => 7843588613094879982540854132743,
        Primitive::Unpack => 9269695533629272139304802451462,
        Primitive::Fill => 8081273072303473535153527062532,
        Primitive::Comptime => 7843588613094879701065625763848,
        Primitive::Memo => 8635870191013858248304780902404,
        Primitive::Spawn => 9111239218045472207732404649989,
        Primitive::Try => 9190467390004476266464864632835,
        Primitive::This => 9190467342780806934168684462084,
        Primitive::Recur => 9032011003585177121522783879173,
        Primitive::Cascade => 7843588546981750629740453036039,
        Primitive::Dump => 7922816803943342935877225545732,
        Primitive::MakeMap => 8635870172124393161251146956803,
        Primitive::Insert => 8318957583458100932607356174342,
        Primitive::Has => 8239729359553072317708407668739,
        Primitive::Get => 8160501215928274193068438061059,
        Primitive::Remove => 9032011003585179936272332881926,
        Primitive::Assert => 7685132306955818646207230640134,
        Primitive::Rand => 9032010984695714286268711960580,
        Primitive::Gen => 8160501215928272504218477133827,
        Primitive::Deal => 7922816728385475832263114489860,
        Primitive::Tag => 9190467309724240991131013218307,
        Primitive::Type => 9190467423061039113277255188484,
        Primitive::Now => 8715098400751790229344678313987,
        Primitive::Regex => 9032011003585178247422791385093,
        Primitive::Trace => 9190467390004469511065088032773,
        Primitive::Stack => 9111239236934938139210935173125,
        Primitive::Send => 9111239166099444555340836765700,
        Primitive::Recv => 9032011003585177121522850988036,
        Primitive::TryRecv => 9190467390004476266464814301191,
        Primitive::Wait => 9428151797267034566861816594436,
    }
}

/// Recover a primitive from its name key.
pub open spec fn unkey_prim(k: int) -> Primitive {
    if k == 7922816803943343780301971128329 { Primitive::Dup }
    else if k == 8794326596322614880476074082308 { Primitive::Over }
    else if k == 8081273086470572139337599680516 { Primitive::Flip }
    else if k == 8873554725780316934206811799555 { Primitive::Pop }
    else if k == 9111239147209980875662086373380 { Primitive::Save }
    else if k == 8556642075723255361707784011780 { Primitive::Load }
    else if k == 8318957536234432163261313974280 { Primitive::Identity }
    else if k == 7922816747274945985866413113347 { Primitive::Dip }
    else if k == 8160501197038807135689883254787 { Primitive::Gap }
    else if k == 8081273100637674121221241831428 { Primitive::Fork }
    else if k == 7764360450580617333796969119748 { Primitive::Both }
    else if k == 7764360464747711434381548584967 { Primitive::Bracket }
    else if k == 8002044961735237412901152096259 { Primitive::Eta }
    else if k == 8873554697446116066663986102274 { Primitive::Pi }
    else if k == 9190467309724244931780922048515 { Primitive::Tau }
    else if k == 8318957583458097273432742821896 { Primitive::Infinity }
    else if k == 8715098400751789384919697850371 { Primitive::Not }
    else if k == 9111239184988908516494748418052 { Primitive::Sign }
    else if k == 8715098353528120897048296816646 { Primitive::Neg }
    else if k == 7685132226675588437423010349070 { Primitive::Abs }
    else if k == 9111239222767843475676754608132 { Primitive::Sqrt }
    else if k == 9111239184988910486819434397700 { Primitive::Sin }
    else if k == 8081273086470573828187493498885 { Primitive::Floor }
    else if k == 7843588565871213746469300338695 { Primitive::Ceil }
    else if k == 9032011050808847016768581926917 { Primitive::Round }
    else if k == 8002044947568143593792052658182 { Primitive::Eq }
    else if k == 8715098400751789384919681073162 { Primitive::Ne }
    else if k == 8556642028499595599561080438793 { Primitive::Lt }
    else if k == 8556642028499595599561046884365 { Primitive::Le }
    else if k == 8160501277319034248249074515980 { Primitive::Gt }
    else if k == 8160501277319034248249040961552 { Primitive::Ge }
    else if k == 7685132236120317181037633339395 { Primitive::Add }
    else if k == 9111239241657304903555708092424 { Primitive::Sub }
    else if k == 8635870266571721692744295383048 { Primitive::Mul }
    else if k == 7922816747274947674716088827910 { Primitive::Div }
    else if k == 8635870238237520543726509752327 { Primitive::Mod }
    else if k == 8873554725780318904531682328581 { Primitive::Pow }
    else if k == 8556642075723257050557795270665 { Primitive::Log }
    else if k == 8635870209903324461258304913415 { Primitive::Min }
    else if k == 8635870172124395413050910310407 { Primitive::Max }
    else if k == 7685132311678180062527295062024 { Primitive::Atan }
    else if k == 7843588613094879701065944530951 { Primitive::Complex }
    else if k == 8556642028499594192186096222214 { Primitive::Len }
    else if k == 9111239180266540344775091945477 { Primitive::Shape }
    else if k == 9032010984695714286268728737797 { Primitive::Range }
    else if k == 8081273072303475224003521544197 { Primitive::First }
    else if k == 9032011003585182469547123277831 { Primitive::Reverse }
    else if k == 7922816728385480898812577841159 { Primitive::Deshape }
    else if k == 7764360422246418436579282386948 { Primitive::Bits }
    else if k == 9190467390004469511065088032777 { Primitive::Transpose }
    else if k == 9032011022474647556600774000644 { Primitive::Rise }
    else if k == 8081273034524541672196365352964 { Primitive::Fall }
    else if k == 9428151830323598821049174589445 { Primitive::Where }
    else if k == 7843588598927776874757305139208 { Primitive::Classify }
    else if k == 7922816728385476676687927181323 { Primitive::Deduplicate }
    else if k == 9269695533629270168979864813574 { Primitive::Unique }
    else if k == 7764360450580618459697144397827 { Primitive::Box }
    else if k == 8873554659667186736981547679749 { Primitive::Parse }
    else if k == 9269695561963468221772822740995 { Primitive::Utf }
    else if k == 8081273072303476912853448916995 { Primitive::Fix }
    else if k == 8635870172124394287150919581701 { Primitive::Match }
    else if k == 7843588613094881952865439449094 { Primitive::Couple }
    else if k == 8398185750694728938320677568516 { Primitive::Join }
    else if k == 8873554697446114377814159392772 { Primitive::Pick }
    else if k == 9111239166099443992391151779846 { Primitive::Select }
    else if k == 9190467309724242117030886506500 { Primitive::Take }
    else if k == 7922816789776244050218243325956 { Primitive::Drop }
    else if k == 9032011003585181625122193145863 { Primitive::Reshape }
    else if k == 9032011003585181343647317098502 { Primitive::Rerank }
    else if k == 9032011050808846735293621993478 { Primitive::Rotate }
    else if k == 9428151835045967837193845080071 { Primitive::Windows }
    else if k == 8477413865985327321317896093700 { Primitive::Keep }
    else if k == 8081273072303474098103346266116 { Primitive::Find }
    else if k == 8635870191013858248304831234054 { Primitive::Member }
    else if k == 8318957583458096710482470633479 { Primitive::IndexOf }
    else if k == 9032011003585180780697263013897 { Primitive::Replicate }
    else if k == 8002044872010274801327963897860 { Primitive::Each }
    else if k == 9032011050808847579718787006468 { Primitive::Rows }
    else if k == 9190467309724239583756096110597 { Primitive::Table }
    else if k == 7843588627261979712624749707269 { Primitive::Cross }
    else if k == 9032011003585180780697514672134 { Primitive::Repeat }
    else if k == 7922816775609144601609290907650 { Primitive::Do }
    else if k == 7685132273899251295794742951939 { Primitive::All }
    else if k == 9032011003585177402997542486022 { Primitive::Reduce }
    else if k == 8081273100637672432371264126980 { Primitive::Fold }
    else if k == 9111239156654707930427016871940 { Primitive::Scan }
    else if k == 8160501277319037062998875176965 { Primitive::Group }
    else if k == 8873554659667186736981698674697 { Primitive::Partition }
    else if k == 9269695533629271576354899361794 { Primitive::Un }
    else if k == 9269695533629268761605199364101 { Primitive::Under }
    else if k == 9111239166099446244190999019526 { Primitive::SetInverse }
    else if k == 9111239166099446244190697029638 { Primitive::SetUnder }
    else if k == 9032011003585177121522901319687 { Primitive::Rectify }
    else if k == 7764360422246416747729170464772 { Primitive::Bind }
    else if k == 7843588613094879982540854132743 { Primitive::Content }
    else if k == 9269695533629272139304802451462 { Primitive::Unpack }
    else if k == 8081273072303473535153527062532 { Primitive::Fill }
    else if k == 7843588613094879701065625763848 { Primitive::Comptime }
    else if k == 8635870191013858248304780902404 { Primitive::Memo }
    else if k == 9111239218045472207732404649989 { Primitive::Spawn }
    else if k == 9190467390004476266464864632835 { Primitive::Try }
    else if k == 9190467342780806934168684462084 { Primitive::This }
    else if k == 9032011003585177121522783879173 { Primitive::Recur }
    else if k == 7843588546981750629740453036039 { Primitive::Cascade }
    else if k == 7922816803943342935877225545732 { Primitive::Dump }
    else if k == 8635870172124393161251146956803 { Primitive::MakeMap }
    else if k == 8318957583458100932607356174342 { Primitive::Insert }
    else if k == 8239729359553072317708407668739 { Primitive::Has }
    else if k == 8160501215928274193068438061059 { Primitive::Get }
    else if k == 9032011003585179936272332881926 { Primitive::Remove }
    else if k == 7685132306955818646207230640134 { Primitive::Assert }
    else if k == 9032010984695714286268711960580 { Primitive::Rand }
    else if k == 8160501215928272504218477133827 { Primitive::Gen }
    else if k == 7922816728385475832263114489860 { Primitive::Deal }
    else if k == 9190467309724240991131013218307 { Primitive::Tag }
    else if k == 9190467423061039113277255188484 { Primitive::Type }
    else if k == 8715098400751790229344678313987 { Primitive::Now }
    else if k == 9032011003585178247422791385093 { Primitive::Regex }
    else if k == 9190467390004469511065088032773 { Primitive::Trace }
    else if k == 9111239236934938139210935173125 { Primitive::Stack }
    else if k == 9111239166099444555340836765700 { Primitive::Send }
    else if k == 9032011003585177121522850988036 { Primitive::Recv }
    else if k == 9190467390004476266464814301191 { Primitive::TryRecv }
    else { Primitive::Wait }
}

/// Each primitive's precomputed key agrees with the key of its name.
pub proof fn lemma_name_key(p: Primitive)
    ensures
        name_key(p) == key_of(name_spec(p)),
{
    match p {
        Primitive::Dup => {
            reveal_strlit("duplicate");
        },
        Primitive::Over => {
            reveal_strlit("over");
        },
        Primitive::Flip => {
            reveal_strlit("flip");
        },
        Primitive::Pop => {
            reveal_strlit("pop");
        },
        Primitive::Save => {
            reveal_strlit("save");
        },
        Primitive::Load => {
            reveal_strlit("load");
        },
        Primitive::Identity => {
            reveal_strlit("identity");
        },
        Primitive::Dip => {
            reveal_strlit("dip");
        },
        Primitive::Gap => {
            reveal_strlit("gap");
        },
        Primitive::Fork => {
            reveal_strlit("fork");
        },
        Primitive::Both => {
            reveal_strlit("both");
        },
        Primitive::Bracket => {
            reveal_strlit("bracket");
        },
        Primitive::Eta => {
            reveal_strlit("eta");
        },
        Primitive::Pi => {
            reveal_strlit("pi");
        },
        Primitive::Tau => {
            reveal_strlit("tau");
        },
        Primitive::Infinity => {
            reveal_strlit("infinity");
        },
        Primitive::Not => {
            reveal_strlit("not");
        },
        Primitive::Sign => {
            reveal_strlit("sign");
        },
        Primitive::Neg => {
            reveal_strlit("negate");
        },
        Primitive::Abs => {
            reveal_strlit("absolute value");
        },
        Primitive::Sqrt => {
            reveal_strlit("sqrt");
        },
        Primitive::Sin => {
            reveal_strlit("sine");
        },
        Primitive::Floor => {
            reveal_strlit("floor");
        },
        Primitive::Ceil => {
            reveal_strlit("ceiling");
        },
        Primitive::Round => {
            reveal_strlit("round");
        },
        Primitive::Eq => {
            reveal_strlit("equals");
        },
        Primitive::Ne => {
            reveal_strlit("not equals");
        },
        Primitive::Lt => {
            reveal_strlit("less than");
        },
        Primitive::Le => {
            reveal_strlit("less or equal");
        },
        Primitive::Gt => {
            reveal_strlit("greater than");
        },
        Primitive::Ge => {
            reveal_strlit("greater or equal");
        },
        Primitive::Add => {
            reveal_strlit("add");
        },
        Primitive::Sub => {
            reveal_strlit("subtract");
        },
        Primitive::Mul => {
            reveal_strlit("multiply");
        },
        Primitive::Div => {
            reveal_strlit("divide");
        },
        Primitive::Mod => {
            reveal_strlit("modulus");
        },
        Primitive::Pow => {
            reveal_strlit("power");
        },
        Primitive::Log => {
            reveal_strlit("logarithm");
        },
        Primitive::Min => {
            reveal_strlit("minimum");
        },
        Primitive::Max => {
            reveal_strlit("maximum");
        },
        Primitive::Atan => {
            reveal_strlit("atangent");
        },
        Primitive::Complex => {
            reveal_strlit("complex");
        },
        Primitive::Len => {
            reveal_strlit("length");
        },
        Primitive::Shape => {
            reveal_strlit("shape");
        },
        Primitive::Range => {
            reveal_strlit("range");
        },
        Primitive::First => {
            reveal_strlit("first");
        },
        Primitive::Reverse => {
            reveal_strlit("reverse");
        },
        Primitive::Deshape => {
            reveal_strlit("deshape");
        },
        Primitive::Bits => {
            reveal_strlit("bits");
        },
        Primitive::Transpose => {
            reveal_strlit("transpose");
        },
        Primitive::Rise => {
            reveal_strlit("rise");
        },
        Primitive::Fall => {
            reveal_strlit("fall");
        },
        Primitive::Where => {
            reveal_strlit("where");
        },
        Primitive::Classify => {
            reveal_strlit("classify");
        },
        Primitive::Deduplicate => {
            reveal_strlit("deduplicate");
        },
        Primitive::Unique => {
            reveal_strlit("unique");
        },
        Primitive::Box => {
            reveal_strlit("box");
        },
        Primitive::Parse => {
            reveal_strlit("parse");
        },
        Primitive::Utf => {
            reveal_strlit("utf");
        },
        Primitive::Fix => {
            reveal_strlit("fix");
        },
        Primitive::Match => {
            reveal_strlit("match");
        },
        Primitive::Couple => {
            reveal_strlit("couple");
        },
        Primitive::Join => {
            reveal_strlit("join");
        },
        Primitive::Pick => {
            reveal_strlit("pick");
        },
        Primitive::Select => {
            reveal_strlit("select");
        },
        Primitive::Take => {
            reveal_strlit("take");
        },
        Primitive::Drop => {
            reveal_strlit("drop");
        },
        Primitive::Reshape => {
            reveal_strlit("reshape");
        },
        Primitive::Rerank => {
            reveal_strlit("rerank");
        },
        Primitive::Rotate => {
            reveal_strlit("rotate");
        },
        Primitive::Windows => {
            reveal_strlit("windows");
        },
        Primitive::Keep => {
            reveal_strlit("keep");
        },
        Primitive::Find => {
            reveal_strlit("find");
        },
        Primitive::Member => {
            reveal_strlit("member");
        },
        Primitive::IndexOf => {
            reveal_strlit("indexof");
        },
        Primitive::Replicate => {
            reveal_strlit("replicate");
        },
        Primitive::Each => {
            reveal_strlit("each");
        },
        Primitive::Rows => {
            reveal_strlit("rows");
        },
        Primitive::Table => {
            reveal_strlit("table");
        },
        Primitive::Cross => {
            reveal_strlit("cross");
        },
        Primitive::Repeat => {
            reveal_strlit("repeat");
        },
        Primitive::Do => {
            reveal_strlit("do");
        },
        Primitive::All => {
            reveal_strlit("all");
        },
        Primitive::Reduce => {
            reveal_strlit("reduce");
        },
        Primitive::Fold => {
            reveal_strlit("fold");
        },
        Primitive::Scan => {
            reveal_strlit("scan");
        },
        Primitive::Group => {
            reveal_strlit("group");
        },
        Primitive::Partition => {
            reveal_strlit("partition");
        },
        Primitive::Un => {
            reveal_strlit("un");
        },
        Primitive::Under => {
            reveal_strlit("under");
        },
        Primitive::SetInverse => {
            reveal_strlit("setinv");
        },
        Primitive::SetUnder => {
            reveal_strlit("setund");
        },
        Primitive::Rectify => {
            reveal_strlit("rectify");
        },
        Primitive::Bind => {
            reveal_strlit("bind");
        },
        Primitive::Content => {
            reveal_strlit("content");
        },
        Primitive::Unpack => {
            reveal_strlit("unpack");
        },
        Primitive::Fill => {
            reveal_strlit("fill");
        },
        Primitive::Comptime => {
            reveal_strlit("comptime");
        },
        Primitive::Memo => {
            reveal_strlit("memo");
        },
        Primitive::Spawn => {
            reveal_strlit("spawn");
        },
        Primitive::Try => {
            reveal_strlit("try");
        },
        Primitive::This => {
            reveal_strlit("this");
        },
        Primitive::Recur => {
            reveal_strlit("recur");
        },
        Primitive::Cascade => {
            reveal_strlit("cascade");
        },
        Primitive::Dump => {
            reveal_strlit("dump");
        },
        Primitive::MakeMap => {
            reveal_strlit("map");
        },
        Primitive::Insert => {
            reveal_strlit("insert");
        },
        Primitive::Has => {
            reveal_strlit("has");
        },
        Primitive::Get => {
            reveal_strlit("get");
        },
        Primitive::Remove => {
            reveal_strlit("remove");
        },
        Primitive::Assert => {
            reveal_strlit("assert");
        },
        Primitive::Rand => {
            reveal_strlit("rand");
        },
        Primitive::Gen => {
            reveal_strlit("gen");
        },
        Primitive::Deal => {
            reveal_strlit("deal");
        },
        Primitive::Tag => {
            reveal_strlit("tag");
        },
        Primitive::Type => {
            reveal_strlit("type");
        },
        Primitive::Now => {
            reveal_strlit("now");
        },
        Primitive::Regex => {
            reveal_strlit("regex");
        },
        Primitive::Trace => {
            reveal_strlit("trace");
        },
        Primitive::Stack => {
            reveal_strlit("stack");
        },
        Primitive::Send => {
            reveal_strlit("send");
        },
        Primitive::Recv => {
            reveal_strlit("recv");
        },
        Primitive::TryRecv => {
            reveal_strlit("tryrecv");
        },
        Primitive::Wait => {
            reveal_strlit("wait");
        },
    }
}

/// The name key determines the primitive.
pub proof fn lemma_unkey(p: Primitive)
    ensures
        unkey_prim(name_key(p)) == p,
{
}

/// Name uniqueness: distinct primitives never share a text name.
pub proof fn lemma_name_uniqueness(a: Primitive, b: Primitive)
    requires
        a != b,
    ensures
        name_spec(a) != name_spec(b),
{
    if name_spec(a) == name_spec(b) {
        lemma_name_key(a);
        lemma_name_key(b);
        lemma_unkey(a);
        lemma_unkey(b);
    }
}

/// Recover a primitive from its glyph.
pub open spec fn glyph_unkey(c: char) -> Primitive {
    if c == '.' { Primitive::Dup }
    else if c == ',' { Primitive::Over }
    else if c == '~' { Primitive::Flip }
    else if c == ';' { Primitive::Pop }
    else if c == '⇟' { Primitive::Save }
    else if c == '⇞' { Primitive::Load }
    else if c == '∘' { Primitive::Identity }
    else if c == '⊙' { Primitive::Dip }
    else if c == '⋅' { Primitive::Gap }
    else if c == '⊃' { Primitive::Fork }
    else if c == '∩' { Primitive::Both }
    else if c == '⊓' { Primitive::Bracket }
    else if c == 'η' { Primitive::Eta }
    else if c == 'π' { Primitive::Pi }
    else if c == 'τ' { Primitive::Tau }
    else if c == '∞' { Primitive::Infinity }
    else if c == '¬' { Primitive::Not }
    else if c == '±' { Primitive::Sign }
    else if c == '¯' { Primitive::Neg }
    else if c == '⌵' { Primitive::Abs }
    else if c == '√' { Primitive::Sqrt }
    else if c == '∿' { Primitive::Sin }
    else if c == '⌊' { Primitive::Floor }
    else if c == '⌈' { Primitive::Ceil }
    else if c == '⁅' { Primitive::Round }
    else if c == '=' { Primitive::Eq }
    else if c == '≠' { Primitive::Ne }
    else if c == '<' { Primitive::Lt }
    else if c == '≤' { Primitive::Le }
    else if c == '>' { Primitive::Gt }
    else if c == '≥' { Primitive::Ge }
    else if c == '+' { Primitive::Add }
    else if c == '-' { Primitive::Sub }
    else if c == '×' { Primitive::Mul }
    else if c == '÷' { Primitive::Div }
    else if c == '◿' { Primitive::Mod }
    else if c == 'ⁿ' { Primitive::Pow }
    else if c == 'ₙ' { Primitive::Log }
    else if c == '↧' { Primitive::Min }
    else if c == '↥' { Primitive::Max }
    else if c == '∠' { Primitive::Atan }
    else if c == 'ℂ' { Primitive::Complex }
    else if c == '⧻' { Primitive::Len }
    else if c == '△' { Primitive::Shape }
    else if c == '⇡' { Primitive::Range }
    else if c == '⊢' { Primitive::First }
    else if c == '⇌' { Primitive::Reverse }
    else if c == '♭' { Primitive::Deshape }
    else if c == '⋯' { Primitive::Bits }
    else if c == '⍉' { Primitive::Transpose }
    else if c == '⍏' { Primitive::Rise }
    else if c == '⍖' { Primitive::Fall }
    else if c == '⊚' { Primitive::Where }
    else if c == '⊛' { Primitive::Classify }
    else if c == '⊝' { Primitive::Deduplicate }
    else if c == '◰' { Primitive::Unique }
    else if c == '□' { Primitive::Box }
    else if c == '⋕' { Primitive::Parse }
    else if c == '¤' { Primitive::Fix }
    else if c == '≍' { Primitive::Match }
    else if c == '⊟' { Primitive::Couple }
    else if c == '⊂' { Primitive::Join }
    else if c == '⊡' { Primitive::Pick }
    else if c == '⊏' { Primitive::Select }
    else if c == '↙' { Primitive::Take }
    else if c == '↘' { Primitive::Drop }
    else if c == '↯' { Primitive::Reshape }
    else if c == '☇' { Primitive::Rerank }
    else if c == '↻' { Primitive::Rotate }
    else if c == '◫' { Primitive::Windows }
    else if c == '▽' { Primitive::Keep }
    else if c == '⌕' { Primitive::Find }
    else if c == '∊' { Primitive::Member }
    else if c == '⊗' { Primitive::IndexOf }
    else if c == '‡' { Primitive::Replicate }
    else if c == '∵' { Primitive::Each }
    else if c == '≡' { Primitive::Rows }
    else if c == '⊞' { Primitive::Table }
    else if c == '⊠' { Primitive::Cross }
    else if c == '⍥' { Primitive::Repeat }
    else if c == '⍢' { Primitive::Do }
    else if c == '/' { Primitive::Reduce }
    else if c == '∧' { Primitive::Fold }
    else if c == '\\' { Primitive::Scan }
    else if c == '⊕' { Primitive::Group }
    else if c == '⊜' { Primitive::Partition }
    else if c == '°' { Primitive::Un }
    else if c == '⍜' { Primitive::Under }
    else if c == '⌅' { Primitive::Rectify }
    else if c == '◇' { Primitive::Content }
    else if c == '⊐' { Primitive::Unpack }
    else if c == '⬚' { Primitive::Fill }
    else if c == '⍣' { Primitive::Try }
    else if c == '↬' { Primitive::Recur }
    else if c == '⍤' { Primitive::Assert }
    else if c == '⚂' { Primitive::Rand }
    else if c == '⸮' { Primitive::Trace }
    else { Primitive::Stack }
}

/// A primitive's glyph determines it.
pub proof fn lemma_glyph_unkey(p: Primitive)
    ensures
        match glyph_spec(p) {
            Some(c) => glyph_unkey(c) == p,
            None => true,
        },
{
}

/// Glyph uniqueness: distinct primitives never share a glyph.
pub proof fn lemma_glyph_uniqueness(a: Primitive, b: Primitive)
    requires
        a != b,
        glyph_spec(a) is Some,
    ensures
        glyph_spec(a) != glyph_spec(b),
{
    if glyph_spec(a) == glyph_spec(b) {
        lemma_glyph_unkey(a);
        lemma_glyph_unkey(b);
    }
}

/// The inverse table is an involution: inverting twice returns the start.
pub proof fn lemma_inverse_involution(p: Primitive, q: Primitive)
    requires
        inverse_spec(p) == Some(q),
    ensures
        inverse_spec(q) == Some(p),
{
}

/// Every catalogue name is two to sixteen characters of lowercase text.
pub proof fn lemma_name_wf(p: Primitive)
    ensures
        2 <= name_spec(p).len() <= 16,
        !crate::strutil::contains_upper(name_spec(p)),
{
    match p {
        Primitive::Dup => {
            reveal_strlit("duplicate");
            assert(crate::strutil::no_upper_upto(name_spec(p), 9)) by {
                reveal_with_fuel(crate::strutil::no_upper_upto, 10);
            }
            crate::strutil::lemma_no_upper(name_spec(p), 9);
        },
        Primitive::Over => {
            reveal_strlit("over");
            assert(crate::strutil::no_upper_upto(name_spec(p), 4)) by {
                reveal_with_fuel(crate::strutil::no_upper_upto, 5);
            }
            crate::strutil::lemma_no_upper(name_spec(p), 4);
        },
        Primitive::Flip => {
            reveal_strlit("flip");
            assert(crate::strutil::no_upper_upto(name_spec(p), 4)) by {
                reveal_with_fuel(crate::strutil::no_upper_upto, 5);
            }
            crate::strutil::lemma_no_upper(name_spec(p), 4);
        },
        Primitive::Pop => {
            reveal_strlit("pop");
            assert(crate::strutil::no_upper_upto(name_spec(p), 3)) by {
                reveal_with_fuel(crate::strutil::no_upper_upto, 4);
            }
            crate::strutil::lemma_no_upper(name_spec(p), 3);
        },
        Primitive::Save => {
            reveal_strlit("save");
            assert(crate::strutil::no_upper_upto(name_spec(p), 4)) by {
                reveal_with_fuel(crate::strutil::no_upper_upto, 5);
            }
            crate::strutil::lemma_no_upper(name_spec(p), 4);
        },
        Primitive::Load => {
            reveal_strlit("load");
            assert(crate::strutil::no_upper_upto(name_spec(p), 4)) by {
                reveal_with_fuel(crate::strutil::no_upper_upto, 5);
            }
            crate::strutil::lemma_no_upper(name_spec(p), 4);
        },
        Primitive::Identity => {
            reveal_strlit("identity");
            assert(crate::strutil::no_upper_upto(name_spec(p), 8)) by {
                reveal_with_fuel(crate::strutil::no_upper_upto, 9);
            }
            crate::strutil::lemma_no_upper(name_spec(p), 8);
        },
        Primitive::Dip => {
            reveal_strlit("dip");
            assert(crate::strutil::no_upper_upto(name_spec(p), 3)) by {
                reveal_with_fuel(crate::strutil::no_upper_upto, 4);
            }
            crate::strutil::lemma_no_upper(name_spec(p), 3);
        },
        Primitive::Gap => {
            reveal_strlit("gap");
            assert(crate::strutil::no_upper_upto(name_spec(p), 3)) by {
                reveal_with_fuel(crate::strutil::no_upper_upto, 4);
            }
            crate::strutil::lemma_no_upper(name_spec(p), 3);
        },
        Primitive::Fork => {
            reveal_strlit("fork");
            assert(crate::strutil::no_upper_upto(name_spec(p), 4)) by {
                reveal_with_fuel(crate::strutil::no_upper_upto, 5);
            }
            crate::strutil::lemma_no_upper(name_spec(p), 4);
        },
        Primitive::Both => {
            reveal_strlit("both");
            assert(crate::strutil::no_upper_upto(name_spec(p), 4)) by {
                reveal_with_fuel(crate::strutil::no_upper_upto, 5);
            }
            crate::strutil::lemma_no_upper(name_spec(p), 4);
        },
        Primitive::Bracket => {
            reveal_strlit("bracket");
            assert(crate::strutil::no_upper_upto(name_spec(p), 7)) by {
                reveal_with_fuel(crate::strutil::no_upper_upto, 8);
            }
            crate::strutil::lemma_no_upper(name_spec(p), 7);
        },
        Primitive::Eta => {
            reveal_strlit("eta");
            assert(crate::strutil::no_upper_upto(name_spec(p), 3)) by {
                reveal_with_fuel(crate::strutil::no_upper_upto, 4);
            }
            crate::strutil::lemma_no_upper(name_spec(p), 3);
        },
        Primitive::Pi => {
            reveal_strlit("pi");
            assert(crate::strutil::no_upper_upto(name_spec(p), 2)) by {
                reveal_with_fuel(crate::strutil::no_upper_upto, 3);
            }
            crate::strutil::lemma_no_upper(name_spec(p), 2);
        },
        Primitive::Tau => {
            reveal_strlit("tau");
            assert(crate::strutil::no_upper_upto(name_spec(p), 3)) by {
                reveal_with_fuel(crate::strutil::no_upper_upto, 4);
            }
            crate::strutil::lemma_no_upper(name_spec(p), 3);
        },
        Primitive::Infinity => {
            reveal_strlit("infinity");
            assert(crate::strutil::no_upper_upto(name_spec(p), 8)) by {
                reveal_with_fuel(crate::strutil::no_upper_upto, 9);
            }
            crate::strutil::lemma_no_upper(name_spec(p), 8);
        },
        Primitive::Not => {
            reveal_strlit("not");
            assert(crate::strutil::no_upper_upto(name_spec(p), 3)) by {
                reveal_with_fuel(crate::strutil::no_upper_upto, 4);
            }
            crate::strutil::lemma_no_upper(name_spec(p), 3);
        },
        Primitive::Sign => {
            reveal_strlit("sign");
            assert(crate::strutil::no_upper_upto(name_spec(p), 4)) by {
                reveal_with_fuel(crate::strutil::no_upper_upto, 5);
            }
            crate::strutil::lemma_no_upper(name_spec(p), 4);
        },
        Primitive::Neg => {
            reveal_strlit("negate");
            assert(crate::strutil::no_upper_upto(name_spec(p), 6)) by {
                reveal_with_fuel(crate::strutil::no_upper_upto, 7);
            }
            crate::strutil::lemma_no_upper(name_spec(p), 6);
        },
        Primitive::Abs => {
            reveal_strlit("absolute value");
            assert(crate::strutil::no_upper_upto(name_spec(p), 14)) by {
                reveal_with_fuel(crate::strutil::no_upper_upto, 15);
            }
            crate::strutil::lemma_no_upper(name_spec(p), 14);
        },
        Primitive::Sqrt => {
            reveal_strlit("sqrt");
            assert(crate::strutil::no_upper_upto(name_spec(p), 4)) by {
                reveal_with_fuel(crate::strutil::no_upper_upto, 5);
            }
            crate::strutil::lemma_no_upper(name_spec(p), 4);
        },
        Primitive::Sin => {
            reveal_strlit("sine");
            assert(crate::strutil::no_upper_upto(name_spec(p), 4)) by {
                reveal_with_fuel(crate::strutil::no_upper_upto, 5);
            }
            crate::strutil::lemma_no_upper(name_spec(p), 4);
        },
        Primitive::Floor => {
            reveal_strlit("floor");
            assert(crate::strutil::no_upper_upto(name_spec(p), 5)) by {
                reveal_with_fuel(crate::strutil::no_upper_upto, 6);
            }
            crate::strutil::lemma_no_upper(name_spec(p), 5);
        },
        Primitive::Ceil => {
            reveal_strlit("ceiling");
            assert(crate::strutil::no_upper_upto(name_spec(p), 7)) by {
                reveal_with_fuel(crate::strutil::no_upper_upto, 8);
            }
            crate::strutil::lemma_no_upper(name_spec(p), 7);
        },
        Primitive::Round => {
            reveal_strlit("round");
            assert(crate::strutil::no_upper_upto(name_spec(p), 5)) by {
                reveal_with_fuel(crate::strutil::no_upper_upto, 6);
            }
            crate::strutil::lemma_no_upper(name_spec(p), 5);
        },
        Primitive::Eq => {
            reveal_strlit("equals");
            assert(crate::strutil::no_upper_upto(name_spec(p), 6)) by {
                reveal_with_fuel(crate::strutil::no_upper_upto, 7);
            }
            crate::strutil::lemma_no_upper(name_spec(p), 6);
        },
        Primitive::Ne => {
            reveal_strlit("not equals");
            assert(crate::strutil::no_upper_upto(name_spec(p), 10)) by {
                reveal_with_fuel(crate::strutil::no_upper_upto, 11);
            }
            crate::strutil::lemma_no_upper(name_spec(p), 10);
        },
        Primitive::Lt => {
            reveal_strlit("less than");
            assert(crate::strutil::no_upper_upto(name_spec(p), 9)) by {
                reveal_with_fuel(crate::strutil::no_upper_upto, 10);
            }
            crate::strutil::lemma_no_upper(name_spec(p), 9);
        },
        Primitive::Le => {
            reveal_strlit("less or equal");
            assert(crate::strutil::no_upper_upto(name_spec(p), 13)) by {
                reveal_with_fuel(crate::strutil::no_upper_upto, 14);
            }
            crate::strutil::lemma_no_upper(name_spec(p), 13);
        },
        Primitive::Gt => {
            reveal_strlit("greater than");
            assert(crate::strutil::no_upper_upto(name_spec(p), 12)) by {
                reveal_with_fuel(crate::strutil::no_upper_upto, 13);
            }
            crate::strutil::lemma_no_upper(name_spec(p), 12);
        },
        Primitive::Ge => {
            reveal_strlit("greater or equal");
            assert(crate::strutil::no_upper_upto(name_spec(p), 16)) by {
                reveal_with_fuel(crate::strutil::no_upper_upto, 17);
            }
            crate::strutil::lemma_no_upper(name_spec(p), 16);
        },
        Primitive::Add => {
            reveal_strlit("add");
            assert(crate::strutil::no_upper_upto(name_spec(p), 3)) by {
                reveal_with_fuel(crate::strutil::no_upper_upto, 4);
            }
            crate::strutil::lemma_no_upper(name_spec(p), 3);
        },
        Primitive::Sub => {
            reveal_strlit("subtract");
            assert(crate::strutil::no_upper_upto(name_spec(p), 8)) by {
                reveal_with_fuel(crate::strutil::no_upper_upto, 9);
            }
            crate::strutil::lemma_no_upper(name_spec(p), 8);
        },
        Primitive::Mul => {
            reveal_strlit("multiply");
            assert(crate::strutil::no_upper_upto(name_spec(p), 8)) by {
                reveal_with_fuel(crate::strutil::no_upper_upto, 9);
            }
            crate::strutil::lemma_no_upper(name_spec(p), 8);
        },
        Primitive::Div => {
            reveal_strlit("divide");
            assert(crate::strutil::no_upper_upto(name_spec(p), 6)) by {
                reveal_with_fuel(crate::strutil::no_upper_upto, 7);
            }
            crate::strutil::lemma_no_upper(name_spec(p), 6);
        },
        Primitive::Mod => {
            reveal_strlit("modulus");
            assert(crate::strutil::no_upper_upto(name_spec(p), 7)) by {
                reveal_with_fuel(crate::strutil::no_upper_upto, 8);
            }
            crate::strutil::lemma_no_upper(name_spec(p), 7);
        },
        Primitive::Pow => {
            reveal_strlit("power");
            assert(crate::strutil::no_upper_upto(name_spec(p), 5)) by {
                reveal_with_fuel(crate::strutil::no_upper_upto, 6);
            }
            crate::strutil::lemma_no_upper(name_spec(p), 5);
        },
        Primitive::Log => {
            reveal_strlit("logarithm");
            assert(crate::strutil::no_upper_upto(name_spec(p), 9)) by {
                reveal_with_fuel(crate::strutil::no_upper_upto, 10);
            }
            crate::strutil::lemma_no_upper(name_spec(p), 9);
        },
        Primitive::Min => {
            reveal_strlit("minimum");
            assert(crate::strutil::no_upper_upto(name_spec(p), 7)) by {
                reveal_with_fuel(crate::strutil::no_upper_upto, 8);
            }
            crate::strutil::lemma_no_upper(name_spec(p), 7);
        },
        Primitive::Max => {
            reveal_strlit("maximum");
            assert(crate::strutil::no_upper_upto(name_spec(p), 7)) by {
                reveal_with_fuel(crate::strutil::no_upper_upto, 8);
            }
            crate::strutil::lemma_no_upper(name_spec(p), 7);
        },
        Primitive::Atan => {
            reveal_strlit("atangent");
            assert(crate::strutil::no_upper_upto(name_spec(p), 8)) by {
                reveal_with_fuel(crate::strutil::no_upper_upto, 9);
            }
            crate::strutil::lemma_no_upper(name_spec(p), 8);
        },
        Primitive::Complex => {
            reveal_strlit("complex");
            assert(crate::strutil::no_upper_upto(name_spec(p), 7)) by {
                reveal_with_fuel(crate::strutil::no_upper_upto, 8);
            }
            crate::strutil::lemma_no_upper(name_spec(p), 7);
        },
        Primitive::Len => {
            reveal_strlit("length");
            assert(crate::strutil::no_upper_upto(name_spec(p), 6)) by {
                reveal_with_fuel(crate::strutil::no_upper_upto, 7);
            }
            crate::strutil::lemma_no_upper(name_spec(p), 6);
        },
        Primitive::Shape => {
            reveal_strlit("shape");
            assert(crate::strutil::no_upper_upto(name_spec(p), 5)) by {
                reveal_with_fuel(crate::strutil::no_upper_upto, 6);
            }
            crate::strutil::lemma_no_upper(name_spec(p), 5);
        },
        Primitive::Range => {
            reveal_strlit("range");
            assert(crate::strutil::no_upper_upto(name_spec(p), 5)) by {
                reveal_with_fuel(crate::strutil::no_upper_upto, 6);
            }
            crate::strutil::lemma_no_upper(name_spec(p), 5);
        },
        Primitive::First => {
            reveal_strlit("first");
            assert(crate::strutil::no_upper_upto(name_spec(p), 5)) by {
                reveal_with_fuel(crate::strutil::no_upper_upto, 6);
            }
            crate::strutil::lemma_no_upper(name_spec(p), 5);
        },
        Primitive::Reverse => {
            reveal_strlit("reverse");
            assert(crate::strutil::no_upper_upto(name_spec(p), 7)) by {
                reveal_with_fuel(crate::strutil::no_upper_upto, 8);
            }
            crate::strutil::lemma_no_upper(name_spec(p), 7);
        },
        Primitive::Deshape => {
            reveal_strlit("deshape");
            assert(crate::strutil::no_upper_upto(name_spec(p), 7)) by {
                reveal_with_fuel(crate::strutil::no_upper_upto, 8);
            }
            crate::strutil::lemma_no_upper(name_spec(p), 7);
        },
        Primitive::Bits => {
            reveal_strlit("bits");
            assert(crate::strutil::no_upper_upto(name_spec(p), 4)) by {
                reveal_with_fuel(crate::strutil::no_upper_upto, 5);
            }
            crate::strutil::lemma_no_upper(name_spec(p), 4);
        },
        Primitive::Transpose => {
            reveal_strlit("transpose");
            assert(crate::strutil::no_upper_upto(name_spec(p), 9)) by {
                reveal_with_fuel(crate::strutil::no_upper_upto, 10);
            }
            crate::strutil::lemma_no_upper(name_spec(p), 9);
        },
        Primitive::Rise => {
            reveal_strlit("rise");
            assert(crate::strutil::no_upper_upto(name_spec(p), 4)) by {
                reveal_with_fuel(crate::strutil::no_upper_upto, 5);
            }
            crate::strutil::lemma_no_upper(name_spec(p), 4);
        },
        Primitive::Fall => {
            reveal_strlit("fall");
            assert(crate::strutil::no_upper_upto(name_spec(p), 4)) by {
                reveal_with_fuel(crate::strutil::no_upper_upto, 5);
            }
            crate::strutil::lemma_no_upper(name_spec(p), 4);
        },
        Primitive::Where => {
            reveal_strlit("where");
            assert(crate::strutil::no_upper_upto(name_spec(p), 5)) by {
                reveal_with_fuel(crate::strutil::no_upper_upto, 6);
            }
            crate::strutil::lemma_no_upper(name_spec(p), 5);
        },
        Primitive::Classify => {
            reveal_strlit("classify");
            assert(crate::strutil::no_upper_upto(name_spec(p), 8)) by {
                reveal_with_fuel(crate::strutil::no_upper_upto, 9);
            }
            crate::strutil::lemma_no_upper(name_spec(p), 8);
        },
        Primitive::Deduplicate => {
            reveal_strlit("deduplicate");
            assert(crate::strutil::no_upper_upto(name_spec(p), 11)) by {
                reveal_with_fuel(crate::strutil::no_upper_upto, 12);
            }
            crate::strutil::lemma_no_upper(name_spec(p), 11);
        },
        Primitive::Unique => {
            reveal_strlit("unique");
            assert(crate::strutil::no_upper_upto(name_spec(p), 6)) by {
                reveal_with_fuel(crate::strutil::no_upper_upto, 7);
            }
            crate::strutil::lemma_no_upper(name_spec(p), 6);
        },
        Primitive::Box => {
            reveal_strlit("box");
            assert(crate::strutil::no_upper_upto(name_spec(p), 3)) by {
                reveal_with_fuel(crate::strutil::no_upper_upto, 4);
            }
            crate::strutil::lemma_no_upper(name_spec(p), 3);
        },
        Primitive::Parse => {
            reveal_strlit("parse");
            assert(crate::strutil::no_upper_upto(name_spec(p), 5)) by {
                reveal_with_fuel(crate::strutil::no_upper_upto, 6);
            }
            crate::strutil::lemma_no_upper(name_spec(p), 5);
        },
        Primitive::Utf => {
            reveal_strlit("utf");
            assert(crate::strutil::no_upper_upto(name_spec(p), 3)) by {
                reveal_with_fuel(crate::strutil::no_upper_upto, 4);
            }
            crate::strutil::lemma_no_upper(name_spec(p), 3);
        },
        Primitive::Fix => {
            reveal_strlit("fix");
            assert(crate::strutil::no_upper_upto(name_spec(p), 3)) by {
                reveal_with_fuel(crate::strutil::no_upper_upto, 4);
            }
            crate::strutil::lemma_no_upper(name_spec(p), 3);
        },
        Primitive::Match => {
            reveal_strlit("match");
            assert(crate::strutil::no_upper_upto(name_spec(p), 5)) by {
                reveal_with_fuel(crate::strutil::no_upper_upto, 6);
            }
            crate::strutil::lemma_no_upper(name_spec(p), 5);
        },
        Primitive::Couple => {
            reveal_strlit("couple");
            assert(crate::strutil::no_upper_upto(name_spec(p), 6)) by {
                reveal_with_fuel(crate::strutil::no_upper_upto, 7);
            }
            crate::strutil::lemma_no_upper(name_spec(p), 6);
        },
        Primitive::Join => {
            reveal_strlit("join");
            assert(crate::strutil::no_upper_upto(name_spec(p), 4)) by {
                reveal_with_fuel(crate::strutil::no_upper_upto, 5);
            }
            crate::strutil::lemma_no_upper(name_spec(p), 4);
        },
        Primitive::Pick => {
            reveal_strlit("pick");
            assert(crate::strutil::no_upper_upto(name_spec(p), 4)) by {
                reveal_with_fuel(crate::strutil::no_upper_upto, 5);
            }
            crate::strutil::lemma_no_upper(name_spec(p), 4);
        },
        Primitive::Select => {
            reveal_strlit("select");
            assert(crate::strutil::no_upper_upto(name_spec(p), 6)) by {
                reveal_with_fuel(crate::strutil::no_upper_upto, 7);
            }
            crate::strutil::lemma_no_upper(name_spec(p), 6);
        },
        Primitive::Take => {
            reveal_strlit("take");
            assert(crate::strutil::no_upper_upto(name_spec(p), 4)) by {
                reveal_with_fuel(crate::strutil::no_upper_upto, 5);
            }
            crate::strutil::lemma_no_upper(name_spec(p), 4);
        },
        Primitive::Drop => {
            reveal_strlit("drop");
            assert(crate::strutil::no_upper_upto(name_spec(p), 4)) by {
                reveal_with_fuel(crate::strutil::no_upper_upto, 5);
            }
            crate::strutil::lemma_no_upper(name_spec(p), 4);
        },
        Primitive::Reshape => {
            reveal_strlit("reshape");
            assert(crate::strutil::no_upper_upto(name_spec(p), 7)) by {
                reveal_with_fuel(crate::strutil::no_upper_upto, 8);
            }
            crate::strutil::lemma_no_upper(name_spec(p), 7);
        },
        Primitive::Rerank => {
            reveal_strlit("rerank");
            assert(crate::strutil::no_upper_upto(name_spec(p), 6)) by {
                reveal_with_fuel(crate::strutil::no_upper_upto, 7);
            }
            crate::strutil::lemma_no_upper(name_spec(p), 6);
        },
        Primitive::Rotate => {
            reveal_strlit("rotate");
            assert(crate::strutil::no_upper_upto(name_spec(p), 6)) by {
                reveal_with_fuel(crate::strutil::no_upper_upto, 7);
            }
            crate::strutil::lemma_no_upper(name_spec(p), 6);
        },
        Primitive::Windows => {
            reveal_strlit("windows");
            assert(crate::strutil::no_upper_upto(name_spec(p), 7)) by {
                reveal_with_fuel(crate::strutil::no_upper_upto, 8);
            }
            crate::strutil::lemma_no_upper(name_spec(p), 7);
        },
        Primitive::Keep => {
            reveal_strlit("keep");
            assert(crate::strutil::no_upper_upto(name_spec(p), 4)) by {
                reveal_with_fuel(crate::strutil::no_upper_upto, 5);
            }
            crate::strutil::lemma_no_upper(name_spec(p), 4);
        },
        Primitive::Find => {
            reveal_strlit("find");
            assert(crate::strutil::no_upper_upto(name_spec(p), 4)) by {
                reveal_with_fuel(crate::strutil::no_upper_upto, 5);
            }
            crate::strutil::lemma_no_upper(name_spec(p), 4);
        },
        Primitive::Member => {
            reveal_strlit("member");
            assert(crate::strutil::no_upper_upto(name_spec(p), 6)) by {
                reveal_with_fuel(crate::strutil::no_upper_upto, 7);
            }
            crate::strutil::lemma_no_upper(name_spec(p), 6);
        },
        Primitive::IndexOf => {
            reveal_strlit("indexof");
            assert(crate::strutil::no_upper_upto(name_spec(p), 7)) by {
                reveal_with_fuel(crate::strutil::no_upper_upto, 8);
            }
            crate::strutil::lemma_no_upper(name_spec(p), 7);
        },
        Primitive::Replicate => {
            reveal_strlit("replicate");
            assert(crate::strutil::no_upper_upto(name_spec(p), 9)) by {
                reveal_with_fuel(crate::strutil::no_upper_upto, 10);
            }
            crate::strutil::lemma_no_upper(name_spec(p), 9);
        },
        Primitive::Each => {
            reveal_strlit("each");
            assert(crate::strutil::no_upper_upto(name_spec(p), 4)) by {
                reveal_with_fuel(crate::strutil::no_upper_upto, 5);
            }
            crate::strutil::lemma_no_upper(name_spec(p), 4);
        },
        Primitive::Rows => {
            reveal_strlit("rows");
            assert(crate::strutil::no_upper_upto(name_spec(p), 4)) by {
                reveal_with_fuel(crate::strutil::no_upper_upto, 5);
            }
            crate::strutil::lemma_no_upper(name_spec(p), 4);
        },
        Primitive::Table => {
            reveal_strlit("table");
            assert(crate::strutil::no_upper_upto(name_spec(p), 5)) by {
                reveal_with_fuel(crate::strutil::no_upper_upto, 6);
            }
            crate::strutil::lemma_no_upper(name_spec(p), 5);
        },
        Primitive::Cross => {
            reveal_strlit("cross");
            assert(crate::strutil::no_upper_upto(name_spec(p), 5)) by {
                reveal_with_fuel(crate::strutil::no_upper_upto, 6);
            }
            crate::strutil::lemma_no_upper(name_spec(p), 5);
        },
        Primitive::Repeat => {
            reveal_strlit("repeat");
            assert(crate::strutil::no_upper_upto(name_spec(p), 6)) by {
                reveal_with_fuel(crate::strutil::no_upper_upto, 7);
            }
            crate::strutil::lemma_no_upper(name_spec(p), 6);
        },
        Primitive::Do => {
            reveal_strlit("do");
            assert(crate::strutil::no_upper_upto(name_spec(p), 2)) by {
                reveal_with_fuel(crate::strutil::no_upper_upto, 3);
            }
            crate::strutil::lemma_no_upper(name_spec(p), 2);
        },
        Primitive::All => {
            reveal_strlit("all");
            assert(crate::strutil::no_upper_upto(name_spec(p), 3)) by {
                reveal_with_fuel(crate::strutil::no_upper_upto, 4);
            }
            crate::strutil::lemma_no_upper(name_spec(p), 3);
        },
        Primitive::Reduce => {
            reveal_strlit("reduce");
            assert(crate::strutil::no_upper_upto(name_spec(p), 6)) by {
                reveal_with_fuel(crate::strutil::no_upper_upto, 7);
            }
            crate::strutil::lemma_no_upper(name_spec(p), 6);
        },
        Primitive::Fold => {
            reveal_strlit("fold");
            assert(crate::strutil::no_upper_upto(name_spec(p), 4)) by {
                reveal_with_fuel(crate::strutil::no_upper_upto, 5);
            }
            crate::strutil::lemma_no_upper(name_spec(p), 4);
        },
        Primitive::Scan => {
            reveal_strlit("scan");
            assert(crate::strutil::no_upper_upto(name_spec(p), 4)) by {
                reveal_with_fuel(crate::strutil::no_upper_upto, 5);
            }
            crate::strutil::lemma_no_upper(name_spec(p), 4);
        },
        Primitive::Group => {
            reveal_strlit("group");
            assert(crate::strutil::no_upper_upto(name_spec(p), 5)) by {
                reveal_with_fuel(crate::strutil::no_upper_upto, 6);
            }
            crate::strutil::lemma_no_upper(name_spec(p), 5);
        },
        Primitive::Partition => {
            reveal_strlit("partition");
            assert(crate::strutil::no_upper_upto(name_spec(p), 9)) by {
                reveal_with_fuel(crate::strutil::no_upper_upto, 10);
            }
            crate::strutil::lemma_no_upper(name_spec(p), 9);
        },
        Primitive::Un => {
            reveal_strlit("un");
            assert(crate::strutil::no_upper_upto(name_spec(p), 2)) by {
                reveal_with_fuel(crate::strutil::no_upper_upto, 3);
            }
            crate::strutil::lemma_no_upper(name_spec(p), 2);
        },
        Primitive::Under => {
            reveal_strlit("under");
            assert(crate::strutil::no_upper_upto(name_spec(p), 5)) by {
                reveal_with_fuel(crate::strutil::no_upper_upto, 6);
            }
            crate::strutil::lemma_no_upper(name_spec(p), 5);
        },
        Primitive::SetInverse => {
            reveal_strlit("setinv");
            assert(crate::strutil::no_upper_upto(name_spec(p), 6)) by {
                reveal_with_fuel(crate::strutil::no_upper_upto, 7);
            }
            crate::strutil::lemma_no_upper(name_spec(p), 6);
        },
        Primitive::SetUnder => {
            reveal_strlit("setund");
            assert(crate::strutil::no_upper_upto(name_spec(p), 6)) by {
                reveal_with_fuel(crate::strutil::no_upper_upto, 7);
            }
            crate::strutil::lemma_no_upper(name_spec(p), 6);
        },
        Primitive::Rectify => {
            reveal_strlit("rectify");
            assert(crate::strutil::no_upper_upto(name_spec(p), 7)) by {
                reveal_with_fuel(crate::strutil::no_upper_upto, 8);
            }
            crate::strutil::lemma_no_upper(name_spec(p), 7);
        },
        Primitive::Bind => {
            reveal_strlit("bind");
            assert(crate::strutil::no_upper_upto(name_spec(p), 4)) by {
                reveal_with_fuel(crate::strutil::no_upper_upto, 5);
            }
            crate::strutil::lemma_no_upper(name_spec(p), 4);
        },
        Primitive::Content => {
            reveal_strlit("content");
            assert(crate::strutil::no_upper_upto(name_spec(p), 7)) by {
                reveal_with_fuel(crate::strutil::no_upper_upto, 8);
            }
            crate::strutil::lemma_no_upper(name_spec(p), 7);
        },
        Primitive::Unpack => {
            reveal_strlit("unpack");
            assert(crate::strutil::no_upper_upto(name_spec(p), 6)) by {
                reveal_with_fuel(crate::strutil::no_upper_upto, 7);
            }
            crate::strutil::lemma_no_upper(name_spec(p), 6);
        },
        Primitive::Fill => {
            reveal_strlit("fill");
            assert(crate::strutil::no_upper_upto(name_spec(p), 4)) by {
                reveal_with_fuel(crate::strutil::no_upper_upto, 5);
            }
            crate::strutil::lemma_no_upper(name_spec(p), 4);
        },
        Primitive::Comptime => {
            reveal_strlit("comptime");
            assert(crate::strutil::no_upper_upto(name_spec(p), 8)) by {
                reveal_with_fuel(crate::strutil::no_upper_upto, 9);
            }
            crate::strutil::lemma_no_upper(name_spec(p), 8);
        },
        Primitive::Memo => {
            reveal_strlit("memo");
            assert(crate::strutil::no_upper_upto(name_spec(p), 4)) by {
                reveal_with_fuel(crate::strutil::no_upper_upto, 5);
            }
            crate::strutil::lemma_no_upper(name_spec(p), 4);
        },
        Primitive::Spawn => {
            reveal_strlit("spawn");
            assert(crate::strutil::no_upper_upto(name_spec(p), 5)) by {
                reveal_with_fuel(crate::strutil::no_upper_upto, 6);
            }
            crate::strutil::lemma_no_upper(name_spec(p), 5);
        },
        Primitive::Try => {
            reveal_strlit("try");
            assert(crate::strutil::no_upper_upto(name_spec(p), 3)) by {
                reveal_with_fuel(crate::strutil::no_upper_upto, 4);
            }
            crate::strutil::lemma_no_upper(name_spec(p), 3);
        },
        Primitive::This => {
            reveal_strlit("this");
            assert(crate::strutil::no_upper_upto(name_spec(p), 4)) by {
                reveal_with_fuel(crate::strutil::no_upper_upto, 5);
            }
            crate::strutil::lemma_no_upper(name_spec(p), 4);
        },
        Primitive::Recur => {
            reveal_strlit("recur");
            assert(crate::strutil::no_upper_upto(name_spec(p), 5)) by {
                reveal_with_fuel(crate::strutil::no_upper_upto, 6);
            }
            crate::strutil::lemma_no_upper(name_spec(p), 5);
        },
        Primitive::Cascade => {
            reveal_strlit("cascade");
            assert(crate::strutil::no_upper_upto(name_spec(p), 7)) by {
                reveal_with_fuel(crate::strutil::no_upper_upto, 8);
            }
            crate::strutil::lemma_no_upper(name_spec(p), 7);
        },
        Primitive::Dump => {
            reveal_strlit("dump");
            assert(crate::strutil::no_upper_upto(name_spec(p), 4)) by {
                reveal_with_fuel(crate::strutil::no_upper_upto, 5);
            }
            crate::strutil::lemma_no_upper(name_spec(p), 4);
        },
        Primitive::MakeMap => {
            reveal_strlit("map");
            assert(crate::strutil::no_upper_upto(name_spec(p), 3)) by {
                reveal_with_fuel(crate::strutil::no_upper_upto, 4);
            }
            crate::strutil::lemma_no_upper(name_spec(p), 3);
        },
        Primitive::Insert => {
            reveal_strlit("insert");
            assert(crate::strutil::no_upper_upto(name_spec(p), 6)) by {
                reveal_with_fuel(crate::strutil::no_upper_upto, 7);
            }
            crate::strutil::lemma_no_upper(name_spec(p), 6);
        },
        Primitive::Has => {
            reveal_strlit("has");
            assert(crate::strutil::no_upper_upto(name_spec(p), 3)) by {
                reveal_with_fuel(crate::strutil::no_upper_upto, 4);
            }
            crate::strutil::lemma_no_upper(name_spec(p), 3);
        },
        Primitive::Get => {
            reveal_strlit("get");
            assert(crate::strutil::no_upper_upto(name_spec(p), 3)) by {
                reveal_with_fuel(crate::strutil::no_upper_upto, 4);
            }
            crate::strutil::lemma_no_upper(name_spec(p), 3);
        },
        Primitive::Remove => {
            reveal_strlit("remove");
            assert(crate::strutil::no_upper_upto(name_spec(p), 6)) by {
                reveal_with_fuel(crate::strutil::no_upper_upto, 7);
            }
            crate::strutil::lemma_no_upper(name_spec(p), 6);
        },
        Primitive::Assert => {
            reveal_strlit("assert");
            assert(crate::strutil::no_upper_upto(name_spec(p), 6)) by {
                reveal_with_fuel(crate::strutil::no_upper_upto, 7);
            }
            crate::strutil::lemma_no_upper(name_spec(p), 6);
        },
        Primitive::Rand => {
            reveal_strlit("rand");
            assert(crate::strutil::no_upper_upto(name_spec(p), 4)) by {
                reveal_with_fuel(crate::strutil::no_upper_upto, 5);
            }
            crate::strutil::lemma_no_upper(name_spec(p), 4);
        },
        Primitive::Gen => {
            reveal_strlit("gen");
            assert(crate::strutil::no_upper_upto(name_spec(p), 3)) by {
                reveal_with_fuel(crate::strutil::no_upper_upto, 4);
            }
            crate::strutil::lemma_no_upper(name_spec(p), 3);
        },
        Primitive::Deal => {
            reveal_strlit("deal");
            assert(crate::strutil::no_upper_upto(name_spec(p), 4)) by {
                reveal_with_fuel(crate::strutil::no_upper_upto, 5);
            }
            crate::strutil::lemma_no_upper(name_spec(p), 4);
        },
        Primitive::Tag => {
            reveal_strlit("tag");
            assert(crate::strutil::no_upper_upto(name_spec(p), 3)) by {
                reveal_with_fuel(crate::strutil::no_upper_upto, 4);
            }
            crate::strutil::lemma_no_upper(name_spec(p), 3);
        },
        Primitive::Type => {
            reveal_strlit("type");
            assert(crate::strutil::no_upper_upto(name_spec(p), 4)) by {
                reveal_with_fuel(crate::strutil::no_upper_upto, 5);
            }
            crate::strutil::lemma_no_upper(name_spec(p), 4);
        },
        Primitive::Now => {
            reveal_strlit("now");
            assert(crate::strutil::no_upper_upto(name_spec(p), 3)) by {
                reveal_with_fuel(crate::strutil::no_upper_upto, 4);
            }
            crate::strutil::lemma_no_upper(name_spec(p), 3);
        },
        Primitive::Regex => {
            reveal_strlit("regex");
            assert(crate::strutil::no_upper_upto(name_spec(p), 5)) by {
                reveal_with_fuel(crate::strutil::no_upper_upto, 6);
            }
            crate::strutil::lemma_no_upper(name_spec(p), 5);
        },
        Primitive::Trace => {
            reveal_strlit("trace");
            assert(crate::strutil::no_upper_upto(name_spec(p), 5)) by {
                reveal_with_fuel(crate::strutil::no_upper_upto, 6);
            }
            crate::strutil::lemma_no_upper(name_spec(p), 5);
        },
        Primitive::Stack => {
            reveal_strlit("stack");
            assert(crate::strutil::no_upper_upto(name_spec(p), 5)) by {
                reveal_with_fuel(crate::strutil::no_upper_upto, 6);
            }
            crate::strutil::lemma_no_upper(name_spec(p), 5);
        },
        Primitive::Send => {
            reveal_strlit("send");
            assert(crate::strutil::no_upper_upto(name_spec(p), 4)) by {
                reveal_with_fuel(crate::strutil::no_upper_upto, 5);
            }
            crate::strutil::lemma_no_upper(name_spec(p), 4);
        },
        Primitive::Recv => {
            reveal_strlit("recv");
            assert(crate::strutil::no_upper_upto(name_spec(p), 4)) by {
                reveal_with_fuel(crate::strutil::no_upper_upto, 5);
            }
            crate::strutil::lemma_no_upper(name_spec(p), 4);
        },
        Primitive::TryRecv => {
            reveal_strlit("tryrecv");
            assert(crate::strutil::no_upper_upto(name_spec(p), 7)) by {
                reveal_with_fuel(crate::strutil::no_upper_upto, 8);
            }
            crate::strutil::lemma_no_upper(name_spec(p), 7);
        },
        Primitive::Wait => {
            reveal_strlit("wait");
            assert(crate::strutil::no_upper_upto(name_spec(p), 4)) by {
                reveal_with_fuel(crate::strutil::no_upper_upto, 5);
            }
            crate::strutil::lemma_no_upper(name_spec(p), 4);
        },
    }
}

/// Positions in the catalogue are in bijection with primitives.
pub proof fn lemma_prim_at_index()
    ensures
        forall|j: int| 0 <= j < PRIM_COUNT ==> prim_index(#[trigger] prim_at(j)) == j,
{
}

impl Primitive {
    /// The canonical text name, used by the formatter.
    pub fn name(&self) -> (r: &'static str)
        ensures
            r@ == name_spec(*self),
    {
        match self {
            Primitive::Dup => "duplicate",
            Primitive::Over => "over",
            Primitive::Flip => "flip",
            Primitive::Pop => "pop",
            Primitive::Save => "save",
            Primitive::Load => "load",
            Primitive::Identity => "identity",
            Primitive::Dip => "dip",
            Primitive::Gap => "gap",
            Primitive::Fork => "fork",
            Primitive::Both => "both",
            Primitive::Bracket => "bracket",
            Primitive::Eta => "eta",
            Primitive::Pi => "pi",
            Primitive::Tau => "tau",
            Primitive::Infinity => "infinity",
            Primitive::Not => "not",
            Primitive::Sign => "sign",
            Primitive::Neg => "negate",
            Primitive::Abs => "absolute value",
            Primitive::Sqrt => "sqrt",
            Primitive::Sin => "sine",
            Primitive::Floor => "floor",
            Primitive::Ceil => "ceiling",
            Primitive::Round => "round",
            Primitive::Eq => "equals",
            Primitive::Ne => "not equals",
            Primitive::Lt => "less than",
            Primitive::Le => "less or equal",
            Primitive::Gt => "greater than",
            Primitive::Ge => "greater or equal",
            Primitive::Add => "add",
            Primitive::Sub => "subtract",
            Primitive::Mul => "multiply",
            Primitive::Div => "divide",
            Primitive::Mod => "modulus",
            Primitive::Pow => "power",
            Primitive::Log => "logarithm",
            Primitive::Min => "minimum",
            Primitive::Max => "maximum",
            Primitive::Atan => "atangent",
            Primitive::Complex => "complex",
            Primitive::Len => "length",
            Primitive::Shape => "shape",
            Primitive::Range => "range",
            Primitive::First => "first",
            Primitive::Reverse => "reverse",
            Primitive::Deshape => "deshape",
            Primitive::Bits => "bits",
            Primitive::Transpose => "transpose",
            Primitive::Rise => "rise",
            Primitive::Fall => "fall",
            Primitive::Where => "where",
            Primitive::Classify => "classify",
            Primitive::Deduplicate => "deduplicate",
            Primitive::Unique => "unique",
            Primitive::Box => "box",
            Primitive::Parse => "parse",
            Primitive::Utf => "utf",
            Primitive::Fix => "fix",
            Primitive::Match => "match",
            Primitive::Couple => "couple",
            Primitive::Join => "join",
            Primitive::Pick => "pick",
            Primitive::Select => "select",
            Primitive::Take => "take",
            Primitive::Drop => "drop",
            Primitive::Reshape => "reshape",
            Primitive::Rerank => "rerank",
            Primitive::Rotate => "rotate",
            Primitive::Windows => "windows",
            Primitive::Keep => "keep",
            Primitive::Find => "find",
            Primitive::Member => "member",
            Primitive::IndexOf => "indexof",
            Primitive::Replicate => "replicate",
            Primitive::Each => "each",
            Primitive::Rows => "rows",
            Primitive::Table => "table",
            Primitive::Cross => "cross",
            Primitive::Repeat => "repeat",
            Primitive::Do => "do",
            Primitive::All => "all",
            Primitive::Reduce => "reduce",
            Primitive::Fold => "fold",
            Primitive::Scan => "scan",
            Primitive::Group => "group",
            Primitive::Partition => "partition",
            Primitive::Un => "un",
            Primitive::Under => "under",
            Primitive::SetInverse => "setinv",
            Primitive::SetUnder => "setund",
            Primitive::Rectify => "rectify",
            Primitive::Bind => "bind",
            Primitive::Content => "content",
            Primitive::Unpack => "unpack",
            Primitive::Fill => "fill",
            Primitive::Comptime => "comptime",
            Primitive::Memo => "memo",
            Primitive::Spawn => "spawn",
            Primitive::Try => "try",
            Primitive::This => "this",
            Primitive::Recur => "recur",
            Primitive::Cascade => "cascade",
            Primitive::Dump => "dump",
            Primitive::MakeMap => "map",
            Primitive::Insert => "insert",
            Primitive::Has => "has",
            Primitive::Get => "get",
            Primitive::Remove => "remove",
            Primitive::Assert => "assert",
            Primitive::Rand => "rand",
            Primitive::Gen => "gen",
            Primitive::Deal => "deal",
            Primitive::Tag => "tag",
            Primitive::Type => "type",
            Primitive::Now => "now",
            Primitive::Regex => "regex",
            Primitive::Trace => "trace",
            Primitive::Stack => "stack",
            Primitive::Send => "send",
            Primitive::Recv => "recv",
            Primitive::TryRecv => "tryrecv",
            Primitive::Wait => "wait",
        }
    }

    /// The primitive's glyph, if it has one.
    pub fn glyph(&self) -> (r: Option<char>)
        ensures
            r == glyph_spec(*self),
    {
        match self {
            Primitive::Dup => Some('.'),
            Primitive::Over => Some(','),
            Primitive::Flip => Some('~'),
            Primitive::Pop => Some(';'),
            Primitive::Save => Some('⇟'),
            Primitive::Load => Some('⇞'),
            Primitive::Identity => Some('∘'),
            Primitive::Dip => Some('⊙'),
            Primitive::Gap => Some('⋅'),
            Primitive::Fork => Some('⊃'),
            Primitive::Both => Some('∩'),
            Primitive::Bracket => Some('⊓'),
            Primitive::Eta => Some('η'),
            Primitive::Pi => Some('π'),
            Primitive::Tau => Some('τ'),
            Primitive::Infinity => Some('∞'),
            Primitive::Not => Some('¬'),
            Primitive::Sign => Some('±'),
            Primitive::Neg => Some('¯'),
            Primitive::Abs => Some('⌵'),
            Primitive::Sqrt => Some('√'),
            Primitive::Sin => Some('∿'),
            Primitive::Floor => Some('⌊'),
            Primitive::Ceil => Some('⌈'),
            Primitive::Round => Some('⁅'),
            Primitive::Eq => Some('='),
            Primitive::Ne => Some('≠'),
            Primitive::Lt => Some('<'),
            Primitive::Le => Some('≤'),
            Primitive::Gt => Some('>'),
            Primitive::Ge => Some('≥'),
            Primitive::Add => Some('+'),
            Primitive::Sub => Some('-'),
            Primitive::Mul => Some('×'),
            Primitive::Div => Some('÷'),
            Primitive::Mod => Some('◿'),
            Primitive::Pow => Some('ⁿ'),
            Primitive::Log => Some('ₙ'),
            Primitive::Min => Some('↧'),
            Primitive::Max => Some('↥'),
            Primitive::Atan => Some('∠'),
            Primitive::Complex => Some('ℂ'),
            Primitive::Len => Some('⧻'),
            Primitive::Shape => Some('△'),
            Primitive::Range => Some('⇡'),
            Primitive::First => Some('⊢'),
            Primitive::Reverse => Some('⇌'),
            Primitive::Deshape => Some('♭'),
            Primitive::Bits => Some('⋯'),
            Primitive::Transpose => Some('⍉'),
            Primitive::Rise => Some('⍏'),
            Primitive::Fall => Some('⍖'),
            Primitive::Where => Some('⊚'),
            Primitive::Classify => Some('⊛'),
            Primitive::Deduplicate => Some('⊝'),
            Primitive::Unique => Some('◰'),
            Primitive::Box => Some('□'),
            Primitive::Parse => Some('⋕'),
            Primitive::Utf => None,
            Primitive::Fix => Some('¤'),
            Primitive::Match => Some('≍'),
            Primitive::Couple => Some('⊟'),
            Primitive::Join => Some('⊂'),
            Primitive::Pick => Some('⊡'),
            Primitive::Select => Some('⊏'),
            Primitive::Take => Some('↙'),
            Primitive::Drop => Some('↘'),
            Primitive::Reshape => Some('↯'),
            Primitive::Rerank => Some('☇'),
            Primitive::Rotate => Some('↻'),
            Primitive::Windows => Some('◫'),
            Primitive::Keep => Some('▽'),
            Primitive::Find => Some('⌕'),
            Primitive::Member => Some('∊'),
            Primitive::IndexOf => Some('⊗'),
            Primitive::Replicate => Some('‡'),
            Primitive::Each => Some('∵'),
            Primitive::Rows => Some('≡'),
            Primitive::Table => Some('⊞'),
            Primitive::Cross => Some('⊠'),
            Primitive::Repeat => Some('⍥'),
            Primitive::Do => Some('⍢'),
            Primitive::All => None,
            Primitive::Reduce => Some('/'),
            Primitive::Fold => Some('∧'),
            Primitive::Scan => Some('\\'),
            Primitive::Group => Some('⊕'),
            Primitive::Partition => Some('⊜'),
            Primitive::Un => Some('°'),
            Primitive::Under => Some('⍜'),
            Primitive::SetInverse => None,
            Primitive::SetUnder => None,
            Primitive::Rectify => Some('⌅'),
            Primitive::Bind => None,
            Primitive::Content => Some('◇'),
            Primitive::Unpack => Some('⊐'),
            Primitive::Fill => Some('⬚'),
            Primitive::Comptime => None,
            Primitive::Memo => None,
            Primitive::Spawn => None,
            Primitive::Try => Some('⍣'),
            Primitive::This => None,
            Primitive::Recur => Some('↬'),
            Primitive::Cascade => None,
            Primitive::Dump => None,
            Primitive::MakeMap => None,
            Primitive::Insert => None,
            Primitive::Has => None,
            Primitive::Get => None,
            Primitive::Remove => None,
            Primitive::Assert => Some('⍤'),
            Primitive::Rand => Some('⚂'),
            Primitive::Gen => None,
            Primitive::Deal => None,
            Primitive::Tag => None,
            Primitive::Type => None,
            Primitive::Now => None,
            Primitive::Regex => None,
            Primitive::Trace => Some('⸮'),
            Primitive::Stack => Some('?'),
            Primitive::Send => None,
            Primitive::Recv => None,
            Primitive::TryRecv => None,
            Primitive::Wait => None,
        }
    }

    /// The ASCII token that formats to the primitive, if any.
    pub fn ascii(&self) -> (r: Option<AsciiToken>)
        ensures
            r == ascii_spec(*self),
    {
        match self {
            Primitive::Neg => Some(AsciiToken::Backtick),
            Primitive::Eq => Some(AsciiToken::Equal),
            Primitive::Ne => Some(AsciiToken::BangEqual),
            Primitive::Le => Some(AsciiToken::LessEqual),
            Primitive::Ge => Some(AsciiToken::GreaterEqual),
            Primitive::Mul => Some(AsciiToken::Star),
            Primitive::Div => Some(AsciiToken::Percent),
            _ => None,
        }
    }

    /// The full static metadata record.
    pub fn meta(&self) -> (r: PrimMeta)
        ensures
            r == meta_spec(*self),
    {
        match self {
            Primitive::Dup => (PrimMeta { args: Some(1), outputs: Some(2), antiargs: None, antioutputs: None, modifier_args: None, class: PrimClass::Stack }),
            Primitive::Over => (PrimMeta { args: Some(2), outputs: Some(3), antiargs: None, antioutputs: None, modifier_args: None, class: PrimClass::Stack }),
            Primitive::Flip => (PrimMeta { args: Some(2), outputs: Some(2), antiargs: None, antioutputs: None, modifier_args: None, class: PrimClass::Stack }),
            Primitive::Pop => (PrimMeta { args: Some(1), outputs: Some(0), antiargs: None, antioutputs: None, modifier_args: None, class: PrimClass::Stack }),
            Primitive::Save => (PrimMeta { args: Some(1), outputs: Some(0), antiargs: None, antioutputs: Some(1), modifier_args: None, class: PrimClass::Stack }),
            Primitive::Load => (PrimMeta { args: Some(0), outputs: Some(1), antiargs: Some(1), antioutputs: None, modifier_args: None, class: PrimClass::Stack }),
            Primitive::Identity => (PrimMeta { args: Some(1), outputs: Some(1), antiargs: None, antioutputs: None, modifier_args: None, class: PrimClass::Planet }),
            Primitive::Dip => (PrimMeta { args: None, outputs: None, antiargs: None, antioutputs: None, modifier_args: Some(1), class: PrimClass::Planet }),
            Primitive::Gap => (PrimMeta { args: None, outputs: None, antiargs: None, antioutputs: None, modifier_args: Some(1), class: PrimClass::Planet }),
            Primitive::Fork => (PrimMeta { args: None, outputs: None, antiargs: None, antioutputs: None, modifier_args: Some(2), class: PrimClass::Planet }),
            Primitive::Both => (PrimMeta { args: None, outputs: None, antiargs: None, antioutputs: None, modifier_args: Some(1), class: PrimClass::Planet }),
            Primitive::Bracket => (PrimMeta { args: None, outputs: None, antiargs: None, antioutputs: None, modifier_args: Some(2), class: PrimClass::Planet }),
            Primitive::Eta => (PrimMeta { args: Some(0), outputs: Some(1), antiargs: None, antioutputs: None, modifier_args: None, class: PrimClass::Constant }),
            Primitive::Pi => (PrimMeta { args: Some(0), outputs: Some(1), antiargs: None, antioutputs: None, modifier_args: None, class: PrimClass::Constant }),
            Primitive::Tau => (PrimMeta { args: Some(0), outputs: Some(1), antiargs: None, antioutputs: None, modifier_args: None, class: PrimClass::Constant }),
            Primitive::Infinity => (PrimMeta { args: Some(0), outputs: Some(1), antiargs: None, antioutputs: None, modifier_args: None, class: PrimClass::Constant }),
            Primitive::Not => (PrimMeta { args: Some(1), outputs: Some(1), antiargs: None, antioutputs: None, modifier_args: None, class: PrimClass::MonadicPervasive }),
            Primitive::Sign => (PrimMeta { args: Some(1), outputs: Some(1), antiargs: None, antioutputs: None, modifier_args: None, class: PrimClass::MonadicPervasive }),
            Primitive::Neg => (PrimMeta { args: Some(1), outputs: Some(1), antiargs: None, antioutputs: None, modifier_args: None, class: PrimClass::MonadicPervasive }),
            Primitive::Abs => (PrimMeta { args: Some(1), outputs: Some(1), antiargs: None, antioutputs: None, modifier_args: None, class: PrimClass::MonadicPervasive }),
            Primitive::Sqrt => (PrimMeta { args: Some(1), outputs: Some(1), antiargs: None, antioutputs: None, modifier_args: None, class: PrimClass::MonadicPervasive }),
            Primitive::Sin => (PrimMeta { args: Some(1), outputs: Some(1), antiargs: None, antioutputs: None, modifier_args: None, class: PrimClass::MonadicPervasive }),
            Primitive::Floor => (PrimMeta { args: Some(1), outputs: Some(1), antiargs: None, antioutputs: None, modifier_args: None, class: PrimClass::MonadicPervasive }),
            Primitive::Ceil => (PrimMeta { args: Some(1), outputs: Some(1), antiargs: None, antioutputs: None, modifier_args: None, class: PrimClass::MonadicPervasive }),
            Primitive::Round => (PrimMeta { args: Some(1), outputs: Some(1), antiargs: None, antioutputs: None, modifier_args: None, class: PrimClass::MonadicPervasive }),
            Primitive::Eq => (PrimMeta { args: Some(2), outputs: Some(1), antiargs: None, antioutputs: None, modifier_args: None, class: PrimClass::DyadicPervasive }),
            Primitive::Ne => (PrimMeta { args: Some(2), outputs: Some(1), antiargs: None, antioutputs: None, modifier_args: None, class: PrimClass::DyadicPervasive }),
            Primitive::Lt => (PrimMeta { args: Some(2), outputs: Some(1), antiargs: None, antioutputs: None, modifier_args: None, class: PrimClass::DyadicPervasive }),
            Primitive::Le => (PrimMeta { args: Some(2), outputs: Some(1), antiargs: None, antioutputs: None, modifier_args: None, class: PrimClass::DyadicPervasive }),
            Primitive::Gt => (PrimMeta { args: Some(2), outputs: Some(1), antiargs: None, antioutputs: None, modifier_args: None, class: PrimClass::DyadicPervasive }),
            Primitive::Ge => (PrimMeta { args: Some(2), outputs: Some(1), antiargs: None, antioutputs: None, modifier_args: None, class: PrimClass::DyadicPervasive }),
            Primitive::Add => (PrimMeta { args: Some(2), outputs: Some(1), antiargs: None, antioutputs: None, modifier_args: None, class: PrimClass::DyadicPervasive }),
            Primitive::Sub => (PrimMeta { args: Some(2), outputs: Some(1), antiargs: None, antioutputs: None, modifier_args: None, class: PrimClass::DyadicPervasive }),
            Primitive::Mul => (PrimMeta { args: Some(2), outputs: Some(1), antiargs: None, antioutputs: None, modifier_args: None, class: PrimClass::DyadicPervasive }),
            Primitive::Div => (PrimMeta { args: Some(2), outputs: Some(1), antiargs: None, antioutputs: None, modifier_args: None, class: PrimClass::DyadicPervasive }),
            Primitive::Mod => (PrimMeta { args: Some(2), outputs: Some(1), antiargs: None, antioutputs: None, modifier_args: None, class: PrimClass::DyadicPervasive }),
            Primitive::Pow => (PrimMeta { args: Some(2), outputs: Some(1), antiargs: None, antioutputs: None, modifier_args: None, class: PrimClass::DyadicPervasive }),
            Primitive::Log => (PrimMeta { args: Some(2), outputs: Some(1), antiargs: None, antioutputs: None, modifier_args: None, class: PrimClass::DyadicPervasive }),
            Primitive::Min => (PrimMeta { args: Some(2), outputs: Some(1), antiargs: None, antioutputs: None, modifier_args: None, class: PrimClass::DyadicPervasive }),
            Primitive::Max => (PrimMeta { args: Some(2), outputs: Some(1), antiargs: None, antioutputs: None, modifier_args: None, class: PrimClass::DyadicPervasive }),
            Primitive::Atan => (PrimMeta { args: Some(2), outputs: Some(1), antiargs: None, antioutputs: None, modifier_args: None, class: PrimClass::DyadicPervasive }),
            Primitive::Complex => (PrimMeta { args: Some(2), outputs: Some(1), antiargs: None, antioutputs: None, modifier_args: None, class: PrimClass::DyadicPervasive }),
            Primitive::Len => (PrimMeta { args: Some(1), outputs: Some(1), antiargs: None, antioutputs: None, modifier_args: None, class: PrimClass::MonadicArray }),
            Primitive::Shape => (PrimMeta { args: Some(1), outputs: Some(1), antiargs: None, antioutputs: None, modifier_args: None, class: PrimClass::MonadicArray }),
            Primitive::Range => (PrimMeta { args: Some(1), outputs: Some(1), antiargs: None, antioutputs: None, modifier_args: None, class: PrimClass::MonadicArray }),
            Primitive::First => (PrimMeta { args: Some(1), outputs: Some(1), antiargs: None, antioutputs: None, modifier_args: None, class: PrimClass::MonadicArray }),
            Primitive::Reverse => (PrimMeta { args: Some(1), outputs: Some(1), antiargs: None, antioutputs: None, modifier_args: None, class: PrimClass::MonadicArray }),
            Primitive::Deshape => (PrimMeta { args: Some(1), outputs: Some(1), antiargs: None, antioutputs: None, modifier_args: None, class: PrimClass::MonadicArray }),
            Primitive::Bits => (PrimMeta { args: Some(1), outputs: Some(1), antiargs: None, antioutputs: None, modifier_args: None, class: PrimClass::MonadicArray }),
            Primitive::Transpose => (PrimMeta { args: Some(1), outputs: Some(1), antiargs: None, antioutputs: None, modifier_args: None, class: PrimClass::MonadicArray }),
            Primitive::Rise => (PrimMeta { args: Some(1), outputs: Some(1), antiargs: None, antioutputs: None, modifier_args: None, class: PrimClass::MonadicArray }),
            Primitive::Fall => (PrimMeta { args: Some(1), outputs: Some(1), antiargs: None, antioutputs: None, modifier_args: None, class: PrimClass::MonadicArray }),
            Primitive::Where => (PrimMeta { args: Some(1), outputs: Some(1), antiargs: None, antioutputs: None, modifier_args: None, class: PrimClass::MonadicArray }),
            Primitive::Classify => (PrimMeta { args: Some(1), outputs: Some(1), antiargs: None, antioutputs: None, modifier_args: None, class: PrimClass::MonadicArray }),
            Primitive::Deduplicate => (PrimMeta { args: Some(1), outputs: Some(1), antiargs: None, antioutputs: None, modifier_args: None, class: PrimClass::MonadicArray }),
            Primitive::Unique => (PrimMeta { args: Some(1), outputs: Some(1), antiargs: None, antioutputs: None, modifier_args: None, class: PrimClass::MonadicArray }),
            Primitive::Box => (PrimMeta { args: Some(1), outputs: Some(1), antiargs: None, antioutputs: None, modifier_args: None, class: PrimClass::MonadicArray }),
            Primitive::Parse => (PrimMeta { args: Some(1), outputs: Some(1), antiargs: None, antioutputs: None, modifier_args: None, class: PrimClass::MonadicArray }),
            Primitive::Utf => (PrimMeta { args: Some(1), outputs: Some(1), antiargs: None, antioutputs: None, modifier_args: None, class: PrimClass::MonadicArray }),
            Primitive::Fix => (PrimMeta { args: Some(1), outputs: Some(1), antiargs: None, antioutputs: None, modifier_args: None, class: PrimClass::MonadicArray }),
            Primitive::Match => (PrimMeta { args: Some(2), outputs: Some(1), antiargs: None, antioutputs: None, modifier_args: None, class: PrimClass::DyadicArray }),
            Primitive::Couple => (PrimMeta { args: Some(2), outputs: Some(1), antiargs: None, antioutputs: None, modifier_args: None, class: PrimClass::DyadicArray }),
            Primitive::Join => (PrimMeta { args: Some(2), outputs: Some(1), antiargs: None, antioutputs: None, modifier_args: None, class: PrimClass::DyadicArray }),
            Primitive::Pick => (PrimMeta { args: Some(2), outputs: Some(1), antiargs: None, antioutputs: None, modifier_args: None, class: PrimClass::DyadicArray }),
            Primitive::Select => (PrimMeta { args: Some(2), outputs: Some(1), antiargs: None, antioutputs: None, modifier_args: None, class: PrimClass::DyadicArray }),
            Primitive::Take => (PrimMeta { args: Some(2), outputs: Some(1), antiargs: None, antioutputs: None, modifier_args: None, class: PrimClass::DyadicArray }),
            Primitive::Drop => (PrimMeta { args: Some(2), outputs: Some(1), antiargs: None, antioutputs: None, modifier_args: None, class: PrimClass::DyadicArray }),
            Primitive::Reshape => (PrimMeta { args: Some(2), outputs: Some(1), antiargs: None, antioutputs: None, modifier_args: None, class: PrimClass::DyadicArray }),
            Primitive::Rerank => (PrimMeta { args: Some(2), outputs: Some(1), antiargs: None, antioutputs: None, modifier_args: None, class: PrimClass::DyadicArray }),
            Primitive::Rotate => (PrimMeta { args: Some(2), outputs: Some(1), antiargs: None, antioutputs: None, modifier_args: None, class: PrimClass::DyadicArray }),
            Primitive::Windows => (PrimMeta { args: Some(2), outputs: Some(1), antiargs: None, antioutputs: None, modifier_args: None, class: PrimClass::DyadicArray }),
            Primitive::Keep => (PrimMeta { args: Some(2), outputs: Some(1), antiargs: None, antioutputs: None, modifier_args: None, class: PrimClass::DyadicArray }),
            Primitive::Find => (PrimMeta { args: Some(2), outputs: Some(1), antiargs: None, antioutputs: None, modifier_args: None, class: PrimClass::DyadicArray }),
            Primitive::Member => (PrimMeta { args: Some(2), outputs: Some(1), antiargs: None, antioutputs: None, modifier_args: None, class: PrimClass::DyadicArray }),
            Primitive::IndexOf => (PrimMeta { args: Some(2), outputs: Some(1), antiargs: None, antioutputs: None, modifier_args: None, class: PrimClass::DyadicArray }),
            Primitive::Replicate => (PrimMeta { args: Some(2), outputs: Some(1), antiargs: None, antioutputs: None, modifier_args: None, class: PrimClass::DyadicArray }),
            Primitive::Each => (PrimMeta { args: None, outputs: None, antiargs: None, antioutputs: None, modifier_args: Some(1), class: PrimClass::IteratingModifier }),
            Primitive::Rows => (PrimMeta { args: None, outputs: None, antiargs: None, antioutputs: None, modifier_args: Some(1), class: PrimClass::IteratingModifier }),
            Primitive::Table => (PrimMeta { args: None, outputs: None, antiargs: None, antioutputs: None, modifier_args: Some(1), class: PrimClass::IteratingModifier }),
            Primitive::Cross => (PrimMeta { args: None, outputs: None, antiargs: None, antioutputs: None, modifier_args: Some(1), class: PrimClass::IteratingModifier }),
            Primitive::Repeat => (PrimMeta { args: None, outputs: None, antiargs: None, antioutputs: None, modifier_args: Some(1), class: PrimClass::IteratingModifier }),
            Primitive::Do => (PrimMeta { args: None, outputs: None, antiargs: None, antioutputs: None, modifier_args: Some(2), class: PrimClass::IteratingModifier }),
            Primitive::All => (PrimMeta { args: None, outputs: None, antiargs: None, antioutputs: None, modifier_args: Some(1), class: PrimClass::IteratingModifier }),
            Primitive::Reduce => (PrimMeta { args: None, outputs: None, antiargs: None, antioutputs: None, modifier_args: Some(1), class: PrimClass::AggregatingModifier }),
            Primitive::Fold => (PrimMeta { args: None, outputs: None, antiargs: None, antioutputs: None, modifier_args: Some(1), class: PrimClass::AggregatingModifier }),
            Primitive::Scan => (PrimMeta { args: None, outputs: None, antiargs: None, antioutputs: None, modifier_args: Some(1), class: PrimClass::AggregatingModifier }),
            Primitive::Group => (PrimMeta { args: None, outputs: None, antiargs: None, antioutputs: None, modifier_args: Some(1), class: PrimClass::AggregatingModifier }),
            Primitive::Partition => (PrimMeta { args: None, outputs: None, antiargs: None, antioutputs: None, modifier_args: Some(1), class: PrimClass::AggregatingModifier }),
            Primitive::Un => (PrimMeta { args: None, outputs: None, antiargs: None, antioutputs: None, modifier_args: Some(1), class: PrimClass::InversionModifier }),
            Primitive::Under => (PrimMeta { args: None, outputs: None, antiargs: None, antioutputs: None, modifier_args: Some(2), class: PrimClass::InversionModifier }),
            Primitive::SetInverse => (PrimMeta { args: None, outputs: None, antiargs: None, antioutputs: None, modifier_args: Some(2), class: PrimClass::InversionModifier }),
            Primitive::SetUnder => (PrimMeta { args: None, outputs: None, antiargs: None, antioutputs: None, modifier_args: Some(3), class: PrimClass::InversionModifier }),
            Primitive::Rectify => (PrimMeta { args: None, outputs: None, antiargs: None, antioutputs: None, modifier_args: Some(1), class: PrimClass::InversionModifier }),
            Primitive::Bind => (PrimMeta { args: None, outputs: None, antiargs: None, antioutputs: None, modifier_args: Some(2), class: PrimClass::OtherModifier }),
            Primitive::Content => (PrimMeta { args: None, outputs: None, antiargs: None, antioutputs: None, modifier_args: Some(1), class: PrimClass::OtherModifier }),
            Primitive::Unpack => (PrimMeta { args: None, outputs: None, antiargs: None, antioutputs: None, modifier_args: Some(1), class: PrimClass::OtherModifier }),
            Primitive::Fill => (PrimMeta { args: None, outputs: None, antiargs: None, antioutputs: None, modifier_args: Some(2), class: PrimClass::OtherModifier }),
            Primitive::Comptime => (PrimMeta { args: None, outputs: None, antiargs: None, antioutputs: None, modifier_args: Some(1), class: PrimClass::OtherModifier }),
            Primitive::Memo => (PrimMeta { args: None, outputs: None, antiargs: None, antioutputs: None, modifier_args: Some(1), class: PrimClass::OtherModifier }),
            Primitive::Spawn => (PrimMeta { args: None, outputs: None, antiargs: None, antioutputs: None, modifier_args: Some(1), class: PrimClass::OtherModifier }),
            Primitive::Try => (PrimMeta { args: None, outputs: None, antiargs: None, antioutputs: None, modifier_args: Some(2), class: PrimClass::OtherModifier }),
            Primitive::This => (PrimMeta { args: None, outputs: None, antiargs: None, antioutputs: None, modifier_args: Some(1), class: PrimClass::OtherModifier }),
            Primitive::Recur => (PrimMeta { args: None, outputs: None, antiargs: None, antioutputs: None, modifier_args: None, class: PrimClass::OtherModifier }),
            Primitive::Cascade => (PrimMeta { args: None, outputs: None, antiargs: None, antioutputs: None, modifier_args: Some(2), class: PrimClass::OtherModifier }),
            Primitive::Dump => (PrimMeta { args: None, outputs: None, antiargs: None, antioutputs: None, modifier_args: Some(1), class: PrimClass::OtherModifier }),
            Primitive::MakeMap => (PrimMeta { args: Some(2), outputs: Some(1), antiargs: None, antioutputs: None, modifier_args: None, class: PrimClass::MapOps }),
            Primitive::Insert => (PrimMeta { args: Some(3), outputs: Some(1), antiargs: None, antioutputs: None, modifier_args: None, class: PrimClass::MapOps }),
            Primitive::Has => (PrimMeta { args: Some(2), outputs: Some(1), antiargs: None, antioutputs: None, modifier_args: None, class: PrimClass::MapOps }),
            Primitive::Get => (PrimMeta { args: Some(2), outputs: Some(1), antiargs: None, antioutputs: None, modifier_args: None, class: PrimClass::MapOps }),
            Primitive::Remove => (PrimMeta { args: Some(2), outputs: Some(1), antiargs: None, antioutputs: None, modifier_args: None, class: PrimClass::MapOps }),
            Primitive::Assert => (PrimMeta { args: Some(2), outputs: Some(0), antiargs: None, antioutputs: None, modifier_args: None, class: PrimClass::Misc }),
            Primitive::Rand => (PrimMeta { args: Some(0), outputs: Some(1), antiargs: None, antioutputs: None, modifier_args: None, class: PrimClass::Misc }),
            Primitive::Gen => (PrimMeta { args: Some(1), outputs: Some(2), antiargs: None, antioutputs: None, modifier_args: None, class: PrimClass::Misc }),
            Primitive::Deal => (PrimMeta { args: Some(2), outputs: Some(1), antiargs: None, antioutputs: None, modifier_args: None, class: PrimClass::Misc }),
            Primitive::Tag => (PrimMeta { args: Some(0), outputs: Some(1), antiargs: None, antioutputs: None, modifier_args: None, class: PrimClass::Misc }),
            Primitive::Type => (PrimMeta { args: Some(1), outputs: Some(1), antiargs: None, antioutputs: None, modifier_args: None, class: PrimClass::Misc }),
            Primitive::Now => (PrimMeta { args: Some(0), outputs: Some(1), antiargs: None, antioutputs: None, modifier_args: None, class: PrimClass::Misc }),
            Primitive::Regex => (PrimMeta { args: Some(2), outputs: Some(1), antiargs: None, antioutputs: None, modifier_args: None, class: PrimClass::Misc }),
            Primitive::Trace => (PrimMeta { args: Some(1), outputs: Some(1), antiargs: None, antioutputs: None, modifier_args: None, class: PrimClass::Misc }),
            Primitive::Stack => (PrimMeta { args: None, outputs: None, antiargs: None, antioutputs: None, modifier_args: None, class: PrimClass::Misc }),
            Primitive::Send => (PrimMeta { args: Some(2), outputs: Some(0), antiargs: None, antioutputs: None, modifier_args: None, class: PrimClass::Misc }),
            Primitive::Recv => (PrimMeta { args: Some(1), outputs: Some(1), antiargs: None, antioutputs: None, modifier_args: None, class: PrimClass::Misc }),
            Primitive::TryRecv => (PrimMeta { args: Some(1), outputs: Some(1), antiargs: None, antioutputs: None, modifier_args: None, class: PrimClass::Misc }),
            Primitive::Wait => (PrimMeta { args: Some(1), outputs: None, antiargs: None, antioutputs: None, modifier_args: None, class: PrimClass::Misc }),
        }
    }
}


/// The primitive's signature, where both arities are fixed.
pub open spec fn signature_spec(p: Primitive) -> Option<Signature> {
    if meta_spec(p).args is Some && meta_spec(p).outputs is Some {
        Some(Signature { args: meta_spec(p).args->0, outputs: meta_spec(p).outputs->0 })
    } else {
        None
    }
}

/// All primitives that are not deprecated, in catalogue order.
pub open spec fn non_dep_seq() -> Seq<Primitive> {
    all_prims().filter(|p: Primitive| !is_deprecated_spec(p))
}

/// What a primitive renders as: its glyph if present, else its ASCII token,
/// else its name.
pub open spec fn display_spec(p: Primitive) -> Seq<char> {
    if glyph_spec(p) is Some {
        seq![glyph_spec(p)->0]
    } else if ascii_spec(p) is Some {
        ascii_text_spec(ascii_spec(p)->0)
    } else {
        name_spec(p)
    }
}

/// The source text of an ASCII token.
pub open spec fn ascii_text_spec(t: AsciiToken) -> Seq<char> {
    match t {
        AsciiToken::Backtick => "`"@,
        AsciiToken::Equal => "="@,
        AsciiToken::BangEqual => "!="@,
        AsciiToken::LessEqual => "<="@,
        AsciiToken::GreaterEqual => ">="@,
        AsciiToken::Star => "*"@,
        AsciiToken::Percent => "%"@,
    }
}

impl Primitive {
    /// Every primitive, in the catalogue's canonical order.
    #[verifier::rlimit(80)]
    pub fn all() -> (r: Vec<Primitive>)
        ensures
            r@ == all_prims(),
    {
        let mut v: Vec<Primitive> = Vec::new();
        v.push(Primitive::Dup);
        proof { assert(v@ =~= all_prims().take(1)); }
        v.push(Primitive::Over);
        proof { assert(v@ =~= all_prims().take(2)); }
        v.push(Primitive::Flip);
        proof { assert(v@ =~= all_prims().take(3)); }
        v.push(Primitive::Pop);
        proof { assert(v@ =~= all_prims().take(4)); }
        v.push(Primitive::Save);
        proof { assert(v@ =~= all_prims().take(5)); }
        v.push(Primitive::Load);
        proof { assert(v@ =~= all_prims().take(6)); }
        v.push(Primitive::Identity);
        proof { assert(v@ =~= all_prims().take(7)); }
        v.push(Primitive::Dip);
        proof { assert(v@ =~= all_prims().take(8)); }
        v.push(Primitive::Gap);
        proof { assert(v@ =~= all_prims().take(9)); }
        v.push(Primitive::Fork);
        proof { assert(v@ =~= all_prims().take(10)); }
        v.push(Primitive::Both);
        proof { assert(v@ =~= all_prims().take(11)); }
        v.push(Primitive::Bracket);
        proof { assert(v@ =~= all_prims().take(12)); }
        v.push(Primitive::Eta);
        proof { assert(v@ =~= all_prims().take(13)); }
        v.push(Primitive::Pi);
        proof { assert(v@ =~= all_prims().take(14)); }
        v.push(Primitive::Tau);
        proof { assert(v@ =~= all_prims().take(15)); }
        v.push(Primitive::Infinity);
        proof { assert(v@ =~= all_prims().take(16)); }
        v.push(Primitive::Not);
        proof { assert(v@ =~= all_prims().take(17)); }
        v.push(Primitive::Sign);
        proof { assert(v@ =~= all_prims().take(18)); }
        v.push(Primitive::Neg);
        proof { assert(v@ =~= all_prims().take(19)); }
        v.push(Primitive::Abs);
        proof { assert(v@ =~= all_prims().take(20)); }
        v.push(Primitive::Sqrt);
        proof { assert(v@ =~= all_prims().take(21)); }
        v.push(Primitive::Sin);
        proof { assert(v@ =~= all_prims().take(22)); }
        v.push(Primitive::Floor);
        proof { assert(v@ =~= all_prims().take(23)); }
        v.push(Primitive::Ceil);
        proof { assert(v@ =~= all_prims().take(24)); }
        v.push(Primitive::Round);
        proof { assert(v@ =~= all_prims().take(25)); }
        v.push(Primitive::Eq);
        proof { assert(v@ =~= all_prims().take(26)); }
        v.push(Primitive::Ne);
        proof { assert(v@ =~= all_prims().take(27)); }
        v.push(Primitive::Lt);
        proof { assert(v@ =~= all_prims().take(28)); }
        v.push(Primitive::Le);
        proof { assert(v@ =~= all_prims().take(29)); }
        v.push(Primitive::Gt);
        proof { assert(v@ =~= all_prims().take(30)); }
        v.push(Primitive::Ge);
        proof { assert(v@ =~= all_prims().take(31)); }
        v.push(Primitive::Add);
        proof { assert(v@ =~= all_prims().take(32)); }
        v.push(Primitive::Sub);
        proof { assert(v@ =~= all_prims().take(33)); }
        v.push(Primitive::Mul);
        proof { assert(v@ =~= all_prims().take(34)); }
        v.push(Primitive::Div);
        proof { assert(v@ =~= all_prims().take(35)); }
        v.push(Primitive::Mod);
        proof { assert(v@ =~= all_prims().take(36)); }
        v.push(Primitive::Pow);
        proof { assert(v@ =~= all_prims().take(37)); }
        v.push(Primitive::Log);
        proof { assert(v@ =~= all_prims().take(38)); }
        v.push(Primitive::Min);
        proof { assert(v@ =~= all_prims().take(39)); }
        v.push(Primitive::Max);
        proof { assert(v@ =~= all_prims().take(40)); }
        v.push(Primitive::Atan);
        proof { assert(v@ =~= all_prims().take(41)); }
        v.push(Primitive::Complex);
        proof { assert(v@ =~= all_prims().take(42)); }
        v.push(Primitive::Len);
        proof { assert(v@ =~= all_prims().take(43)); }
        v.push(Primitive::Shape);
        proof { assert(v@ =~= all_prims().take(44)); }
        v.push(Primitive::Range);
        proof { assert(v@ =~= all_prims().take(45)); }
        v.push(Primitive::First);
        proof { assert(v@ =~= all_prims().take(46)); }
        v.push(Primitive::Reverse);
        proof { assert(v@ =~= all_prims().take(47)); }
        v.push(Primitive::Deshape);
        proof { assert(v@ =~= all_prims().take(48)); }
        v.push(Primitive::Bits);
        proof { assert(v@ =~= all_prims().take(49)); }
        v.push(Primitive::Transpose);
        proof { assert(v@ =~= all_prims().take(50)); }
        v.push(Primitive::Rise);
        proof { assert(v@ =~= all_prims().take(51)); }
        v.push(Primitive::Fall);
        proof { assert(v@ =~= all_prims().take(52)); }
        v.push(Primitive::Where);
        proof { assert(v@ =~= all_prims().take(53)); }
        v.push(Primitive::Classify);
        proof { assert(v@ =~= all_prims().take(54)); }
        v.push(Primitive::Deduplicate);
        proof { assert(v@ =~= all_prims().take(55)); }
        v.push(Primitive::Unique);
        proof { assert(v@ =~= all_prims().take(56)); }
        v.push(Primitive::Box);
        proof { assert(v@ =~= all_prims().take(57)); }
        v.push(Primitive::Parse);
        proof { assert(v@ =~= all_prims().take(58)); }
        v.push(Primitive::Utf);
        proof { assert(v@ =~= all_prims().take(59)); }
        v.push(Primitive::Fix);
        proof { assert(v@ =~= all_prims().take(60)); }
        v.push(Primitive::Match);
        proof { assert(v@ =~= all_prims().take(61)); }
        v.push(Primitive::Couple);
        proof { assert(v@ =~= all_prims().take(62)); }
        v.push(Primitive::Join);
        proof { assert(v@ =~= all_prims().take(63)); }
        v.push(Primitive::Pick);
        proof { assert(v@ =~= all_prims().take(64)); }
        v.push(Primitive::Select);
        proof { assert(v@ =~= all_prims().take(65)); }
        v.push(Primitive::Take);
        proof { assert(v@ =~= all_prims().take(66)); }
        v.push(Primitive::Drop);
        proof { assert(v@ =~= all_prims().take(67)); }
        v.push(Primitive::Reshape);
        proof { assert(v@ =~= all_prims().take(68)); }
        v.push(Primitive::Rerank);
        proof { assert(v@ =~= all_prims().take(69)); }
        v.push(Primitive::Rotate);
        proof { assert(v@ =~= all_prims().take(70)); }
        v.push(Primitive::Windows);
        proof { assert(v@ =~= all_prims().take(71)); }
        v.push(Primitive::Keep);
        proof { assert(v@ =~= all_prims().take(72)); }
        v.push(Primitive::Find);
        proof { assert(v@ =~= all_prims().take(73)); }
        v.push(Primitive::Member);
        proof { assert(v@ =~= all_prims().take(74)); }
        v.push(Primitive::IndexOf);
        proof { assert(v@ =~= all_prims().take(75)); }
        v.push(Primitive::Replicate);
        proof { assert(v@ =~= all_prims().take(76)); }
        v.push(Primitive::Each);
        proof { assert(v@ =~= all_prims().take(77)); }
        v.push(Primitive::Rows);
        proof { assert(v@ =~= all_prims().take(78)); }
        v.push(Primitive::Table);
        proof { assert(v@ =~= all_prims().take(79)); }
        v.push(Primitive::Cross);
        proof { assert(v@ =~= all_prims().take(80)); }
        v.push(Primitive::Repeat);
        proof { assert(v@ =~= all_prims().take(81)); }
        v.push(Primitive::Do);
        proof { assert(v@ =~= all_prims().take(82)); }
        v.push(Primitive::All);
        proof { assert(v@ =~= all_prims().take(83)); }
        v.push(Primitive::Reduce);
        proof { assert(v@ =~= all_prims().take(84)); }
        v.push(Primitive::Fold);
        proof { assert(v@ =~= all_prims().take(85)); }
        v.push(Primitive::Scan);
        proof { assert(v@ =~= all_prims().take(86)); }
        v.push(Primitive::Group);
        proof { assert(v@ =~= all_prims().take(87)); }
        v.push(Primitive::Partition);
        proof { assert(v@ =~= all_prims().take(88)); }
        v.push(Primitive::Un);
        proof { assert(v@ =~= all_prims().take(89)); }
        v.push(Primitive::Under);
        proof { assert(v@ =~= all_prims().take(90)); }
        v.push(Primitive::SetInverse);
        proof { assert(v@ =~= all_prims().take(91)); }
        v.push(Primitive::SetUnder);
        proof { assert(v@ =~= all_prims().take(92)); }
        v.push(Primitive::Rectify);
        proof { assert(v@ =~= all_prims().take(93)); }
        v.push(Primitive::Bind);
        proof { assert(v@ =~= all_prims().take(94)); }
        v.push(Primitive::Content);
        proof { assert(v@ =~= all_prims().take(95)); }
        v.push(Primitive::Unpack);
        proof { assert(v@ =~= all_prims().take(96)); }
        v.push(Primitive::Fill);
        proof { assert(v@ =~= all_prims().take(97)); }
        v.push(Primitive::Comptime);
        proof { assert(v@ =~= all_prims().take(98)); }
        v.push(Primitive::Memo);
        proof { assert(v@ =~= all_prims().take(99)); }
        v.push(Primitive::Spawn);
        proof { assert(v@ =~= all_prims().take(100)); }
        v.push(Primitive::Try);
        proof { assert(v@ =~= all_prims().take(101)); }
        v.push(Primitive::This);
        proof { assert(v@ =~= all_prims().take(102)); }
        v.push(Primitive::Recur);
        proof { assert(v@ =~= all_prims().take(103)); }
        v.push(Primitive::Cascade);
        proof { assert(v@ =~= all_prims().take(104)); }
        v.push(Primitive::Dump);
        proof { assert(v@ =~= all_prims().take(105)); }
        v.push(Primitive::MakeMap);
        proof { assert(v@ =~= all_prims().take(106)); }
        v.push(Primitive::Insert);
        proof { assert(v@ =~= all_prims().take(107)); }
        v.push(Primitive::Has);
        proof { assert(v@ =~= all_prims().take(108)); }
        v.push(Primitive::Get);
        proof { assert(v@ =~= all_prims().take(109)); }
        v.push(Primitive::Remove);
        proof { assert(v@ =~= all_prims().take(110)); }
        v.push(Primitive::Assert);
        proof { assert(v@ =~= all_prims().take(111)); }
        v.push(Primitive::Rand);
        proof { assert(v@ =~= all_prims().take(112)); }
        v.push(Primitive::Gen);
        proof { assert(v@ =~= all_prims().take(113)); }
        v.push(Primitive::Deal);
        proof { assert(v@ =~= all_prims().take(114)); }
        v.push(Primitive::Tag);
        proof { assert(v@ =~= all_prims().take(115)); }
        v.push(Primitive::Type);
        proof { assert(v@ =~= all_prims().take(116)); }
        v.push(Primitive::Now);
        proof { assert(v@ =~= all_prims().take(117)); }
        v.push(Primitive::Regex);
        proof { assert(v@ =~= all_prims().take(118)); }
        v.push(Primitive::Trace);
        proof { assert(v@ =~= all_prims().take(119)); }
        v.push(Primitive::Stack);
        proof { assert(v@ =~= all_prims().take(120)); }
        v.push(Primitive::Send);
        proof { assert(v@ =~= all_prims().take(121)); }
        v.push(Primitive::Recv);
        proof { assert(v@ =~= all_prims().take(122)); }
        v.push(Primitive::TryRecv);
        proof { assert(v@ =~= all_prims().take(123)); }
        v.push(Primitive::Wait);
        proof { assert(v@ =~= all_prims().take(124)); }
        proof {
            assert(v@ =~= all_prims());
        }
        v
    }

    /// Every primitive that is not deprecated, in catalogue order.
    pub fn non_deprecated() -> (r: Vec<Primitive>)
        ensures
            r@ == non_dep_seq(),
    {
        let all = Self::all();
        let mut v: Vec<Primitive> = Vec::new();
        let ghost f = |p: Primitive| !is_deprecated_spec(p);
        proof {
            assert(all@.take(0int).filter(f) =~= v@);
        }
        for i in 0..all.len()
            invariant
                all@ == all_prims(),
                v@ == all@.take(i as int).filter(f),
                f == (|p: Primitive| !is_deprecated_spec(p)),
        {
            let p = all[i];
            proof {
                assert(all@.take(i + 1int).drop_last() =~= all@.take(i as int));
                reveal(Seq::filter);
            }
            if !p.is_deprecated() {
                v.push(p);
            }
        }
        proof {
            assert(all@.take(all@.len() as int) =~= all@);
        }
        v
    }

    /// How many values the primitive pops from the stack, where fixed.
    pub fn args(&self) -> (r: Option<usize>)
        ensures
            r == meta_spec(*self).args,
    {
        self.meta().args
    }

    /// How many values the primitive pushes onto the stack, where fixed.
    pub fn outputs(&self) -> (r: Option<usize>)
        ensures
            r == meta_spec(*self).outputs,
    {
        self.meta().outputs
    }

    /// How many values the primitive pops from the anti-stack, where fixed.
    pub fn antiargs(&self) -> (r: Option<usize>)
        ensures
            r == meta_spec(*self).antiargs,
    {
        self.meta().antiargs
    }

    /// How many values the primitive pushes onto the anti-stack, where fixed.
    pub fn antioutputs(&self) -> (r: Option<usize>)
        ensures
            r == meta_spec(*self).antioutputs,
    {
        self.meta().antioutputs
    }

    /// How many function operands the primitive takes, if it is a modifier.
    pub fn modifier_args(&self) -> (r: Option<usize>)
        ensures
            r == meta_spec(*self).modifier_args,
    {
        self.meta().modifier_args
    }

    /// The primitive's category.
    pub fn class(&self) -> (r: PrimClass)
        ensures
            r == meta_spec(*self).class,
    {
        self.meta().class
    }

    /// Whether the primitive takes function operands.
    pub fn is_modifier(&self) -> (r: bool)
        ensures
            r == (meta_spec(*self).modifier_args is Some),
    {
        self.modifier_args().is_some()
    }

    /// Whether the primitive pushes a fixed numeric constant.
    pub fn is_constant(&self) -> (r: bool)
        ensures
            r == is_constant_spec(*self),
    {
        matches!(self, Primitive::Eta | Primitive::Pi | Primitive::Tau | Primitive::Infinity)
    }

    /// Whether the primitive is deprecated.
    pub fn is_deprecated(&self) -> (r: bool)
        ensures
            r == is_deprecated_spec(*self),
    {
        matches!(
            self,
            Primitive::Replicate | Primitive::Cross | Primitive::Rectify | Primitive::Unpack
                | Primitive::Cascade
        )
    }

    /// Whether the primitive is experimental.
    pub fn is_experimental(&self) -> (r: bool)
        ensures
            r == is_experimental_spec(*self),
    {
        matches!(
            self,
            Primitive::All | Primitive::Bind | Primitive::Cascade | Primitive::Get
                | Primitive::Has | Primitive::Insert | Primitive::MakeMap | Primitive::Recur
                | Primitive::Rectify | Primitive::Remove | Primitive::This
        )
    }

    /// What spelling replaces a deprecated primitive, if it is deprecated.
    pub fn deprecation_suggestion(&self) -> (r: Option<&'static str>)
        ensures
            r is Some <==> is_deprecated_spec(*self),
    {
        match self {
            Primitive::Replicate => Some("use \u{25bd} keep instead"),
            Primitive::Cross => Some("use \u{229e} table instead"),
            Primitive::Cascade => Some("use \u{2283} fork instead"),
            Primitive::Unpack => Some("use \u{25c7} content instead"),
            Primitive::Rectify => Some(""),
            _ => None,
        }
    }

    /// The primitive's signature, where both arities are fixed.
    pub fn signature(&self) -> (r: Option<Signature>)
        ensures
            r == signature_spec(*self),
    {
        let m = self.meta();
        match (m.args, m.outputs) {
            (Some(a), Some(o)) => Some(Signature { args: a, outputs: o }),
            _ => None,
        }
    }

    /// The inverse of a primitive, where the catalogue records one.
    pub fn inverse(&self) -> (r: Option<Primitive>)
        ensures
            r == inverse_spec(*self),
    {
        match self {
            Primitive::Flip => Some(Primitive::Flip),
            Primitive::Neg => Some(Primitive::Neg),
            Primitive::Not => Some(Primitive::Not),
            Primitive::Reverse => Some(Primitive::Reverse),
            Primitive::Save => Some(Primitive::Load),
            Primitive::Load => Some(Primitive::Save),
            _ => None,
        }
    }

    /// The three names of the primitive, bundled.
    pub fn names(&self) -> (r: PrimNames)
        ensures
            r.text@ == name_spec(*self),
            r.ascii == ascii_spec(*self),
            r.glyph == glyph_spec(*self),
    {
        PrimNames { text: self.name(), ascii: self.ascii(), glyph: self.glyph() }
    }

    /// Find the primitive whose text name equals `name` exactly.
    pub fn from_name(name: &str) -> (r: Option<Primitive>)
        ensures
            match r {
                Some(p) => name_spec(p) == name@,
                None => forall|p: Primitive| name_spec(p) != name@,
            },
    {
        let all = Self::all();
        for i in 0..all.len()
            invariant
                all@ == all_prims(),
                forall|j: int| 0 <= j < i ==> name_spec(all@[j]) != name@,
        {
            if str_eq(all[i].name(), name) {
                return Some(all[i]);
            }
        }
        proof {
            assert forall|p: Primitive| name_spec(p) != name@ by {
                lemma_prim_index(p);
            }
        }
        None
    }

    /// Find the primitive with the given ASCII token.
    pub fn from_ascii(s: AsciiToken) -> (r: Option<Primitive>)
        ensures
            match r {
                Some(p) => ascii_spec(p) == Some(s),
                None => forall|p: Primitive| ascii_spec(p) != Some(s),
            },
    {
        let all = Self::all();
        for i in 0..all.len()
            invariant
                all@ == all_prims(),
                forall|j: int| 0 <= j < i ==> ascii_spec(all@[j]) != Some(s),
        {
            match all[i].ascii() {
                Some(t) if t == s => {
                    return Some(all[i]);
                },
                _ => {},
            }
        }
        proof {
            assert forall|p: Primitive| ascii_spec(p) != Some(s) by {
                lemma_prim_index(p);
            }
        }
        None
    }

    /// Find the primitive with the given glyph.
    pub fn from_glyph(c: char) -> (r: Option<Primitive>)
        ensures
            match r {
                Some(p) => glyph_spec(p) == Some(c),
                None => forall|p: Primitive| glyph_spec(p) != Some(c),
            },
    {
        let all = Self::all();
        for i in 0..all.len()
            invariant
                all@ == all_prims(),
                forall|j: int| 0 <= j < i ==> glyph_spec(all@[j]) != Some(c),
        {
            match all[i].glyph() {
                Some(g) if g == c => {
                    return Some(all[i]);
                },
                _ => {},
            }
        }
        proof {
            assert forall|p: Primitive| glyph_spec(p) != Some(c) by {
                lemma_prim_index(p);
            }
        }
        None
    }

    /// A wrapper that renders the primitive with both glyph and name.
    pub fn format(&self) -> (r: FormatPrimitive)
        ensures
            r.0 == *self,
    {
        FormatPrimitive(*self)
    }

    /// How the primitive renders: its glyph if present, else its ASCII
    /// token, else its name.
    pub fn display_string(&self) -> (r: String)
        ensures
            r@ == display_spec(*self),
    {
        match self.glyph() {
            Some(c) => {
                let mut s = String::new();
                s.push(c);
                proof {
                    assert(s@ =~= seq![c]);
                }
                s
            },
            None => match self.ascii() {
                Some(t) => String::from_str(t.text()),
                None => String::from_str(self.name()),
            },
        }
    }
}

impl AsciiToken {
    /// The token's source text, tied to its specification.
    pub fn text_checked(&self) -> (r: &'static str)
        ensures
            r@ == ascii_text_spec(*self),
    {
        match self {
            AsciiToken::Backtick => "`",
            AsciiToken::Equal => "=",
            AsciiToken::BangEqual => "!=",
            AsciiToken::LessEqual => "<=",
            AsciiToken::GreaterEqual => ">=",
            AsciiToken::Star => "*",
            AsciiToken::Percent => "%",
        }
    }
}

/// The names of a primitive.
#[derive(Debug, Clone, Copy)]
pub struct PrimNames {
    /// The text name.
    pub text: &'static str,
    /// The ASCII token that formats to the primitive, if any.
    pub ascii: Option<AsciiToken>,
    /// The primitive's glyph, if any.
    pub glyph: Option<char>,
}

/// A wrapper that renders a primitive together with its name.
#[derive(Debug, Clone, Copy, PartialEq, Eq, Structural)]
pub struct FormatPrimitive(pub Primitive);

impl FormatPrimitive {
    /// Render the primitive: the bare display when it has no glyph, and
    /// "glyph name" when it has one.
    pub fn display_string(&self) -> (r: String)
        ensures
            glyph_spec(self.0) is None ==> r@ == display_spec(self.0),
            glyph_spec(self.0) is Some ==> r@ == display_spec(self.0) + " "@ + name_spec(self.0),
    {
        let mut s = self.0.display_string();
        if self.0.glyph().is_some() {
            s.append(" ");
            s.append(self.0.name());
        }
        s
    }
}

impl PrimClass {
    /// All classes of primitives.
    pub fn all() -> Vec<PrimClass> {
        let mut v: Vec<PrimClass> = Vec::new();
        v.push(PrimClass::Stack);
        v.push(PrimClass::Constant);
        v.push(PrimClass::MonadicPervasive);
        v.push(PrimClass::DyadicPervasive);
        v.push(PrimClass::MonadicArray);
        v.push(PrimClass::DyadicArray);
        v.push(PrimClass::IteratingModifier);
        v.push(PrimClass::AggregatingModifier);
        v.push(PrimClass::InversionModifier);
        v.push(PrimClass::OtherModifier);
        v.push(PrimClass::Planet);
        v.push(PrimClass::MapOps);
        v.push(PrimClass::Local);
        v.push(PrimClass::Misc);
        v.push(PrimClass::Sys);
        v
    }

    /// Whether the class lifts element-wise over arrays.
    pub fn is_pervasive(&self) -> (r: bool)
        ensures
            r == (*self == PrimClass::MonadicPervasive || *self == PrimClass::DyadicPervasive),
    {
        matches!(self, PrimClass::MonadicPervasive | PrimClass::DyadicPervasive)
    }

    /// All primitives of this class, in catalogue order.
    pub fn primitives(self) -> (r: Vec<Primitive>)
        ensures
            r@ == all_prims().filter(|p: Primitive| meta_spec(p).class == self),
    {
        let all = Primitive::all();
        let mut v: Vec<Primitive> = Vec::new();
        let ghost f = |p: Primitive| meta_spec(p).class == self;
        proof {
            assert(all@.take(0int).filter(f) =~= v@);
        }
        for i in 0..all.len()
            invariant
                all@ == all_prims(),
                v@ == all@.take(i as int).filter(f),
                f == (|p: Primitive| meta_spec(p).class == self),
        {
            let p = all[i];
            proof {
                assert(all@.take(i + 1int).drop_last() =~= all@.take(i as int));
                reveal(Seq::filter);
            }
            if p.class() == self {
                v.push(p);
            }
        }
        proof {
            assert(all@.take(all@.len() as int) =~= all@);
        }
        v
    }
}

/// The style class a pad editor gives a primitive's button, decided by its
/// arities alone.
pub fn prim_class(prim: Primitive) -> (r: &'static str)
    requires
        true,
{
    let m = prim.meta();
    if m.antiargs.is_some() || m.antioutputs.is_some() {
        "anti-function-button"
    } else if let Some(margs) = m.modifier_args {
        if margs == 1 {
            "modifier1-button"
        } else {
            "modifier2-button"
        }
    } else {
        match m.args {
            Some(0) => "noadic-function-button",
            Some(1) => "monadic-function-button",
            Some(2) => "dyadic-function-button",
            Some(3) => "triadic-function-button",
            _ => "variadic-function-button",
        }
    }
}

} // verus!

