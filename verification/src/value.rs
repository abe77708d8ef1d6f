//! Argument words and answers: what a caller's typed arguments become on
//! their way to a native function-table slot, and what may come back.

use vstd::prelude::*;

verus! {

/// The machine-level shape of one parameter or of the answer of a bound
/// operation.
#[derive(Clone, Copy, Debug, PartialEq, Eq, Structural)]
pub enum Kind {
    /// A pointer-sized address; the binding never looks behind it.
    Address,
    /// A 32-bit unsigned integer.
    Unsigned,
    /// A 32-bit signed integer.
    Signed,
    /// A boolean.
    Flag,
    /// A C `long`. Only answers have this shape.
    Long,
    /// A double-precision number. Only answers have this shape.
    Double,
}

/// One argument, carried unchanged from the caller to the native slot.
#[derive(Clone, Copy, Debug, PartialEq, Eq, Structural)]
pub enum Value {
    Address(usize),
    Unsigned(u32),
    Signed(i32),
    Flag(bool),
}

impl Value {
    /// The shape of this argument.
    pub open spec fn spec_kind(self) -> Kind {
        match self {
            Value::Address(_) => Kind::Address,
            Value::Unsigned(_) => Kind::Unsigned,
            Value::Signed(_) => Kind::Signed,
            Value::Flag(_) => Kind::Flag,
        }
    }

    /// The shape of this argument.
    #[verifier::when_used_as_spec(spec_kind)]
    pub fn kind(self) -> (kind: Kind)
        ensures
            kind == self.spec_kind(),
    {
        match self {
            Value::Address(_) => Kind::Address,
            Value::Unsigned(_) => Kind::Unsigned,
            Value::Signed(_) => Kind::Signed,
            Value::Flag(_) => Kind::Flag,
        }
    }
}

/// A type that a native operation can answer with.
pub trait Reply: Sized {
    /// The shape of the answer; `None` where there is no answer.
    spec fn shape() -> Option<Kind>;
}

impl Reply for () {
    open spec fn shape() -> Option<Kind> {
        None
    }
}

impl Reply for bool {
    open spec fn shape() -> Option<Kind> {
        Some(Kind::Flag)
    }
}

impl Reply for u32 {
    open spec fn shape() -> Option<Kind> {
        Some(Kind::Unsigned)
    }
}

impl Reply for i32 {
    open spec fn shape() -> Option<Kind> {
        Some(Kind::Signed)
    }
}

/// An address, as a number.
impl Reply for usize {
    open spec fn shape() -> Option<Kind> {
        Some(Kind::Address)
    }
}

/// A C `long`, widened to 64 bits where it is narrower.
impl Reply for i64 {
    open spec fn shape() -> Option<Kind> {
        Some(Kind::Long)
    }
}

/// A double-precision number, as its bit pattern.
impl Reply for u64 {
    open spec fn shape() -> Option<Kind> {
        Some(Kind::Double)
    }
}

/// The shapes of a list of arguments, in order.
pub open spec fn kinds(args: Seq<Value>) -> Seq<Kind> {
    args.map_values(|v: Value| v.kind())
}

} // verus!
