//! Values that the intermediate form refers to: paths into composite
//! values, bit-level constants, clock domain colors and the kinds of
//! values.
use vstd::prelude::*;

verus! {

/// One step of a path into a composite value.
#[derive(Clone, PartialEq, Debug)]
pub enum PathElement {
    /// An element of an array.
    Index(usize),
    /// A named field of a struct.
    Field(String),
    /// A positional field of a tuple.
    TupleIndex(usize),
    /// The discriminant of an enum.
    EnumDiscriminant,
    /// The payload of the named enum variant.
    EnumPayload(String),
}

/// A path into a composite value, outermost step first.
#[derive(Clone, PartialEq, Debug)]
pub struct Path {
    pub elements: Vec<PathElement>,
}

/// A constant given as its bits, least significant first.
#[derive(Clone, PartialEq, Debug)]
pub struct TypedBits {
    pub bits: Vec<bool>,
}

/// The color of a clock domain.
#[derive(Clone, Copy, PartialEq, Eq, Structural, Debug)]
pub enum Color {
    Red,
    Orange,
    Yellow,
    Green,
    Blue,
    Indigo,
    Violet,
}

/// The shape of a value in hardware: how many bits it takes, and in which
/// clock domain it lives, if any.
#[derive(Debug)]
pub enum Kind {
    Empty,
    Bits(usize),
    Signed(usize),
    Signal(Box<Kind>, Color),
}

impl Kind {
    /// The kind of a signal carrying values of kind `base` in the clock
    /// domain of color `color`.
    pub fn make_signal(base: Kind, color: Color) -> (k: Kind)
        ensures
            k == Kind::Signal(Box::new(base), color),
    {
        Kind::Signal(Box::new(base), color)
    }
}

} // verus!
