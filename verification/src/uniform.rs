//! Uniform values and the slots they are bound to.
//!
//! A uniform is consumed immediately at bind time: the context copies it into
//! the command queue and retains nothing. Numeric components are carried as
//! raw 32-bit words (for example IEEE-754 bit patterns produced by the
//! caller); this layer never interprets them.

use vstd::prelude::*;

verus! {

/// A numbered uniform slot in a shader stage.
#[derive(Clone, Copy, Debug, PartialEq, Eq, Structural)]
pub struct Index {
    /// The slot number.
    pub slot: u8,
}

impl Index {
    /// Name the uniform slot `slot`.
    pub fn new(slot: u8) -> (r: Index)
        ensures
            r.slot == slot,
    {
        Index { slot }
    }
}

impl From<u8> for Index {
    fn from(slot: u8) -> (r: Index)
        ensures
            r.slot == slot,
    {
        Index { slot }
    }
}

impl vstd::std_specs::convert::FromSpecImpl<u8> for Index {
    open spec fn obeys_from_spec() -> bool {
        true
    }

    open spec fn from_spec(slot: u8) -> Index {
        Index { slot }
    }
}

/// A 4x4 matrix, row-major, each entry one raw 32-bit word.
#[derive(Clone, Copy, Debug, PartialEq, Eq)]
pub struct Matrix {
    /// The sixteen entries, row-major.
    pub words: [u32; 16],
}

/// A vector of up to four components, each one raw 32-bit word.
#[derive(Clone, Copy, Debug, PartialEq, Eq)]
pub struct Vector {
    /// The four components; a three-component vector leaves the last word
    /// unused.
    pub words: [u32; 4],
}

/// A uniform value, polymorphic over the kinds the hardware accepts. Binding
/// dispatches on the variant to the matching low-level upload.
#[derive(Clone, Copy, Debug, PartialEq, Eq)]
pub enum Uniform {
    /// A 4x4 matrix.
    Matrix4x4(Matrix),
    /// A three- or four-component vector.
    Vector(Vector),
    /// A boolean register.
    Bool(bool),
    /// An integer register.
    Int(u32),
}

} // verus!
