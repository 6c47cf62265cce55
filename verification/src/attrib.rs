//! Vertex attribute descriptors.
//!
//! An [`Info`] is a value-type snapshot of the driver-held attribute
//! descriptor: for each of the hardware's attribute registers, optionally a
//! loader giving the component format and count. Like the buffer descriptor,
//! it is copied by value into and out of driver storage.

use vstd::prelude::*;

verus! {

/// Number of attribute registers the hardware provides.
pub const ATTRIB_COUNT: usize = 12;

/// The component format of one vertex attribute.
#[derive(Clone, Copy, Debug, PartialEq, Eq, Structural)]
pub enum Format {
    /// Signed bytes.
    Byte,
    /// Unsigned bytes.
    UnsignedByte,
    /// Signed 16-bit integers.
    Short,
    /// 32-bit floating-point words.
    Float,
}

/// The loader for one attribute register: its component format and how many
/// components each vertex supplies.
#[derive(Clone, Copy, Debug, PartialEq, Eq, Structural)]
pub struct Attr {
    /// Component format.
    pub format: Format,
    /// Components per vertex, between 1 and 4.
    pub count: u8,
}

/// A vertex attribute descriptor: one optional loader per attribute
/// register.
#[derive(Clone, Copy, Debug, PartialEq, Eq)]
pub struct Info {
    /// The loader configured for each register, if any.
    pub loaders: [Option<Attr>; 12],
}

impl Info {
    /// An attribute descriptor with no loaders configured.
    pub fn new() -> (r: Info)
        ensures
            forall|i: int| 0 <= i < ATTRIB_COUNT ==> r.loaders@[i] is None,
    {
        Info { loaders: [None; 12] }
    }

    /// Configure the loader for `register`: each vertex supplies `count`
    /// components of the given format there. Rejected (returning `false` and
    /// changing nothing) when the register is out of range or the component
    /// count is not between 1 and 4.
    pub fn add_loader(&mut self, register: usize, format: Format, count: u8) -> (r: bool)
        ensures
            r <==> (register < ATTRIB_COUNT && 1 <= count <= 4),
            r ==> final(self).loaders@ == old(self).loaders@.update(
                register as int,
                Some(Attr { format, count }),
            ),
            !r ==> *final(self) == *old(self),
    {
        if register < ATTRIB_COUNT && 1 <= count && count <= 4 {
            self.loaders[register] = Some(Attr { format, count });
            true
        } else {
            false
        }
    }
}

} // verus!
