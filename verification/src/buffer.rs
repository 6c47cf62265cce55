//! Vertex buffer descriptors and draw ranges.
//!
//! A [`Info`] is a value-type snapshot of the driver-held vertex buffer
//! descriptor: base address, stride, attribute count and attribute
//! permutation. It is copied into and out of driver storage by value; the
//! context never retains a reference to the caller's descriptor past a call.

use vstd::prelude::*;

verus! {

/// The primitive kind a draw call assembles vertices into.
#[derive(Clone, Copy, Debug, PartialEq, Eq, Structural)]
pub enum Primitive {
    /// Independent triangles.
    Triangles,
    /// A triangle strip.
    TriangleStrip,
    /// A triangle fan.
    TriangleFan,
    /// Geometry-shader primitives.
    GeometryPrim,
}

/// The width of the entries of an index buffer, selecting the element-size
/// flag of an indexed draw.
#[derive(Clone, Copy, Debug, PartialEq, Eq, Structural)]
pub enum IndexFormat {
    /// 8-bit indices.
    UnsignedByte,
    /// 16-bit indices.
    UnsignedShort,
}

/// A vertex buffer descriptor: where the vertex data lives and how its
/// attributes are laid out. Matching this layout to the attribute
/// descriptor is the caller's responsibility; the content is opaque to the
/// dispatcher past this point.
#[derive(Clone, Copy, Debug, PartialEq, Eq, Structural)]
pub struct Info {
    /// Base address of the vertex data.
    pub base_addr: usize,
    /// Distance in bytes between consecutive vertices.
    pub stride: usize,
    /// Number of attributes each vertex carries.
    pub attrib_count: usize,
    /// Attribute permutation mask, in least-to-most-significant nibble order.
    pub permutation: u64,
}

impl Info {
    /// Describe a vertex buffer.
    pub fn new(base_addr: usize, stride: usize, attrib_count: usize, permutation: u64) -> (r: Info)
        ensures
            r == (Info { base_addr, stride, attrib_count, permutation }),
    {
        Info { base_addr, stride, attrib_count, permutation }
    }
}

/// A range of vertices within a described buffer, ready for a non-indexed
/// draw.
#[derive(Clone, Copy, Debug, PartialEq, Eq, Structural)]
pub struct Slice {
    info: Info,
    first: usize,
    count: usize,
}

impl Slice {
    /// The descriptor of the buffer the range lies in.
    pub closed spec fn spec_info(self) -> Info {
        self.info
    }

    /// The first vertex of the range.
    pub closed spec fn spec_index(self) -> usize {
        self.first
    }

    /// The number of vertices in the range.
    pub closed spec fn spec_len(self) -> usize {
        self.count
    }

    /// Describe the `count` vertices starting at `first` within the buffer
    /// `info` describes.
    pub fn new(info: Info, first: usize, count: usize) -> (r: Slice)
        ensures
            r.spec_info() == info,
            r.spec_index() == first,
            r.spec_len() == count,
    {
        Slice { info, first, count }
    }

    /// The descriptor of the buffer the range lies in.
    pub fn info(&self) -> (r: &Info)
        ensures
            *r == self.spec_info(),
    {
        &self.info
    }

    /// The first vertex of the range.
    pub fn index(&self) -> (r: usize)
        ensures
            r == self.spec_index(),
    {
        self.first
    }

    /// The number of vertices in the range.
    pub fn len(&self) -> (r: usize)
        ensures
            r == self.spec_len(),
    {
        self.count
    }
}

} // verus!
