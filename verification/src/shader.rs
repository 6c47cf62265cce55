//! Shader programs and shader stages.
//!
//! Shader compilation and loading happen outside this layer; a program is
//! referenced here only through an opaque handle. Binding a program copies
//! the handle into driver state and never touches the program's own
//! resources.

use vstd::prelude::*;

verus! {

/// The shader stage a uniform upload is tagged with.
#[derive(Clone, Copy, Debug, PartialEq, Eq, Structural)]
pub enum Type {
    /// The vertex shader stage.
    Vertex,
    /// The geometry shader stage.
    Geometry,
}

/// A previously compiled shader program, referenced by an opaque handle.
#[derive(Clone, Copy, Debug, PartialEq, Eq, Structural)]
pub struct Program {
    /// The opaque handle under which the loader published the program.
    pub handle: usize,
}

impl Program {
    /// Wrap the handle of a compiled program.
    pub fn new(handle: usize) -> (r: Program)
        ensures
            r.handle == handle,
    {
        Program { handle }
    }
}

} // verus!
