//! Render targets.
//!
//! A target stands for a drawable surface owned by the display subsystem,
//! together with its depth/stencil configuration and output transfer
//! parameters. The context never owns a target; it only binds one as the
//! active drawing destination for the duration of a frame. A target must be
//! configured with an output sink before it can be selected.

use vstd::prelude::*;

verus! {

/// The depth/stencil buffer format of a render target.
#[derive(Clone, Copy, Debug, PartialEq, Eq, Structural)]
pub enum DepthFormat {
    /// 16-bit depth.
    Depth16,
    /// 24-bit depth.
    Depth24,
    /// 24-bit depth with an 8-bit stencil.
    Depth24Stencil8,
}

/// A drawable surface plus its depth configuration and, once configured, its
/// output transfer parameters.
#[derive(Clone, Copy, Debug, PartialEq, Eq, Structural)]
pub struct Target {
    handle: usize,
    depth_format: Option<DepthFormat>,
    output_flags: Option<u32>,
}

impl Target {
    /// The handle under which the display subsystem knows the surface.
    pub closed spec fn spec_handle(self) -> usize {
        self.handle
    }

    /// The depth/stencil configuration, if the target has a depth buffer.
    pub closed spec fn spec_depth_format(self) -> Option<DepthFormat> {
        self.depth_format
    }

    /// Whether the target has been configured with an output sink.
    pub closed spec fn spec_has_output(self) -> bool {
        self.output_flags is Some
    }

    /// The output transfer parameters, once configured.
    pub closed spec fn spec_output_flags(self) -> Option<u32> {
        self.output_flags
    }

    /// Describe the surface `handle` with the given depth configuration. The
    /// target has no output sink yet and cannot be selected for drawing
    /// before [`Target::set_output`] runs.
    pub fn new(handle: usize, depth_format: Option<DepthFormat>) -> (r: Target)
        ensures
            r.spec_handle() == handle,
            r.spec_depth_format() == depth_format,
            !r.spec_has_output(),
    {
        Target { handle, depth_format, output_flags: None }
    }

    /// Configure where finished frames are transferred, making the target
    /// selectable for drawing.
    pub fn set_output(&mut self, transfer_flags: u32)
        ensures
            final(self).spec_handle() == old(self).spec_handle(),
            final(self).spec_depth_format() == old(self).spec_depth_format(),
            final(self).spec_output_flags() == Some(transfer_flags),
            final(self).spec_has_output(),
    {
        self.output_flags = Some(transfer_flags);
    }

    /// The handle under which the display subsystem knows the surface.
    pub fn handle(&self) -> (r: usize)
        ensures
            r == self.spec_handle(),
    {
        self.handle
    }

    /// Whether the target has been configured with an output sink.
    pub fn has_output(&self) -> (r: bool)
        ensures
            r == self.spec_has_output(),
    {
        self.output_flags.is_some()
    }
}

} // verus!
