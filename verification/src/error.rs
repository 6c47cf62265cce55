//! Recoverable failure conditions reported by the context.

use vstd::prelude::*;

verus! {

/// A recoverable failure, surfaced as a result value at the call that
/// detected it.
///
/// Residency violations are deliberately absent: handing the driver an index
/// buffer outside the linear region would corrupt memory or crash the device,
/// so that condition is kept unrepresentable by construction (see
/// [`crate::LinearIndices`]) instead of being reported for recovery.
#[derive(Clone, Copy, Debug, PartialEq, Eq, Structural)]
pub enum Error {
    /// The driver could not be initialized: it is already initialized, or it
    /// lacks the resources for the requested command buffer.
    FailedToInitialize,
    /// The selected render target cannot be drawn on.
    InvalidRenderTarget,
}

} // verus!
