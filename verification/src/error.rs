use vstd::prelude::*;

verus! {

/// Why the loader gave up.
#[derive(Debug, Clone, Copy, PartialEq, Eq, Structural)]
pub enum LoaderError {
    /// No display mode with a linear framebuffer was offered.
    NoGraphicsOutput,
    /// The memory map could not be collected: an allocation failed, or the
    /// buffer was still too small after the last permitted attempt.
    AllocationFailure,
    /// Firmware kept rejecting the map key until the attempts ran out.
    ExitFailed,
    /// The copied block does not start with the expected magic value.
    MagicMismatch,
}

} // verus!
