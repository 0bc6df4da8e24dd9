use vstd::prelude::*;

verus! {

/// Fatal error conditions of the engine core.
///
/// Recoverable conditions (a stale swapchain, a zero-area window) are not
/// errors: they are ordinary results of the draw state machine.
#[derive(Clone, Copy, Debug, PartialEq, Eq, Structural)]
pub enum EngineError {
    /// No physical device supports graphics, presentation, the required
    /// extensions and a usable swapchain.
    NoSuitableDevice,
    /// No memory type matches both the type bitmask and the required
    /// property flags.
    NoSuitableMemoryType,
    /// The instance reports no layers at all.
    NoAvailableLayers,
    /// A required validation layer is missing; the payload is the index of
    /// the missing entry in the required-layer list.
    LayerNotFound { index: usize },
    /// No candidate image format supports the required features.
    NoSuitableFormat,
    /// A driver-provided string was not valid UTF-8.
    InvalidUtf8,
}

} // verus!
