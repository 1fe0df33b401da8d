//! Errors of the render engine.

use vstd::prelude::*;

verus! {

/// What can go wrong while the engine decides.
#[derive(Debug, Clone, Copy, PartialEq, Eq, Structural)]
pub enum VkError {
    /// No adapter passed the eligibility rules.
    NoSuitableAdapter,
    /// No memory type is allowed by the filter and has the required
    /// properties.
    NoSuitableMemoryType,
    /// None of the candidate formats has the required features.
    NoSupportedFormat,
    /// The adapter has no queue family for graphics or none for presentation.
    MissingQueueFamily,
    /// The bytes of a shader are not a whole number of 32-bit words.
    MalformedShader,
    /// The parts of a swapchain do not belong together: there is not one
    /// image view and one framebuffer for each image.
    SwapchainMismatch,
    /// There is not one unused frame slot, with its buffer and descriptor
    /// set, for each frame in flight.
    FrameSlotMismatch,
    /// Validation layers are asked for and the system does not have them.
    ValidationLayersUnsupported,
    /// The acquired image has no framebuffer.
    ImageOutOfRange,
    /// A size does not fit the integer that carries it.
    TooLarge,
}

} // verus!
