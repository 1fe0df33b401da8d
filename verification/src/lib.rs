//! The decision core of a small Vulkan mesh viewer.
//!
//! Every rule of the renderer (which adapter to use, how the swapchain is
//! configured, in which order a frame is synchronised, what a command buffer
//! holds) is a function over plain values with a machine-checked contract.
//! The application around this library performs the Vulkan calls.

use vstd::prelude::*;

pub mod materials;
pub mod objects;
pub mod text;
pub mod vulkan;

verus! {

/// Initial width of the window, in pixels.
pub const WINDOW_WIDTH: u32 = 300;

/// Initial height of the window, in pixels.
pub const WINDOW_HEIGHT: u32 = 300;

} // verus!
