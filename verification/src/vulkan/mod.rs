//! The render engine: adapter selection, swapchain lifecycle, resources,
//! frame scheduling and command recording.

use vstd::prelude::*;

pub mod buffer;
pub mod command;
pub mod context;
pub mod descriptor;
pub mod device;
pub mod error;
pub mod image;
pub mod instance;
pub mod physical_device;
pub mod pipeline;
pub mod queue;
pub mod render_pass;
pub mod shaders;
pub mod swapchain;
pub mod sync;
pub mod utils;
pub mod vertex;

pub use buffer::VkBuffer;
pub use command::VkCommandPool;
pub use context::VkContext;
pub use descriptor::{VkDescriptorPool, VkDescriptorSet, VkDescriptorSetLayout};
pub use device::VkDevice;
pub use error::VkError;
pub use image::{create_image, create_image_view};
pub use instance::VkInstance;
pub use physical_device::VkPhysicalDevice;
pub use pipeline::VkPipeline;
pub use queue::{QueueFamiliesIndices, VkQueue};
pub use render_pass::VkRenderPass;
pub use shaders::VkShaderModule;
pub use swapchain::VkSwapchain;
pub use sync::{VkFence, VkSemaphore};
pub use utils::{find_depth_format, SwapChainSupportDetails};
pub use vertex::Vertex;

verus! {

/// Number of frame slots: how many frames may have GPU work outstanding.
pub const MAX_FRAMES_IN_FLIGHT: u32 = 2;

} // verus!
