//! Queue families of an adapter.

use vstd::prelude::*;

verus! {

/// Bit of a queue family's flags that marks it as graphics-capable.
pub const QUEUE_GRAPHICS_BIT: u32 = 0x1;

/// What the selector reads of one queue family.
#[derive(Debug, Clone, Copy, PartialEq, Eq, Structural)]
pub struct QueueFamily {
    /// Capability flags of the family.
    pub queue_flags: u32,
    /// Whether the family can present to the rendering surface.
    pub present_support: bool,
}

/// The queue families chosen for graphics work and for presentation.
#[derive(Debug, Clone, Copy, PartialEq, Eq, Structural)]
pub struct QueueFamiliesIndices {
    pub graphics_family: Option<u32>,
    pub present_family: Option<u32>,
}

/// A queue of the logical device: the first queue of its family.
#[derive(Debug, Clone, Copy, PartialEq, Eq, Structural)]
pub struct VkQueue {
    pub family_index: u32,
    /// Index of the queue within its family.
    pub queue_index: u32,
}

/// One batch of work for a queue.
#[derive(Debug, Clone, Copy, PartialEq, Eq, Structural)]
pub struct SubmitInfo {
    /// Handle of the command buffer to execute.
    pub command_buffer: u64,
    /// Handle of the semaphore to wait on.
    pub wait_semaphore: u64,
    /// Pipeline stages that wait for the semaphore.
    pub wait_stage: u32,
    /// Handle of the semaphore to signal when the work is done.
    pub signal_semaphore: u64,
    /// Handle of the fence to signal when the work is done.
    pub fence: u64,
}

impl VkQueue {
    /// The queue that the engine uses in a family: the first.
    pub fn new(queue_family_index: u32) -> (r: VkQueue)
        ensures
            r == (VkQueue { family_index: queue_family_index, queue_index: 0 }),
    {
        VkQueue { family_index: queue_family_index, queue_index: 0 }
    }

    /// A batch that executes `command_buffer` once `wait_semaphore` is
    /// signalled, holding back only the stages of `wait_stage`, and that
    /// signals `signal_semaphore` and `fence` when it is done.
    pub fn submit(
        &self,
        command_buffer: u64,
        wait_semaphore: u64,
        signal_semaphore: u64,
        wait_stage: u32,
        fence: u64,
    ) -> (r: SubmitInfo)
        ensures
            r == (SubmitInfo { command_buffer, wait_semaphore, wait_stage, signal_semaphore, fence }),
    {
        SubmitInfo { command_buffer, wait_semaphore, wait_stage, signal_semaphore, fence }
    }
}

impl QueueFamily {
    /// Whether the family accepts graphics commands.
    pub open spec fn spec_graphics(self) -> bool {
        self.queue_flags & QUEUE_GRAPHICS_BIT != 0
    }

    /// Whether the family accepts graphics commands.
    pub fn graphics(&self) -> (r: bool)
        ensures
            r == self.spec_graphics(),
    {
        self.queue_flags & QUEUE_GRAPHICS_BIT != 0
    }
}

} // verus!
