//! Frame slots: the synchronisation objects of one frame in flight, and
//! where the slot stands in the life of a frame.

use vstd::prelude::*;

verus! {

/// Fence creation bit: the fence starts out signalled.
pub const FENCE_CREATE_SIGNALED: u32 = 0x1;

/// A fence, by handle. The engine creates its fences signalled, so that the
/// first wait on a slot returns at once.
#[derive(Debug, Clone, Copy, PartialEq, Eq, Structural)]
pub struct VkFence {
    pub inner: u64,
}

/// A semaphore, by handle.
#[derive(Debug, Clone, Copy, PartialEq, Eq, Structural)]
pub struct VkSemaphore {
    pub inner: u64,
}

/// Where a frame slot stands.
#[derive(Debug, Clone, Copy, PartialEq, Eq, Structural)]
pub enum SlotState {
    /// No work of the slot is outstanding.
    Idle,
    /// The slot waits for a swapchain image.
    Acquiring,
    /// The slot's command buffer is being recorded.
    Recording,
    /// The slot's work was handed to the GPU; its fence will tell when the
    /// work is done.
    Submitted,
}

/// One of the reusable sets of per-frame objects.
#[derive(Debug, Clone, Copy, PartialEq, Eq, Structural)]
pub struct FrameSlot {
    /// Signalled when the acquired image may be drawn to.
    pub image_available: VkSemaphore,
    /// Signalled when drawing is done and the image may be shown.
    pub render_finished: VkSemaphore,
    /// Signalled when the slot's GPU work is done.
    pub in_flight: VkFence,
    /// Handle of the slot's command buffer.
    pub command_buffer: u64,
    /// Handle of the slot's descriptor set.
    pub descriptor_set: u64,
    /// Handle of the slot's uniform buffer.
    pub uniform_buffer: u64,
    /// Handle of the memory of the uniform buffer.
    pub uniform_memory: u64,
    pub state: SlotState,
    /// Whether the fence is known to be signalled.
    pub fence_signaled: bool,
}

impl VkFence {
    /// The flags with which the fence of a frame slot is created.
    pub fn create_flags() -> (r: u32)
        ensures
            r == FENCE_CREATE_SIGNALED,
    {
        FENCE_CREATE_SIGNALED
    }

    /// The fence with the given handle.
    pub fn new(inner: u64) -> (r: VkFence)
        ensures
            r.inner == inner,
    {
        VkFence { inner }
    }
}

impl VkSemaphore {
    /// The semaphore with the given handle.
    pub fn new(inner: u64) -> (r: VkSemaphore)
        ensures
            r.inner == inner,
    {
        VkSemaphore { inner }
    }
}

impl FrameSlot {
    /// A wait on the fence of the slot comes to an end: the fence is known
    /// to be signalled, or the GPU holds work that will signal it.
    pub open spec fn wf(self) -> bool {
        self.state == SlotState::Submitted || self.fence_signaled
    }

    /// A slot that has not been used: idle, with its fence signalled.
    pub fn new(
        image_available: VkSemaphore,
        render_finished: VkSemaphore,
        in_flight: VkFence,
        command_buffer: u64,
        descriptor_set: u64,
        uniform_buffer: u64,
        uniform_memory: u64,
    ) -> (r: FrameSlot)
        ensures
            r == (FrameSlot {
                image_available,
                render_finished,
                in_flight,
                command_buffer,
                descriptor_set,
                uniform_buffer,
                uniform_memory,
                state: SlotState::Idle,
                fence_signaled: true,
            }),
            r.wf(),
    {
        FrameSlot {
            image_available,
            render_finished,
            in_flight,
            command_buffer,
            descriptor_set,
            uniform_buffer,
            uniform_memory,
            state: SlotState::Idle,
            fence_signaled: true,
        }
    }
}

} // verus!
