//! The render context: frame scheduler, command recording for the current
//! frame, swapchain recreation and shutdown order.

use vstd::prelude::*;

use crate::vulkan::buffer::VkBuffer;
use crate::vulkan::command::{record_commands, spec_frame_commands, Command, DrawTargets};
use crate::vulkan::error::VkError;
use crate::vulkan::pipeline::VkPipeline;
use crate::vulkan::queue::SubmitInfo;
use crate::vulkan::swapchain::{spec_destroy_ops, DestroyOp, PresentInfo, VkSwapchain};
use crate::vulkan::sync::{FrameSlot, SlotState};
use crate::vulkan::MAX_FRAMES_IN_FLIGHT;

verus! {

/// Pipeline stage bit: colour attachment output.
pub const PIPELINE_STAGE_COLOR_ATTACHMENT_OUTPUT: u32 = 0x400;

/// The time limit of a wait that has none.
pub const NO_TIMEOUT: u64 = u64::MAX;

/// What the scheduler waits for.
#[derive(Debug, Clone, Copy, PartialEq, Eq, Structural)]
pub enum FramePhase {
    /// For the request to draw a frame.
    Ready,
    /// For the fence of the active slot.
    WaitingFence,
    /// For a swapchain image.
    Acquiring,
    /// For the swapchain to be rebuilt.
    Recreating,
    /// For the frame to be recorded, submitted and presented.
    Rendering,
    /// For nothing: the session has failed.
    Failed,
}

/// What happened outside since the scheduler last spoke.
#[derive(Debug, Clone, Copy, PartialEq, Eq, Structural)]
pub enum FrameEvent {
    /// A frame is to be drawn.
    Redraw,
    /// The wait for the fence has returned.
    FenceSignaled,
    /// An image was acquired; it may be suboptimal for the surface.
    ImageAcquired { image_index: u32, suboptimal: bool },
    /// No image was acquired: the swapchain is out of date.
    OutOfDate,
    /// The swapchain has been rebuilt.
    SwapchainRecreated,
    /// The steps of the frame have all been performed.
    FramePresented,
    /// One of the steps has failed for another reason.
    Failed,
}

/// One step of drawing into an acquired image.
#[derive(Debug, Clone, Copy, PartialEq, Eq, Structural)]
pub enum FrameStep {
    ResetFence { fence: u64 },
    /// Write this frame's transforms into the uniform buffer of the slot.
    UpdateUniformBuffer { slot: u32, buffer: u64 },
    ResetCommandBuffer { command_buffer: u64 },
    /// Record the commands of the frame for the image at `image_index`.
    RecordCommandBuffer { command_buffer: u64, image_index: u32 },
    /// Submit to the graphics queue.
    Submit { info: SubmitInfo },
    /// Present on the present queue.
    Present { info: PresentInfo },
}

/// What the application is to do next.
#[derive(Debug, Clone)]
pub enum FrameAction {
    /// Wait for the fence, for as long as `timeout` says.
    WaitForFence { fence: u64, timeout: u64 },
    /// Acquire the next image of the swapchain, waiting for as long as
    /// `timeout` says, and have the semaphore signalled when the image can
    /// be used.
    AcquireImage { swapchain: u64, semaphore: u64, timeout: u64 },
    /// Rebuild the swapchain; this frame is skipped.
    RecreateSwapchain,
    /// Perform the steps in order, and stop at the first that fails.
    Render { steps: Vec<FrameStep> },
    /// Nothing until the next frame is asked for.
    Finished,
    /// Give up: the session cannot go on.
    Abort,
}

/// One step of a shutdown or of a swapchain recreation.
#[derive(Debug, Clone, Copy, PartialEq, Eq, Structural)]
pub enum CleanupStep {
    /// Block until the device has finished all work.
    WaitDeviceIdle,
    Destroy(DestroyOp),
    DestroyDescriptorPool(u64),
    DestroyDescriptorSetLayout(u64),
    DestroyPipelineLayout(u64),
    DestroyPipeline(u64),
    DestroyRenderPass(u64),
    DestroySemaphore(u64),
    DestroyFence(u64),
    DestroyCommandPool(u64),
    DestroyDevice(u64),
}

/// Everything the engine holds while it renders.
#[derive(Debug, Clone)]
pub struct VkContext {
    /// The frame slots.
    pub slots: Vec<FrameSlot>,
    /// Index of the active frame slot.
    pub frame: u32,
    pub phase: FramePhase,
    pub swapchain: VkSwapchain,
    /// Handle of the render pass.
    pub render_pass: u64,
    pub pipeline: VkPipeline,
    pub vertex_buffer: VkBuffer,
    pub index_buffer: VkBuffer,
    /// Handle of the command pool.
    pub command_pool: u64,
    /// Handle of the descriptor pool.
    pub descriptor_pool: u64,
    /// Handle of the descriptor set layout.
    pub descriptor_set_layout: u64,
    /// Handle of the logical device.
    pub device: u64,
}

/// What the frame scheduler knows: the slots, which of them is active, and
/// what the scheduler waits for.
pub struct FrameState {
    pub slots: Seq<FrameSlot>,
    pub frame: u32,
    pub phase: FramePhase,
}

/// The slot that comes after `frame`.
pub open spec fn spec_next_frame(frame: u32) -> u32 {
    ((frame + 1) % (MAX_FRAMES_IN_FLIGHT as int)) as u32
}

/// The active slot after `count` frames were presented, starting at `frame`.
pub open spec fn spec_frame_after(frame: u32, count: nat) -> u32
    decreases count,
{
    if count == 0 {
        frame
    } else {
        spec_next_frame(spec_frame_after(frame, (count - 1) as nat))
    }
}

/// The steps of drawing into the image at `image_index` with the slot at
/// `frame`, in order: the fence is reset; the uniform buffer is updated; the
/// command buffer is reset and recorded; the work is submitted, to wait for
/// the image at the colour attachment output stage and to signal the
/// render-finished semaphore and the fence; the image is presented once the
/// render-finished semaphore is signalled.
pub open spec fn spec_render_steps(slot: FrameSlot, frame: u32, swapchain: u64, image_index: u32)
    -> Seq<FrameStep> {
    seq![
        FrameStep::ResetFence { fence: slot.in_flight.inner },
        FrameStep::UpdateUniformBuffer { slot: frame, buffer: slot.uniform_buffer },
        FrameStep::ResetCommandBuffer { command_buffer: slot.command_buffer },
        FrameStep::RecordCommandBuffer { command_buffer: slot.command_buffer, image_index },
        FrameStep::Submit {
            info: SubmitInfo {
                command_buffer: slot.command_buffer,
                wait_semaphore: slot.image_available.inner,
                wait_stage: PIPELINE_STAGE_COLOR_ATTACHMENT_OUTPUT,
                signal_semaphore: slot.render_finished.inner,
                fence: slot.in_flight.inner,
            },
        },
        FrameStep::Present {
            info: PresentInfo {
                wait_semaphore: slot.render_finished.inner,
                swapchain,
                image_index,
            },
        },
    ]
}

/// What the application is asked to do, as plain values.
pub enum ActionView {
    WaitForFence { fence: u64, timeout: u64 },
    AcquireImage { swapchain: u64, semaphore: u64, timeout: u64 },
    RecreateSwapchain,
    Render { steps: Seq<FrameStep> },
    Finished,
    Abort,
}

impl FrameAction {
    /// The action as plain values.
    pub open spec fn view(self) -> ActionView {
        match self {
            FrameAction::WaitForFence { fence, timeout } => ActionView::WaitForFence {
                fence,
                timeout,
            },
            FrameAction::AcquireImage { swapchain, semaphore, timeout } => ActionView::AcquireImage {
                swapchain,
                semaphore,
                timeout,
            },
            FrameAction::RecreateSwapchain => ActionView::RecreateSwapchain,
            FrameAction::Render { steps } => ActionView::Render { steps: steps@ },
            FrameAction::Finished => ActionView::Finished,
            FrameAction::Abort => ActionView::Abort,
        }
    }
}

impl FrameState {
    /// The active slot.
    pub open spec fn active(self) -> FrameSlot {
        self.slots[self.frame as int]
    }

    /// The state with the active slot replaced.
    pub open spec fn with_active(self, slot: FrameSlot, phase: FramePhase) -> FrameState {
        FrameState { slots: self.slots.update(self.frame as int, slot), frame: self.frame, phase }
    }

    /// The state in another phase.
    pub open spec fn in_phase(self, phase: FramePhase) -> FrameState {
        FrameState { slots: self.slots, frame: self.frame, phase }
    }

    /// There is one slot for each frame in flight and one of them is
    /// active. A slot other than the active one is idle or submitted, and a
    /// wait on its fence comes to an end. The active slot stands where the
    /// phase says: it is idle or submitted between frames, acquiring with
    /// its fence signalled while an image is acquired, and recording with
    /// its fence reset while the frame is rendered.
    pub open spec fn wf(self) -> bool {
        &&& self.slots.len() == MAX_FRAMES_IN_FLIGHT
        &&& self.frame < MAX_FRAMES_IN_FLIGHT
        &&& self.phase != FramePhase::Failed ==> {
            &&& forall|i: int|
                0 <= i < self.slots.len() && i != self.frame ==> (#[trigger] self.slots[i]).wf()
                    && (self.slots[i].state == SlotState::Idle || self.slots[i].state
                    == SlotState::Submitted)
            &&& match self.phase {
                FramePhase::Acquiring => self.active().state == SlotState::Acquiring
                    && self.active().fence_signaled,
                FramePhase::Rendering => self.active().state == SlotState::Recording
                    && !self.active().fence_signaled,
                _ => self.active().wf() && (self.active().state == SlotState::Idle
                    || self.active().state == SlotState::Submitted),
            }
        }
    }

    /// What the scheduler does on an event: the state it goes to and what it
    /// asks for. `image_count` is the number of swapchain images, and
    /// `swapchain` the handle of the swapchain.
    ///
    /// A redraw starts a frame with the wait for the fence of the active
    /// slot. When the fence is signalled, an image is acquired. Neither wait
    /// has a time limit. An image
    /// that is acquired and not suboptimal is rendered into: the fence is
    /// reset only now. A suboptimal image, or a swapchain that is out of
    /// date, has the swapchain rebuilt and the frame skipped: the slot goes
    /// back to idle with its fence still signalled, and stays the active
    /// one. When a frame was presented, its slot counts as submitted and the
    /// next slot becomes the active one. Anything else is fatal.
    pub open spec fn step(self, event: FrameEvent, swapchain: u64, image_count: nat) -> (
        FrameState,
        ActionView,
    ) {
        let slot = self.active();
        match (self.phase, event) {
            (FramePhase::Ready, FrameEvent::Redraw) => (
                self.in_phase(FramePhase::WaitingFence),
                ActionView::WaitForFence { fence: slot.in_flight.inner, timeout: NO_TIMEOUT },
            ),
            (FramePhase::WaitingFence, FrameEvent::FenceSignaled) => (
                self.with_active(
                    FrameSlot { state: SlotState::Acquiring, fence_signaled: true, ..slot },
                    FramePhase::Acquiring,
                ),
                ActionView::AcquireImage {
                    swapchain,
                    semaphore: slot.image_available.inner,
                    timeout: NO_TIMEOUT,
                },
            ),
            (FramePhase::Acquiring, FrameEvent::ImageAcquired { image_index, suboptimal }) => {
                if suboptimal {
                    (
                        self.with_active(
                            FrameSlot { state: SlotState::Idle, ..slot },
                            FramePhase::Recreating,
                        ),
                        ActionView::RecreateSwapchain,
                    )
                } else if image_index < image_count {
                    (
                        self.with_active(
                            FrameSlot { state: SlotState::Recording, fence_signaled: false, ..slot },
                            FramePhase::Rendering,
                        ),
                        ActionView::Render {
                            steps: spec_render_steps(slot, self.frame, swapchain, image_index),
                        },
                    )
                } else {
                    (self.in_phase(FramePhase::Failed), ActionView::Abort)
                }
            },
            (FramePhase::Acquiring, FrameEvent::OutOfDate) => (
                self.with_active(
                    FrameSlot { state: SlotState::Idle, ..slot },
                    FramePhase::Recreating,
                ),
                ActionView::RecreateSwapchain,
            ),
            (FramePhase::Recreating, FrameEvent::SwapchainRecreated) => (
                self.in_phase(FramePhase::Ready),
                ActionView::Finished,
            ),
            (FramePhase::Rendering, FrameEvent::FramePresented) => (
                FrameState {
                    slots: self.slots.update(
                        self.frame as int,
                        FrameSlot { state: SlotState::Submitted, ..slot },
                    ),
                    frame: spec_next_frame(self.frame),
                    phase: FramePhase::Ready,
                },
                ActionView::Finished,
            ),
            _ => (self.in_phase(FramePhase::Failed), ActionView::Abort),
        }
    }

    /// A whole frame that is rendered: redraw, fence, image, presentation.
    pub open spec fn render_frame(self, swapchain: u64, image_count: nat, image_index: u32)
        -> FrameState {
        self.step(FrameEvent::Redraw, swapchain, image_count).0.step(
            FrameEvent::FenceSignaled,
            swapchain,
            image_count,
        ).0.step(
            FrameEvent::ImageAcquired { image_index, suboptimal: false },
            swapchain,
            image_count,
        ).0.step(FrameEvent::FramePresented, swapchain, image_count).0
    }

    /// A whole frame that is skipped because the swapchain is out of date.
    pub open spec fn skip_frame(self, swapchain: u64, image_count: nat) -> FrameState {
        self.step(FrameEvent::Redraw, swapchain, image_count).0.step(
            FrameEvent::FenceSignaled,
            swapchain,
            image_count,
        ).0.step(FrameEvent::OutOfDate, swapchain, image_count).0.step(
            FrameEvent::SwapchainRecreated,
            swapchain,
            image_count,
        ).0
    }
}

/// The scheduler keeps its state well formed, whatever the event.
pub proof fn step_preserves_wf(state: FrameState, event: FrameEvent, swapchain: u64, image_count: nat)
    requires
        state.wf(),
    ensures
        state.step(event, swapchain, image_count).0.wf(),
{
    let next = state.step(event, swapchain, image_count).0;
    if next.phase != FramePhase::Failed {
        assert forall|i: int| 0 <= i < next.slots.len() && i != next.frame implies (
        #[trigger] next.slots[i]).wf() && (next.slots[i].state == SlotState::Idle
            || next.slots[i].state == SlotState::Submitted) by {
            if i != state.frame {
                assert(state.slots[i].wf());
            }
        }
    }
}

/// The scheduler asks for a frame to be rendered only while it is acquiring
/// an image, which it starts only when the fence of the slot is signalled:
/// work of a slot is never submitted while its earlier work may still run.
pub proof fn render_follows_fence(state: FrameState, event: FrameEvent, swapchain: u64, image_count: nat)
    requires
        state.wf(),
        state.step(event, swapchain, image_count).1 is Render,
    ensures
        state.phase == FramePhase::Acquiring,
        state.active().state == SlotState::Acquiring,
        state.active().fence_signaled,
        event is ImageAcquired,
{
}

/// Frame-slot cycling: a rendered frame moves on to the next slot.
pub proof fn rendered_frame_advances(state: FrameState, swapchain: u64, image_count: nat, image_index: u32)
    requires
        state.wf(),
        state.phase == FramePhase::Ready,
        image_index < image_count,
    ensures
        state.render_frame(swapchain, image_count, image_index).frame == spec_next_frame(
            state.frame,
        ),
        state.render_frame(swapchain, image_count, image_index).phase == FramePhase::Ready,
        state.render_frame(swapchain, image_count, image_index).wf(),
{
    let s1 = state.step(FrameEvent::Redraw, swapchain, image_count).0;
    step_preserves_wf(state, FrameEvent::Redraw, swapchain, image_count);
    let s2 = s1.step(FrameEvent::FenceSignaled, swapchain, image_count).0;
    step_preserves_wf(s1, FrameEvent::FenceSignaled, swapchain, image_count);
    let acquired = FrameEvent::ImageAcquired { image_index, suboptimal: false };
    let s3 = s2.step(acquired, swapchain, image_count).0;
    step_preserves_wf(s2, acquired, swapchain, image_count);
    step_preserves_wf(s3, FrameEvent::FramePresented, swapchain, image_count);
}

/// A skipped frame leaves the slots as they were, but for the fence of the
/// active slot, which is known to be signalled: the same slot is active,
/// idle or submitted as before, and the scheduler is ready again.
pub proof fn skipped_frame_keeps_slot(state: FrameState, swapchain: u64, image_count: nat)
    requires
        state.wf(),
        state.phase == FramePhase::Ready,
    ensures
        state.skip_frame(swapchain, image_count).frame == state.frame,
        state.skip_frame(swapchain, image_count).phase == FramePhase::Ready,
        state.skip_frame(swapchain, image_count).slots == state.slots.update(
            state.frame as int,
            FrameSlot { state: SlotState::Idle, fence_signaled: true, ..state.active() },
        ),
        state.skip_frame(swapchain, image_count).wf(),
{
    let s1 = state.step(FrameEvent::Redraw, swapchain, image_count).0;
    step_preserves_wf(state, FrameEvent::Redraw, swapchain, image_count);
    let s2 = s1.step(FrameEvent::FenceSignaled, swapchain, image_count).0;
    step_preserves_wf(s1, FrameEvent::FenceSignaled, swapchain, image_count);
    let s3 = s2.step(FrameEvent::OutOfDate, swapchain, image_count).0;
    step_preserves_wf(s2, FrameEvent::OutOfDate, swapchain, image_count);
    let s4 = s3.step(FrameEvent::SwapchainRecreated, swapchain, image_count).0;
    step_preserves_wf(s3, FrameEvent::SwapchainRecreated, swapchain, image_count);
    assert(s4.slots =~= state.slots.update(
        state.frame as int,
        FrameSlot { state: SlotState::Idle, fence_signaled: true, ..state.active() },
    ));
}

/// The state after one frame was rendered into each of the images at
/// `image_indices`, in order.
pub open spec fn spec_render_frames(
    state: FrameState,
    swapchain: u64,
    image_count: nat,
    image_indices: Seq<u32>,
) -> FrameState
    decreases image_indices.len(),
{
    if image_indices.len() == 0 {
        state
    } else {
        spec_render_frames(
            state,
            swapchain,
            image_count,
            image_indices.drop_last(),
        ).render_frame(swapchain, image_count, image_indices.last())
    }
}

/// Frame-slot cycling: after any number of rendered frames, the active slot
/// is the slot that the scheduler started with, advanced once for each
/// frame; starting with slot 0, it is the number of frames modulo the number
/// of slots.
pub proof fn rendered_frames_cycle(
    state: FrameState,
    swapchain: u64,
    image_count: nat,
    image_indices: Seq<u32>,
)
    requires
        state.wf(),
        state.phase == FramePhase::Ready,
        forall|i: int| 0 <= i < image_indices.len() ==> #[trigger] image_indices[i] < image_count,
    ensures
        spec_render_frames(state, swapchain, image_count, image_indices).wf(),
        spec_render_frames(state, swapchain, image_count, image_indices).phase == FramePhase::Ready,
        spec_render_frames(state, swapchain, image_count, image_indices).frame == spec_frame_after(
            state.frame,
            image_indices.len(),
        ),
        state.frame == 0 ==> spec_render_frames(state, swapchain, image_count, image_indices).frame
            == image_indices.len() % (MAX_FRAMES_IN_FLIGHT as nat),
    decreases image_indices.len(),
{
    if image_indices.len() > 0 {
        let earlier = image_indices.drop_last();
        assert forall|i: int| 0 <= i < earlier.len() implies #[trigger] earlier[i] < image_count by {
            assert(earlier[i] == image_indices[i]);
        }
        rendered_frames_cycle(state, swapchain, image_count, earlier);
        rendered_frame_advances(
            spec_render_frames(state, swapchain, image_count, earlier),
            swapchain,
            image_count,
            image_indices.last(),
        );
    }
    if state.frame == 0 {
        frame_slot_cycles(image_indices.len());
    }
}

/// Frame-slot cycling: after `count` frames were presented, starting with
/// slot 0, the active slot is `count` modulo the number of slots.
pub proof fn frame_slot_cycles(count: nat)
    ensures
        spec_frame_after(0, count) == count % (MAX_FRAMES_IN_FLIGHT as nat),
    decreases count,
{
    if count > 0 {
        frame_slot_cycles((count - 1) as nat);
    }
}

impl VkContext {
    /// What the frame scheduler knows.
    pub open spec fn frame_state(self) -> FrameState {
        FrameState { slots: self.slots@, frame: self.frame, phase: self.phase }
    }

    /// The scheduler's state is well formed, the swapchain has a view and a
    /// framebuffer for each image, and one draw can cover the index buffer.
    pub open spec fn wf(self) -> bool {
        &&& self.frame_state().wf()
        &&& self.swapchain.wf()
        &&& self.index_buffer.size <= u32::MAX
    }

    /// Whether everything but the scheduler's state is as in `other`.
    pub open spec fn same_resources(self, other: VkContext) -> bool {
        &&& self.swapchain == other.swapchain
        &&& self.render_pass == other.render_pass
        &&& self.pipeline == other.pipeline
        &&& self.vertex_buffer == other.vertex_buffer
        &&& self.index_buffer == other.index_buffer
        &&& self.command_pool == other.command_pool
        &&& self.descriptor_pool == other.descriptor_pool
        &&& self.descriptor_set_layout == other.descriptor_set_layout
        &&& self.device == other.device
    }

    /// What a frame draws with when it renders into the image at
    /// `image_index` with the active slot.
    pub open spec fn spec_draw_targets(self, image_index: u32) -> DrawTargets {
        DrawTargets {
            render_pass: self.render_pass,
            framebuffer: self.swapchain.framebuffers@[image_index as int],
            extent: self.swapchain.extent,
            pipeline: self.pipeline.inner,
            pipeline_layout: self.pipeline.layout,
            vertex_buffer: self.vertex_buffer.inner,
            index_buffer: self.index_buffer.inner,
            index_count: self.index_buffer.size as u32,
            descriptor_set: self.slots@[self.frame as int].descriptor_set,
        }
    }

    /// The steps of a shutdown, in order. The device is waited for first.
    /// Then everything created on the device is released: the swapchain with
    /// what depends on it, the uniform buffers, descriptor pool and layout,
    /// vertex and index buffer, pipeline and render pass, the
    /// synchronisation objects of each slot, and the command pool. The
    /// device goes last.
    pub open spec fn spec_cleanup_steps(self) -> Seq<CleanupStep> {
        spec_teardown_steps(spec_destroy_ops(self.swapchain)) + spec_slot_buffers(self.slots@) + seq![
            CleanupStep::DestroyDescriptorPool(self.descriptor_pool),
            CleanupStep::DestroyDescriptorSetLayout(self.descriptor_set_layout),
            CleanupStep::Destroy(DestroyOp::FreeMemory(self.vertex_buffer.memory)),
            CleanupStep::Destroy(DestroyOp::Buffer(self.vertex_buffer.inner)),
            CleanupStep::Destroy(DestroyOp::FreeMemory(self.index_buffer.memory)),
            CleanupStep::Destroy(DestroyOp::Buffer(self.index_buffer.inner)),
            CleanupStep::DestroyPipelineLayout(self.pipeline.layout),
            CleanupStep::DestroyPipeline(self.pipeline.inner),
            CleanupStep::DestroyRenderPass(self.render_pass),
        ] + spec_slot_sync(self.slots@) + seq![
            CleanupStep::DestroyCommandPool(self.command_pool),
            CleanupStep::DestroyDevice(self.device),
        ]
    }

    /// Puts the context together from what was created at startup. It
    /// starts with slot 0, ready for the first frame.
    ///
    /// There must be one unused slot for each frame in flight, the
    /// swapchain must have a view and a framebuffer for each image, and the
    /// number of indices must fit a draw.
    pub fn new(
        slots: Vec<FrameSlot>,
        swapchain: VkSwapchain,
        render_pass: u64,
        pipeline: VkPipeline,
        vertex_buffer: VkBuffer,
        index_buffer: VkBuffer,
        command_pool: u64,
        descriptor_pool: u64,
        descriptor_set_layout: u64,
        device: u64,
    ) -> (r: Result<VkContext, VkError>)
        ensures
            match r {
                Ok(context) => {
                    &&& spec_unused_slots(slots@)
                    &&& context.wf()
                    &&& context.slots@ == slots@
                    &&& context.frame == 0
                    &&& context.phase == FramePhase::Ready
                    &&& context.swapchain == swapchain
                    &&& context.render_pass == render_pass
                    &&& context.pipeline == pipeline
                    &&& context.vertex_buffer == vertex_buffer
                    &&& context.index_buffer == index_buffer
                    &&& context.command_pool == command_pool
                    &&& context.descriptor_pool == descriptor_pool
                    &&& context.descriptor_set_layout == descriptor_set_layout
                    &&& context.device == device
                },
                Err(e) => {
                    if !spec_unused_slots(slots@) {
                        e == VkError::FrameSlotMismatch
                    } else if !swapchain.wf() {
                        e == VkError::SwapchainMismatch
                    } else {
                        e == VkError::TooLarge && index_buffer.size > u32::MAX
                    }
                },
            },
    {
        if slots.len() != MAX_FRAMES_IN_FLIGHT as usize {
            return Err(VkError::FrameSlotMismatch);
        }
        let mut i: usize = 0;
        while i < slots.len()
            invariant
                i <= slots@.len(),
                slots@.len() == MAX_FRAMES_IN_FLIGHT,
                forall|k: int|
                    0 <= k < i ==> (#[trigger] slots@[k]).state == SlotState::Idle
                        && slots@[k].fence_signaled,
            decreases slots@.len() - i,
        {
            let unused = match slots[i].state {
                SlotState::Idle => slots[i].fence_signaled,
                _ => false,
            };
            if !unused {
                return Err(VkError::FrameSlotMismatch);
            }
            i += 1;
        }
        if swapchain.image_views.len() != swapchain.images.len() || swapchain.framebuffers.len()
            != swapchain.images.len() {
            return Err(VkError::SwapchainMismatch);
        }
        if index_buffer.size > u32::MAX as u64 {
            return Err(VkError::TooLarge);
        }
        Ok(
            VkContext {
                slots,
                frame: 0,
                phase: FramePhase::Ready,
                swapchain,
                render_pass,
                pipeline,
                vertex_buffer,
                index_buffer,
                command_pool,
                descriptor_pool,
                descriptor_set_layout,
                device,
            },
        )
    }

    /// The frame scheduler: takes what happened and says what to do next.
    ///
    /// The application starts a frame with [`FrameEvent::Redraw`], performs
    /// each action it is given and reports how it went, until the action is
    /// [`FrameAction::Finished`] or [`FrameAction::Abort`].
    pub fn draw_frame(&mut self, event: FrameEvent) -> (action: FrameAction)
        requires
            old(self).wf(),
        ensures
            final(self).wf(),
            final(self).same_resources(*old(self)),
            (final(self).frame_state(), action@) == old(self).frame_state().step(
                event,
                old(self).swapchain.swapchain,
                old(self).swapchain.framebuffers@.len(),
            ),
    {
        proof {
            step_preserves_wf(
                self.frame_state(),
                event,
                self.swapchain.swapchain,
                self.swapchain.framebuffers@.len(),
            );
        }
        let ghost before = self.frame_state();
        let index = self.frame as usize;
        let slot = self.slots[index];
        let action = match (self.phase, event) {
            (FramePhase::Ready, FrameEvent::Redraw) => {
                self.phase = FramePhase::WaitingFence;
                FrameAction::WaitForFence { fence: slot.in_flight.inner, timeout: NO_TIMEOUT }
            },
            (FramePhase::WaitingFence, FrameEvent::FenceSignaled) => {
                self.slots.set(
                    index,
                    FrameSlot { state: SlotState::Acquiring, fence_signaled: true, ..slot },
                );
                self.phase = FramePhase::Acquiring;
                FrameAction::AcquireImage {
                    swapchain: self.swapchain.swapchain,
                    semaphore: slot.image_available.inner,
                    timeout: NO_TIMEOUT,
                }
            },
            (FramePhase::Acquiring, FrameEvent::ImageAcquired { image_index, suboptimal }) => {
                if suboptimal {
                    self.slots.set(index, FrameSlot { state: SlotState::Idle, ..slot });
                    self.phase = FramePhase::Recreating;
                    FrameAction::RecreateSwapchain
                } else if (image_index as usize) < self.swapchain.framebuffers.len() {
                    self.slots.set(
                        index,
                        FrameSlot { state: SlotState::Recording, fence_signaled: false, ..slot },
                    );
                    self.phase = FramePhase::Rendering;
                    FrameAction::Render { steps: self.render_steps(&slot, image_index) }
                } else {
                    self.phase = FramePhase::Failed;
                    FrameAction::Abort
                }
            },
            (FramePhase::Acquiring, FrameEvent::OutOfDate) => {
                self.slots.set(index, FrameSlot { state: SlotState::Idle, ..slot });
                self.phase = FramePhase::Recreating;
                FrameAction::RecreateSwapchain
            },
            (FramePhase::Recreating, FrameEvent::SwapchainRecreated) => {
                self.phase = FramePhase::Ready;
                FrameAction::Finished
            },
            (FramePhase::Rendering, FrameEvent::FramePresented) => {
                self.slots.set(index, FrameSlot { state: SlotState::Submitted, ..slot });
                self.frame = (self.frame + 1) % MAX_FRAMES_IN_FLIGHT;
                self.phase = FramePhase::Ready;
                FrameAction::Finished
            },
            _ => {
                self.phase = FramePhase::Failed;
                FrameAction::Abort
            },
        };
        assert(self.frame_state().slots =~= before.step(
            event,
            self.swapchain.swapchain,
            self.swapchain.framebuffers@.len(),
        ).0.slots);
        action
    }

    /// The steps of drawing into the image at `image_index` with `slot`.
    fn render_steps(&self, slot: &FrameSlot, image_index: u32) -> (r: Vec<FrameStep>)
        ensures
            r@ == spec_render_steps(*slot, self.frame, self.swapchain.swapchain, image_index),
    {
        let mut steps: Vec<FrameStep> = Vec::new();
        steps.push(FrameStep::ResetFence { fence: slot.in_flight.inner });
        steps.push(FrameStep::UpdateUniformBuffer { slot: self.frame, buffer: slot.uniform_buffer });
        steps.push(FrameStep::ResetCommandBuffer { command_buffer: slot.command_buffer });
        steps.push(
            FrameStep::RecordCommandBuffer { command_buffer: slot.command_buffer, image_index },
        );
        steps.push(
            FrameStep::Submit {
                info: SubmitInfo {
                    command_buffer: slot.command_buffer,
                    wait_semaphore: slot.image_available.inner,
                    wait_stage: PIPELINE_STAGE_COLOR_ATTACHMENT_OUTPUT,
                    signal_semaphore: slot.render_finished.inner,
                    fence: slot.in_flight.inner,
                },
            },
        );
        steps.push(
            FrameStep::Present {
                info: self.swapchain.present_queue(slot.render_finished.inner, image_index),
            },
        );
        assert(steps@ =~= spec_render_steps(
            *slot,
            self.frame,
            self.swapchain.swapchain,
            image_index,
        ));
        steps
    }

    /// The command recorder: the commands of the current frame for the
    /// image at `image_index`, which draw into the framebuffer of that
    /// image. An index without a framebuffer has no commands.
    pub fn record_command_buffer(&self, image_index: u32) -> (r: Result<Vec<Command>, VkError>)
        requires
            self.wf(),
        ensures
            match r {
                Ok(commands) => image_index < self.swapchain.framebuffers@.len() && commands@
                    == spec_frame_commands(self.spec_draw_targets(image_index)),
                Err(e) => e == VkError::ImageOutOfRange && image_index
                    >= self.swapchain.framebuffers@.len(),
            },
    {
        if image_index as usize >= self.swapchain.framebuffers.len() {
            return Err(VkError::ImageOutOfRange);
        }
        let targets = DrawTargets {
            render_pass: self.render_pass,
            framebuffer: self.swapchain.framebuffers[image_index as usize],
            extent: self.swapchain.extent,
            pipeline: self.pipeline.inner,
            pipeline_layout: self.pipeline.layout,
            vertex_buffer: self.vertex_buffer.inner,
            index_buffer: self.index_buffer.inner,
            index_count: self.index_buffer.size as u32,
            descriptor_set: self.slots[self.frame as usize].descriptor_set,
        };
        Ok(record_commands(&targets))
    }

    /// Starts a swapchain recreation: returns the steps that wait for the
    /// device and then take the old swapchain apart, in order. Since the
    /// device is waited for, no work of any slot is outstanding afterwards.
    /// The new swapchain is built once these steps are done, and handed to
    /// [`VkContext::recreate_swapchain`].
    pub fn resize(&mut self) -> (r: Vec<CleanupStep>)
        requires
            old(self).wf(),
            old(self).phase == FramePhase::Ready || old(self).phase == FramePhase::Recreating,
        ensures
            r@ == spec_teardown_steps(spec_destroy_ops(old(self).swapchain)),
            final(self).wf(),
            final(self).frame == old(self).frame,
            final(self).phase == old(self).phase,
            final(self).slots@ == spec_settled_slots(old(self).slots@),
            final(self).swapchain.framebuffers@.len() == 0,
            final(self).swapchain.images@.len() == 0,
            final(self).swapchain.image_views@.len() == 0,
            final(self).render_pass == old(self).render_pass,
            final(self).pipeline == old(self).pipeline,
            final(self).vertex_buffer == old(self).vertex_buffer,
            final(self).index_buffer == old(self).index_buffer,
            final(self).command_pool == old(self).command_pool,
            final(self).descriptor_pool == old(self).descriptor_pool,
            final(self).descriptor_set_layout == old(self).descriptor_set_layout,
            final(self).device == old(self).device,
    {
        let ops = self.swapchain.destroy();
        let steps = teardown_steps(&ops);
        settle_slots(&mut self.slots);
        steps
    }

    /// Ends a swapchain recreation: the context renders into `swapchain`
    /// from now on.
    pub fn recreate_swapchain(&mut self, swapchain: VkSwapchain)
        requires
            old(self).wf(),
            swapchain.wf(),
        ensures
            final(self).wf(),
            final(self).swapchain == swapchain,
            final(self).frame_state() == old(self).frame_state(),
            final(self).render_pass == old(self).render_pass,
            final(self).pipeline == old(self).pipeline,
            final(self).vertex_buffer == old(self).vertex_buffer,
            final(self).index_buffer == old(self).index_buffer,
            final(self).command_pool == old(self).command_pool,
            final(self).descriptor_pool == old(self).descriptor_pool,
            final(self).descriptor_set_layout == old(self).descriptor_set_layout,
            final(self).device == old(self).device,
    {
        self.swapchain = swapchain;
    }

    /// Shuts the context down: returns the steps to perform, in order, and
    /// forgets the swapchain's images, views and framebuffers.
    pub fn cleanup(&mut self) -> (r: Vec<CleanupStep>)
        ensures
            r@ == old(self).spec_cleanup_steps(),
            final(self).swapchain.framebuffers@.len() == 0,
            final(self).swapchain.images@.len() == 0,
            final(self).swapchain.image_views@.len() == 0,
    {
        let ops = self.swapchain.destroy();
        let mut steps = teardown_steps(&ops);
        let ghost head = steps@;
        let mut k: usize = 0;
        while k < self.slots.len()
            invariant
                k <= self.slots@.len(),
                steps@ == head + spec_slot_buffers(self.slots@.take(k as int)),
            decreases self.slots@.len() - k,
        {
            let slot = self.slots[k];
            steps.push(CleanupStep::Destroy(DestroyOp::Buffer(slot.uniform_buffer)));
            steps.push(CleanupStep::Destroy(DestroyOp::FreeMemory(slot.uniform_memory)));
            k += 1;
            proof {
                let taken = self.slots@.take(k as int);
                assert(taken.drop_last() =~= self.slots@.take(k - 1));
                assert(taken.last() == slot);
            }
        }
        assert(self.slots@.take(self.slots@.len() as int) =~= self.slots@);
        steps.push(CleanupStep::DestroyDescriptorPool(self.descriptor_pool));
        steps.push(CleanupStep::DestroyDescriptorSetLayout(self.descriptor_set_layout));
        steps.push(CleanupStep::Destroy(DestroyOp::FreeMemory(self.vertex_buffer.memory)));
        steps.push(CleanupStep::Destroy(DestroyOp::Buffer(self.vertex_buffer.inner)));
        steps.push(CleanupStep::Destroy(DestroyOp::FreeMemory(self.index_buffer.memory)));
        steps.push(CleanupStep::Destroy(DestroyOp::Buffer(self.index_buffer.inner)));
        steps.push(CleanupStep::DestroyPipelineLayout(self.pipeline.layout));
        steps.push(CleanupStep::DestroyPipeline(self.pipeline.inner));
        steps.push(CleanupStep::DestroyRenderPass(self.render_pass));
        let ghost middle = steps@;
        let mut m: usize = 0;
        while m < self.slots.len()
            invariant
                m <= self.slots@.len(),
                steps@ == middle + spec_slot_sync(self.slots@.take(m as int)),
            decreases self.slots@.len() - m,
        {
            let slot = self.slots[m];
            steps.push(CleanupStep::DestroySemaphore(slot.render_finished.inner));
            steps.push(CleanupStep::DestroySemaphore(slot.image_available.inner));
            steps.push(CleanupStep::DestroyFence(slot.in_flight.inner));
            m += 1;
            proof {
                let taken = self.slots@.take(m as int);
                assert(taken.drop_last() =~= self.slots@.take(m - 1));
                assert(taken.last() == slot);
            }
        }
        assert(self.slots@.take(self.slots@.len() as int) =~= self.slots@);
        steps.push(CleanupStep::DestroyCommandPool(self.command_pool));
        steps.push(CleanupStep::DestroyDevice(self.device));
        assert(steps@ =~= old(self).spec_cleanup_steps());
        steps
    }
}

/// Whether `slots` are the slots of a context that has not rendered yet:
/// one for each frame in flight, each idle with its fence signalled.
pub open spec fn spec_unused_slots(slots: Seq<FrameSlot>) -> bool {
    &&& slots.len() == MAX_FRAMES_IN_FLIGHT
    &&& forall|k: int|
        0 <= k < slots.len() ==> (#[trigger] slots[k]).state == SlotState::Idle
            && slots[k].fence_signaled
}

/// A slot once the device has finished all work: idle, its fence signalled.
pub open spec fn spec_settled_slot(slot: FrameSlot) -> FrameSlot {
    FrameSlot { state: SlotState::Idle, fence_signaled: true, ..slot }
}

/// The slots once the device has finished all work.
pub open spec fn spec_settled_slots(slots: Seq<FrameSlot>) -> Seq<FrameSlot> {
    Seq::new(slots.len(), |i: int| spec_settled_slot(slots[i]))
}

/// The steps that take GPU objects apart once the device is idle: the wait
/// for the device, then the destroy operations in their order.
pub open spec fn spec_teardown_steps(ops: Seq<DestroyOp>) -> Seq<CleanupStep> {
    seq![CleanupStep::WaitDeviceIdle] + Seq::new(ops.len(), |i: int| CleanupStep::Destroy(ops[i]))
}

/// The steps that take GPU objects apart once the device is idle.
fn teardown_steps(ops: &Vec<DestroyOp>) -> (r: Vec<CleanupStep>)
    ensures
        r@ == spec_teardown_steps(ops@),
{
    let mut steps: Vec<CleanupStep> = Vec::new();
    steps.push(CleanupStep::WaitDeviceIdle);
    let mut i: usize = 0;
    while i < ops.len()
        invariant
            i <= ops@.len(),
            steps@.len() == i + 1,
            steps@[0] == CleanupStep::WaitDeviceIdle,
            forall|j: int| 1 <= j <= i ==> #[trigger] steps@[j] == CleanupStep::Destroy(ops@[j - 1]),
        decreases ops@.len() - i,
    {
        steps.push(CleanupStep::Destroy(ops[i]));
        i += 1;
    }
    assert(steps@ =~= spec_teardown_steps(ops@));
    steps
}

/// Brings the slots to where they stand once the device has finished all
/// work.
fn settle_slots(slots: &mut Vec<FrameSlot>)
    ensures
        final(slots)@ == spec_settled_slots(old(slots)@),
{
    let mut k: usize = 0;
    while k < slots.len()
        invariant
            k <= slots@.len(),
            slots@.len() == old(slots)@.len(),
            forall|m: int| 0 <= m < k ==> #[trigger] slots@[m] == spec_settled_slot(old(slots)@[m]),
            forall|m: int| k <= m < slots@.len() ==> #[trigger] slots@[m] == old(slots)@[m],
        decreases slots@.len() - k,
    {
        let slot = slots[k];
        slots.set(k, FrameSlot { state: SlotState::Idle, fence_signaled: true, ..slot });
        k += 1;
    }
    assert(slots@ =~= spec_settled_slots(old(slots)@));
}

/// The steps that release the uniform buffer of each slot, in slot order.
pub open spec fn spec_slot_buffers(slots: Seq<FrameSlot>) -> Seq<CleanupStep>
    decreases slots.len(),
{
    if slots.len() == 0 {
        Seq::empty()
    } else {
        spec_slot_buffers(slots.drop_last()) + seq![
            CleanupStep::Destroy(DestroyOp::Buffer(slots.last().uniform_buffer)),
            CleanupStep::Destroy(DestroyOp::FreeMemory(slots.last().uniform_memory)),
        ]
    }
}

/// The steps that destroy the semaphores and the fence of each slot, in
/// slot order.
pub open spec fn spec_slot_sync(slots: Seq<FrameSlot>) -> Seq<CleanupStep>
    decreases slots.len(),
{
    if slots.len() == 0 {
        Seq::empty()
    } else {
        spec_slot_sync(slots.drop_last()) + seq![
            CleanupStep::DestroySemaphore(slots.last().render_finished.inner),
            CleanupStep::DestroySemaphore(slots.last().image_available.inner),
            CleanupStep::DestroyFence(slots.last().in_flight.inner),
        ]
    }
}

/// A shutdown waits for the device first and destroys it last.
pub proof fn cleanup_brackets_device(context: VkContext)
    ensures
        context.spec_cleanup_steps().first() == CleanupStep::WaitDeviceIdle,
        context.spec_cleanup_steps().last() == CleanupStep::DestroyDevice(context.device),
{
}

} // verus!
