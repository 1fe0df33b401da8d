use scop::vulkan::buffer::VkBuffer;
use scop::vulkan::command::{
    clear_values, record_commands, Command, DrawTargets, VkCommandPool, INDEX_TYPE_UINT32,
};
use scop::vulkan::context::{
    CleanupStep, FrameAction, FrameEvent, FramePhase, FrameStep, VkContext,
    PIPELINE_STAGE_COLOR_ATTACHMENT_OUTPUT,
};
use scop::vulkan::error::VkError;
use scop::vulkan::pipeline::VkPipeline;
use scop::vulkan::queue::{SubmitInfo, VkQueue};
use scop::vulkan::swapchain::{
    DepthBuffer, DestroyOp, FramebufferCreateInfo, PresentInfo, VkSwapchain, PRESENT_MODE_FIFO,
};
use scop::vulkan::sync::{FrameSlot, SlotState, VkFence, VkSemaphore, FENCE_CREATE_SIGNALED};
use scop::vulkan::utils::{Extent2D, SurfaceCapabilities, SurfaceFormat};
use scop::vulkan::MAX_FRAMES_IN_FLIGHT;

const SWAPCHAIN: u64 = 900;

fn slot(number: u64) -> FrameSlot {
    FrameSlot::new(
        VkSemaphore::new(10 + number),
        VkSemaphore::new(20 + number),
        VkFence::new(30 + number),
        40 + number,
        50 + number,
        60 + number,
        70 + number,
    )
}

fn swapchain(images: usize) -> VkSwapchain {
    let capabilities = SurfaceCapabilities {
        min_image_count: 2,
        max_image_count: 0,
        current_extent: Extent2D { width: 640, height: 480 },
        min_image_extent: Extent2D { width: 1, height: 1 },
        max_image_extent: Extent2D { width: 4096, height: 4096 },
        current_transform: 1,
    };
    let info = VkSwapchain::create_info(
        &capabilities,
        SurfaceFormat { format: 50, color_space: 0 },
        PRESENT_MODE_FIFO,
        Extent2D { width: 640, height: 480 },
        0,
        0,
    );
    VkSwapchain::new(
        &info,
        SWAPCHAIN,
        (0..images as u64).map(|i| 100 + i).collect(),
        (0..images as u64).map(|i| 200 + i).collect(),
        DepthBuffer { image: 400, view: 401, memory: 402 },
        (0..images as u64).map(|i| 300 + i).collect(),
    )
    .unwrap()
}

fn context() -> VkContext {
    VkContext::new(
        vec![slot(0), slot(1)],
        swapchain(3),
        500,
        VkPipeline::new(501, 502),
        VkBuffer::new(503, 504, 72),
        VkBuffer::new(505, 506, 36),
        507,
        508,
        509,
        510,
    )
    .unwrap()
}

fn render(context: &mut VkContext, image_index: u32) -> Vec<FrameStep> {
    assert!(matches!(context.draw_frame(FrameEvent::Redraw), FrameAction::WaitForFence { .. }));
    assert!(matches!(
        context.draw_frame(FrameEvent::FenceSignaled),
        FrameAction::AcquireImage { .. }
    ));
    let steps = match context
        .draw_frame(FrameEvent::ImageAcquired { image_index, suboptimal: false })
    {
        FrameAction::Render { steps } => steps,
        other => panic!("unexpected action {:?}", other),
    };
    assert!(matches!(context.draw_frame(FrameEvent::FramePresented), FrameAction::Finished));
    steps
}

#[test]
fn frame_slots_cycle() {
    let mut context = context();
    assert_eq!(MAX_FRAMES_IN_FLIGHT, 2);
    assert_eq!(context.frame, 0);
    for frame in 1..=5u32 {
        render(&mut context, frame % 3);
        assert_eq!(context.frame, frame % 2);
    }
    assert_eq!(context.frame, 1);
}

#[test]
fn a_frame_waits_acquires_and_renders() {
    let mut context = context();
    match context.draw_frame(FrameEvent::Redraw) {
        FrameAction::WaitForFence { fence, timeout } => assert_eq!((fence, timeout), (30, u64::MAX)),
        other => panic!("unexpected action {:?}", other),
    }
    assert_eq!(context.phase, FramePhase::WaitingFence);
    match context.draw_frame(FrameEvent::FenceSignaled) {
        FrameAction::AcquireImage { swapchain, semaphore, timeout } => {
            assert_eq!((swapchain, semaphore, timeout), (SWAPCHAIN, 10, u64::MAX))
        }
        other => panic!("unexpected action {:?}", other),
    }
    assert_eq!(context.slots[0].state, SlotState::Acquiring);
    assert!(context.slots[0].fence_signaled);
    let steps = match context
        .draw_frame(FrameEvent::ImageAcquired { image_index: 2, suboptimal: false })
    {
        FrameAction::Render { steps } => steps,
        other => panic!("unexpected action {:?}", other),
    };
    assert_eq!(
        steps,
        vec![
            FrameStep::ResetFence { fence: 30 },
            FrameStep::UpdateUniformBuffer { slot: 0, buffer: 60 },
            FrameStep::ResetCommandBuffer { command_buffer: 40 },
            FrameStep::RecordCommandBuffer { command_buffer: 40, image_index: 2 },
            FrameStep::Submit {
                info: SubmitInfo {
                    command_buffer: 40,
                    wait_semaphore: 10,
                    wait_stage: PIPELINE_STAGE_COLOR_ATTACHMENT_OUTPUT,
                    signal_semaphore: 20,
                    fence: 30,
                },
            },
            FrameStep::Present {
                info: PresentInfo { wait_semaphore: 20, swapchain: SWAPCHAIN, image_index: 2 },
            },
        ]
    );
    assert_eq!(context.slots[0].state, SlotState::Recording);
    assert!(!context.slots[0].fence_signaled);
    assert_eq!(context.phase, FramePhase::Rendering);
    assert!(matches!(context.draw_frame(FrameEvent::FramePresented), FrameAction::Finished));
    assert_eq!(context.slots[0].state, SlotState::Submitted);
    assert_eq!(context.slots[1].state, SlotState::Idle);
    assert_eq!((context.frame, context.phase), (1, FramePhase::Ready));
}

#[test]
fn the_second_frame_uses_the_second_slot() {
    let mut context = context();
    render(&mut context, 0);
    let steps = render(&mut context, 1);
    assert_eq!(steps[0], FrameStep::ResetFence { fence: 31 });
    assert_eq!(steps[1], FrameStep::UpdateUniformBuffer { slot: 1, buffer: 61 });
    assert_eq!(context.slots[1].state, SlotState::Submitted);
    assert_eq!(context.frame, 0);
}

#[test]
fn an_outdated_swapchain_skips_the_frame() {
    let mut context = context();
    context.draw_frame(FrameEvent::Redraw);
    context.draw_frame(FrameEvent::FenceSignaled);
    assert!(matches!(context.draw_frame(FrameEvent::OutOfDate), FrameAction::RecreateSwapchain));
    assert_eq!(context.phase, FramePhase::Recreating);
    assert_eq!(context.slots[0].state, SlotState::Idle);
    assert!(context.slots[0].fence_signaled);
    assert!(matches!(context.draw_frame(FrameEvent::SwapchainRecreated), FrameAction::Finished));
    assert_eq!((context.frame, context.phase), (0, FramePhase::Ready));
    render(&mut context, 0);
    assert_eq!(context.frame, 1);
}

#[test]
fn a_suboptimal_image_skips_the_frame() {
    let mut context = context();
    render(&mut context, 0);
    context.draw_frame(FrameEvent::Redraw);
    context.draw_frame(FrameEvent::FenceSignaled);
    assert!(matches!(
        context.draw_frame(FrameEvent::ImageAcquired { image_index: 1, suboptimal: true }),
        FrameAction::RecreateSwapchain
    ));
    assert!(context.slots[1].fence_signaled);
    assert!(matches!(context.draw_frame(FrameEvent::SwapchainRecreated), FrameAction::Finished));
    assert_eq!(context.frame, 1);
    assert_eq!(context.slots[0].state, SlotState::Submitted);
}

#[test]
fn other_failures_are_fatal() {
    let mut failed = context();
    failed.draw_frame(FrameEvent::Redraw);
    assert!(matches!(failed.draw_frame(FrameEvent::Failed), FrameAction::Abort));
    assert_eq!(failed.phase, FramePhase::Failed);
    assert!(matches!(failed.draw_frame(FrameEvent::Redraw), FrameAction::Abort));

    let mut out_of_order = context();
    assert!(matches!(out_of_order.draw_frame(FrameEvent::FramePresented), FrameAction::Abort));

    let mut wrong_image = context();
    wrong_image.draw_frame(FrameEvent::Redraw);
    wrong_image.draw_frame(FrameEvent::FenceSignaled);
    assert!(matches!(
        wrong_image.draw_frame(FrameEvent::ImageAcquired { image_index: 3, suboptimal: false }),
        FrameAction::Abort
    ));
    assert_eq!(wrong_image.phase, FramePhase::Failed);
}

#[test]
fn commands_draw_the_whole_index_buffer() {
    let mut context = context();
    render(&mut context, 0);
    let commands = context.record_command_buffer(2).unwrap();
    let extent = Extent2D { width: 640, height: 480 };
    assert_eq!(
        commands,
        vec![
            Command::Begin { flags: 0 },
            Command::BeginRenderPass {
                render_pass: 500,
                framebuffer: 302,
                extent,
                clear: clear_values(),
                contents: 0,
            },
            Command::BindPipeline { bind_point: 0, pipeline: 501 },
            Command::BindVertexBuffer { first_binding: 0, buffer: 503, offset: 0 },
            Command::BindIndexBuffer { buffer: 505, offset: 0, index_type: INDEX_TYPE_UINT32 },
            Command::SetViewport { extent, min_depth: 0, max_depth: 0x3f80_0000 },
            Command::SetScissor { extent },
            Command::BindDescriptorSet {
                bind_point: 0,
                layout: 502,
                first_set: 0,
                descriptor_set: 51,
            },
            Command::DrawIndexed {
                index_count: 36,
                instance_count: 1,
                first_index: 0,
                vertex_offset: 0,
                first_instance: 0,
            },
            Command::EndRenderPass,
            Command::End,
        ]
    );
    assert!(matches!(context.record_command_buffer(3), Err(VkError::ImageOutOfRange)));
}

#[test]
fn clear_values_are_opaque_black_and_far() {
    let clear = clear_values();
    assert_eq!(
        [clear.red, clear.green, clear.blue, clear.alpha].map(f32::from_bits),
        [0.0, 0.0, 0.0, 1.0]
    );
    assert_eq!(f32::from_bits(clear.depth), 1.0);
    assert_eq!(clear.stencil, 0);
}

#[test]
fn recorded_commands_follow_the_targets() {
    let targets = DrawTargets {
        render_pass: 1,
        framebuffer: 2,
        extent: Extent2D { width: 3, height: 4 },
        pipeline: 5,
        pipeline_layout: 6,
        vertex_buffer: 7,
        index_buffer: 8,
        index_count: 9,
        descriptor_set: 10,
    };
    let commands = record_commands(&targets);
    assert_eq!(commands.len(), 11);
    assert_eq!(commands[0], Command::Begin { flags: 0 });
    assert_eq!(commands[2], Command::BindPipeline { bind_point: 0, pipeline: 5 });
    assert_eq!(commands[10], Command::End);
}

#[test]
fn context_needs_matching_parts() {
    let build = |slots: Vec<FrameSlot>, chain: VkSwapchain, indices: usize| {
        VkContext::new(
            slots,
            chain,
            500,
            VkPipeline::new(501, 502),
            VkBuffer::new(503, 504, 72),
            VkBuffer::new(505, 506, indices),
            507,
            508,
            509,
            510,
        )
    };
    assert!(matches!(build(vec![slot(0)], swapchain(3), 3), Err(VkError::FrameSlotMismatch)));
    assert!(matches!(
        build(vec![slot(0), slot(1), slot(2)], swapchain(3), 3),
        Err(VkError::FrameSlotMismatch)
    ));
    let mut used = slot(1);
    used.state = SlotState::Submitted;
    assert!(matches!(build(vec![slot(0), used], swapchain(3), 3), Err(VkError::FrameSlotMismatch)));
    let mut unsignalled = slot(0);
    unsignalled.fence_signaled = false;
    assert!(matches!(
        build(vec![unsignalled, slot(1)], swapchain(3), 3),
        Err(VkError::FrameSlotMismatch)
    ));
    let mut broken = swapchain(3);
    broken.framebuffers.pop();
    assert!(matches!(build(vec![slot(0), slot(1)], broken, 3), Err(VkError::SwapchainMismatch)));
    if usize::BITS > 32 {
        assert!(matches!(
            build(vec![slot(0), slot(1)], swapchain(3), u32::MAX as usize + 1),
            Err(VkError::TooLarge)
        ));
    }
    assert!(build(vec![slot(0), slot(1)], swapchain(0), 0).is_ok());
}

#[test]
fn swapchain_needs_a_view_and_a_framebuffer_for_each_image() {
    let chain = swapchain(2);
    assert_eq!(chain.images, vec![100, 101]);
    assert_eq!((chain.image_format, chain.extent), (50, Extent2D { width: 640, height: 480 }));
    let capabilities = SurfaceCapabilities {
        min_image_count: 2,
        max_image_count: 0,
        current_extent: Extent2D { width: 640, height: 480 },
        min_image_extent: Extent2D { width: 1, height: 1 },
        max_image_extent: Extent2D { width: 4096, height: 4096 },
        current_transform: 1,
    };
    let info = VkSwapchain::create_info(
        &capabilities,
        SurfaceFormat { format: 50, color_space: 0 },
        PRESENT_MODE_FIFO,
        Extent2D { width: 640, height: 480 },
        0,
        0,
    );
    let depth = DepthBuffer { image: 400, view: 401, memory: 402 };
    assert!(matches!(
        VkSwapchain::new(&info, 1, vec![1, 2], vec![3], depth, vec![5, 6]),
        Err(VkError::SwapchainMismatch)
    ));
    assert!(matches!(
        VkSwapchain::new(&info, 1, vec![1, 2], vec![3, 4], depth, vec![5, 6, 7]),
        Err(VkError::SwapchainMismatch)
    ));
}

#[test]
fn views_and_framebuffers_are_made_for_each_image() {
    let views = VkSwapchain::create_image_views(&vec![7, 8, 9], 50);
    assert_eq!(views.len(), 3);
    assert_eq!(views.iter().map(|view| view.image).collect::<Vec<_>>(), vec![7, 8, 9]);
    assert!(views.iter().all(|view| view.format == 50 && view.aspect_mask == 1));
    let extent = Extent2D { width: 640, height: 480 };
    let framebuffers = VkSwapchain::create_framebuffers(&vec![17, 18], 99, 5, extent);
    assert_eq!(
        framebuffers,
        vec![
            FramebufferCreateInfo {
                render_pass: 5,
                color_view: 17,
                depth_view: 99,
                width: 640,
                height: 480,
                layers: 1,
            },
            FramebufferCreateInfo {
                render_pass: 5,
                color_view: 18,
                depth_view: 99,
                width: 640,
                height: 480,
                layers: 1,
            },
        ]
    );
}

#[test]
fn swapchain_is_taken_apart_in_dependency_order() {
    let mut chain = swapchain(2);
    assert_eq!(
        chain.destroy(),
        vec![
            DestroyOp::Framebuffer(300),
            DestroyOp::Framebuffer(301),
            DestroyOp::ImageView(200),
            DestroyOp::ImageView(201),
            DestroyOp::ImageView(401),
            DestroyOp::Image(400),
            DestroyOp::FreeMemory(402),
            DestroyOp::Swapchain(SWAPCHAIN),
        ]
    );
    assert!(chain.images.is_empty() && chain.image_views.is_empty() && chain.framebuffers.is_empty());
    assert_eq!(chain.present_queue(4, 1), PresentInfo { wait_semaphore: 4, swapchain: SWAPCHAIN, image_index: 1 });
}

#[test]
fn resize_waits_then_destroys_then_takes_the_new_chain() {
    let mut context = context();
    render(&mut context, 0);
    let steps = context.resize();
    assert_eq!(steps[0], CleanupStep::WaitDeviceIdle);
    assert_eq!(steps[1], CleanupStep::Destroy(DestroyOp::Framebuffer(300)));
    assert_eq!(steps.last(), Some(&CleanupStep::Destroy(DestroyOp::Swapchain(SWAPCHAIN))));
    assert_eq!(steps.len(), 1 + 3 + 3 + 3 + 1);
    assert!(context.swapchain.framebuffers.is_empty());
    assert!(context.slots.iter().all(|slot| slot.state == SlotState::Idle && slot.fence_signaled));
    assert_eq!(context.frame, 1);
    context.recreate_swapchain(swapchain(2));
    assert_eq!(context.swapchain.framebuffers, vec![300, 301]);
    assert_eq!(context.frame, 1);
    render(&mut context, 1);
    assert_eq!(context.frame, 0);
}

#[test]
fn shutdown_waits_first_and_destroys_the_device_last() {
    let mut context = context();
    let steps = context.cleanup();
    assert_eq!(steps.first(), Some(&CleanupStep::WaitDeviceIdle));
    assert_eq!(steps.last(), Some(&CleanupStep::DestroyDevice(510)));
    assert_eq!(
        steps.iter().filter(|step| matches!(step, CleanupStep::DestroyDevice(_))).count(),
        1
    );
    let tail: Vec<CleanupStep> = steps[1 + 10..].to_vec();
    assert_eq!(
        tail,
        vec![
            CleanupStep::Destroy(DestroyOp::Buffer(60)),
            CleanupStep::Destroy(DestroyOp::FreeMemory(70)),
            CleanupStep::Destroy(DestroyOp::Buffer(61)),
            CleanupStep::Destroy(DestroyOp::FreeMemory(71)),
            CleanupStep::DestroyDescriptorPool(508),
            CleanupStep::DestroyDescriptorSetLayout(509),
            CleanupStep::Destroy(DestroyOp::FreeMemory(504)),
            CleanupStep::Destroy(DestroyOp::Buffer(503)),
            CleanupStep::Destroy(DestroyOp::FreeMemory(506)),
            CleanupStep::Destroy(DestroyOp::Buffer(505)),
            CleanupStep::DestroyPipelineLayout(502),
            CleanupStep::DestroyPipeline(501),
            CleanupStep::DestroyRenderPass(500),
            CleanupStep::DestroySemaphore(20),
            CleanupStep::DestroySemaphore(10),
            CleanupStep::DestroyFence(30),
            CleanupStep::DestroySemaphore(21),
            CleanupStep::DestroySemaphore(11),
            CleanupStep::DestroyFence(31),
            CleanupStep::DestroyCommandPool(507),
            CleanupStep::DestroyDevice(510),
        ]
    );
}

#[test]
fn queues_pools_and_fences_are_asked_for_as_described() {
    assert_eq!(VkQueue::new(3), VkQueue { family_index: 3, queue_index: 0 });
    assert_eq!(
        VkQueue::new(3).submit(1, 2, 3, 4, 5),
        SubmitInfo { command_buffer: 1, wait_semaphore: 2, wait_stage: 4, signal_semaphore: 3, fence: 5 }
    );
    let pool = VkCommandPool::new(3);
    assert_eq!((pool.flags, pool.queue_family_index, pool.level, pool.command_buffer_count), (2, 3, 0, 2));
    assert_eq!(VkFence::create_flags(), FENCE_CREATE_SIGNALED);
    let fresh = slot(0);
    assert_eq!(fresh.state, SlotState::Idle);
    assert!(fresh.fence_signaled);
}
