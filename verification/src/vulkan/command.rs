//! Command pool and the commands of one frame.

use vstd::prelude::*;

use crate::vulkan::utils::Extent2D;
use crate::vulkan::MAX_FRAMES_IN_FLIGHT;

verus! {

/// Command pool creation bit: command buffers can be reset one by one.
pub const COMMAND_POOL_CREATE_RESET_COMMAND_BUFFER: u32 = 0x2;

/// Numeric code of a primary command buffer.
pub const COMMAND_BUFFER_LEVEL_PRIMARY: i32 = 0;

/// Command buffer usage bit: the buffer is submitted once.
pub const COMMAND_BUFFER_USAGE_ONE_TIME_SUBMIT: u32 = 0x1;

/// Numeric code of the index type with 32 bits.
pub const INDEX_TYPE_UINT32: i32 = 1;

/// Numeric code of the graphics bind point.
pub const PIPELINE_BIND_POINT_GRAPHICS: i32 = 0;

/// Numeric code of inline subpass contents.
pub const SUBPASS_CONTENTS_INLINE: i32 = 0;

/// Encoding of the number one as a 32-bit IEEE 754 value.
pub const ONE_BITS: u32 = 0x3f80_0000;

/// Encoding of the number zero as a 32-bit IEEE 754 value.
pub const ZERO_BITS: u32 = 0;

/// What the engine asks for when it creates its command pool and the
/// command buffers of the frame slots.
#[derive(Debug, Clone, Copy, PartialEq, Eq, Structural)]
pub struct VkCommandPool {
    pub flags: u32,
    /// Family of the queue that the buffers are submitted to.
    pub queue_family_index: u32,
    pub level: i32,
    /// Number of command buffers.
    pub command_buffer_count: u32,
}

/// The values that a render pass clears its attachments to. The colour
/// components and the depth are 32-bit IEEE 754 encodings.
#[derive(Debug, Clone, Copy, PartialEq, Eq, Structural)]
pub struct ClearValues {
    pub red: u32,
    pub green: u32,
    pub blue: u32,
    pub alpha: u32,
    pub depth: u32,
    pub stencil: u32,
}

/// One command of a command buffer.
#[derive(Debug, Clone, Copy, PartialEq, Eq, Structural)]
pub enum Command {
    /// Begin the command buffer.
    Begin { flags: u32 },
    /// Begin the render pass on a framebuffer; the render area starts at the
    /// origin and has the size `extent`.
    BeginRenderPass {
        render_pass: u64,
        framebuffer: u64,
        extent: Extent2D,
        clear: ClearValues,
        contents: i32,
    },
    BindPipeline { bind_point: i32, pipeline: u64 },
    /// Bind one vertex buffer to binding `first_binding`.
    BindVertexBuffer { first_binding: u32, buffer: u64, offset: u64 },
    BindIndexBuffer { buffer: u64, offset: u64, index_type: i32 },
    /// Set the viewport: from the origin, of the size `extent`, with depths
    /// from zero to one.
    SetViewport { extent: Extent2D, min_depth: u32, max_depth: u32 },
    /// Set the scissor rectangle: from the origin, of the size `extent`.
    SetScissor { extent: Extent2D },
    /// Bind one descriptor set as set `first_set`.
    BindDescriptorSet { bind_point: i32, layout: u64, first_set: u32, descriptor_set: u64 },
    DrawIndexed {
        index_count: u32,
        instance_count: u32,
        first_index: u32,
        vertex_offset: i32,
        first_instance: u32,
    },
    EndRenderPass,
    /// End the command buffer.
    End,
}

/// Opaque black, and the farthest depth.
pub open spec fn spec_clear_values() -> ClearValues {
    ClearValues {
        red: ZERO_BITS,
        green: ZERO_BITS,
        blue: ZERO_BITS,
        alpha: ONE_BITS,
        depth: ONE_BITS,
        stencil: 0,
    }
}

/// What a frame asks the GPU to draw with.
#[derive(Debug, Clone, Copy, PartialEq, Eq, Structural)]
pub struct DrawTargets {
    pub render_pass: u64,
    /// Handle of the framebuffer of the acquired image.
    pub framebuffer: u64,
    /// Size of the swapchain images.
    pub extent: Extent2D,
    pub pipeline: u64,
    pub pipeline_layout: u64,
    pub vertex_buffer: u64,
    pub index_buffer: u64,
    /// Number of indices in the index buffer.
    pub index_count: u32,
    /// Handle of the descriptor set of the frame slot.
    pub descriptor_set: u64,
}

/// The commands of one frame, in order: the render pass is begun on the
/// framebuffer, clearing to opaque black and the farthest depth; pipeline,
/// vertex buffer and index buffer are bound from their start; viewport and
/// scissor are set to the whole image; the slot's descriptor set is bound;
/// one indexed draw covers the whole index buffer.
pub open spec fn spec_frame_commands(targets: DrawTargets) -> Seq<Command> {
    seq![
        Command::Begin { flags: 0 },
        Command::BeginRenderPass {
            render_pass: targets.render_pass,
            framebuffer: targets.framebuffer,
            extent: targets.extent,
            clear: spec_clear_values(),
            contents: SUBPASS_CONTENTS_INLINE,
        },
        Command::BindPipeline {
            bind_point: PIPELINE_BIND_POINT_GRAPHICS,
            pipeline: targets.pipeline,
        },
        Command::BindVertexBuffer { first_binding: 0, buffer: targets.vertex_buffer, offset: 0 },
        Command::BindIndexBuffer {
            buffer: targets.index_buffer,
            offset: 0,
            index_type: INDEX_TYPE_UINT32,
        },
        Command::SetViewport { extent: targets.extent, min_depth: ZERO_BITS, max_depth: ONE_BITS },
        Command::SetScissor { extent: targets.extent },
        Command::BindDescriptorSet {
            bind_point: PIPELINE_BIND_POINT_GRAPHICS,
            layout: targets.pipeline_layout,
            first_set: 0,
            descriptor_set: targets.descriptor_set,
        },
        Command::DrawIndexed {
            index_count: targets.index_count,
            instance_count: 1,
            first_index: 0,
            vertex_offset: 0,
            first_instance: 0,
        },
        Command::EndRenderPass,
        Command::End,
    ]
}

/// The values that the render pass clears to: opaque black, and the
/// farthest depth.
pub fn clear_values() -> (r: ClearValues)
    ensures
        r == spec_clear_values(),
{
    ClearValues {
        red: ZERO_BITS,
        green: ZERO_BITS,
        blue: ZERO_BITS,
        alpha: ONE_BITS,
        depth: ONE_BITS,
        stencil: 0,
    }
}

/// Records the commands of one frame.
pub fn record_commands(targets: &DrawTargets) -> (r: Vec<Command>)
    ensures
        r@ == spec_frame_commands(*targets),
{
    let mut commands: Vec<Command> = Vec::new();
    commands.push(Command::Begin { flags: 0 });
    commands.push(
        Command::BeginRenderPass {
            render_pass: targets.render_pass,
            framebuffer: targets.framebuffer,
            extent: targets.extent,
            clear: clear_values(),
            contents: SUBPASS_CONTENTS_INLINE,
        },
    );
    commands.push(
        Command::BindPipeline {
            bind_point: PIPELINE_BIND_POINT_GRAPHICS,
            pipeline: targets.pipeline,
        },
    );
    commands.push(
        Command::BindVertexBuffer { first_binding: 0, buffer: targets.vertex_buffer, offset: 0 },
    );
    commands.push(
        Command::BindIndexBuffer {
            buffer: targets.index_buffer,
            offset: 0,
            index_type: INDEX_TYPE_UINT32,
        },
    );
    commands.push(
        Command::SetViewport { extent: targets.extent, min_depth: ZERO_BITS, max_depth: ONE_BITS },
    );
    commands.push(Command::SetScissor { extent: targets.extent });
    commands.push(
        Command::BindDescriptorSet {
            bind_point: PIPELINE_BIND_POINT_GRAPHICS,
            layout: targets.pipeline_layout,
            first_set: 0,
            descriptor_set: targets.descriptor_set,
        },
    );
    commands.push(
        Command::DrawIndexed {
            index_count: targets.index_count,
            instance_count: 1,
            first_index: 0,
            vertex_offset: 0,
            first_instance: 0,
        },
    );
    commands.push(Command::EndRenderPass);
    commands.push(Command::End);
    assert(commands@ =~= spec_frame_commands(*targets));
    commands
}

impl VkCommandPool {
    /// The command pool of the engine: on the graphics family, with one
    /// primary command buffer for each frame slot, each of which can be
    /// reset on its own.
    pub fn new(graphics_family: u32) -> (r: VkCommandPool)
        ensures
            r == (VkCommandPool {
                flags: COMMAND_POOL_CREATE_RESET_COMMAND_BUFFER,
                queue_family_index: graphics_family,
                level: COMMAND_BUFFER_LEVEL_PRIMARY,
                command_buffer_count: MAX_FRAMES_IN_FLIGHT,
            }),
    {
        VkCommandPool {
            flags: COMMAND_POOL_CREATE_RESET_COMMAND_BUFFER,
            queue_family_index: graphics_family,
            level: COMMAND_BUFFER_LEVEL_PRIMARY,
            command_buffer_count: MAX_FRAMES_IN_FLIGHT,
        }
    }
}

} // verus!
