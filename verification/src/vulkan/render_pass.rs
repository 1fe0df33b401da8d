//! Render pass: one colour attachment that is presented, and one depth
//! attachment.

use vstd::prelude::*;

use crate::vulkan::command::PIPELINE_BIND_POINT_GRAPHICS;
use crate::vulkan::context::PIPELINE_STAGE_COLOR_ATTACHMENT_OUTPUT;
use crate::vulkan::image::{IMAGE_LAYOUT_UNDEFINED, SAMPLE_COUNT_1};

verus! {

/// Numeric code of the load operation "clear".
pub const ATTACHMENT_LOAD_OP_CLEAR: i32 = 1;

/// Numeric code of the load operation "don't care".
pub const ATTACHMENT_LOAD_OP_DONT_CARE: i32 = 2;

/// Numeric code of the store operation "store".
pub const ATTACHMENT_STORE_OP_STORE: i32 = 0;

/// Numeric code of the store operation "don't care".
pub const ATTACHMENT_STORE_OP_DONT_CARE: i32 = 1;

/// Numeric code of the image layout for colour attachments.
pub const IMAGE_LAYOUT_COLOR_ATTACHMENT_OPTIMAL: i32 = 2;

/// Numeric code of the image layout for depth-stencil attachments.
pub const IMAGE_LAYOUT_DEPTH_STENCIL_ATTACHMENT_OPTIMAL: i32 = 3;

/// Numeric code of the image layout for presentation.
pub const IMAGE_LAYOUT_PRESENT_SRC: i32 = 1000001002;

/// The subpass index that stands for everything outside the render pass.
pub const SUBPASS_EXTERNAL: u32 = 0xffff_ffff;

/// Pipeline stage bit: early fragment tests.
pub const PIPELINE_STAGE_EARLY_FRAGMENT_TESTS: u32 = 0x100;

/// Access bit: writes to a colour attachment.
pub const ACCESS_COLOR_ATTACHMENT_WRITE: u32 = 0x100;

/// Access bit: writes to a depth-stencil attachment.
pub const ACCESS_DEPTH_STENCIL_ATTACHMENT_WRITE: u32 = 0x400;

/// One attachment of a render pass.
#[derive(Debug, Clone, Copy, PartialEq, Eq, Structural)]
pub struct AttachmentDescription {
    pub format: i32,
    pub samples: u32,
    pub load_op: i32,
    pub store_op: i32,
    pub stencil_load_op: i32,
    pub stencil_store_op: i32,
    pub initial_layout: i32,
    pub final_layout: i32,
}

/// How a subpass uses one attachment.
#[derive(Debug, Clone, Copy, PartialEq, Eq, Structural)]
pub struct AttachmentReference {
    /// Index of the attachment.
    pub attachment: u32,
    pub layout: i32,
}

/// What a subpass waits for before it starts.
#[derive(Debug, Clone, Copy, PartialEq, Eq, Structural)]
pub struct SubpassDependency {
    pub src_subpass: u32,
    pub dst_subpass: u32,
    pub src_stage_mask: u32,
    pub dst_stage_mask: u32,
    pub src_access_mask: u32,
    pub dst_access_mask: u32,
}

/// What the engine asks for when it creates its render pass: one subpass
/// with a colour and a depth attachment.
#[derive(Debug, Clone, Copy, PartialEq, Eq, Structural)]
pub struct VkRenderPass {
    pub color_attachment: AttachmentDescription,
    pub depth_attachment: AttachmentDescription,
    pub pipeline_bind_point: i32,
    pub color_reference: AttachmentReference,
    pub depth_reference: AttachmentReference,
    pub dependency: SubpassDependency,
}

/// The render pass for the given formats. Both attachments are cleared when
/// the pass begins. The colour attachment is kept and left ready to be
/// presented; what the depth attachment holds afterwards does not matter.
/// The subpass waits for earlier use of the attachments to end before it
/// writes to them.
pub open spec fn spec_render_pass(color_format: i32, depth_format: i32) -> VkRenderPass {
    VkRenderPass {
        color_attachment: AttachmentDescription {
            format: color_format,
            samples: SAMPLE_COUNT_1,
            load_op: ATTACHMENT_LOAD_OP_CLEAR,
            store_op: ATTACHMENT_STORE_OP_STORE,
            stencil_load_op: ATTACHMENT_LOAD_OP_DONT_CARE,
            stencil_store_op: ATTACHMENT_STORE_OP_DONT_CARE,
            initial_layout: IMAGE_LAYOUT_UNDEFINED,
            final_layout: IMAGE_LAYOUT_PRESENT_SRC,
        },
        depth_attachment: AttachmentDescription {
            format: depth_format,
            samples: SAMPLE_COUNT_1,
            load_op: ATTACHMENT_LOAD_OP_CLEAR,
            store_op: ATTACHMENT_STORE_OP_DONT_CARE,
            stencil_load_op: ATTACHMENT_LOAD_OP_DONT_CARE,
            stencil_store_op: ATTACHMENT_STORE_OP_DONT_CARE,
            initial_layout: IMAGE_LAYOUT_UNDEFINED,
            final_layout: IMAGE_LAYOUT_DEPTH_STENCIL_ATTACHMENT_OPTIMAL,
        },
        pipeline_bind_point: PIPELINE_BIND_POINT_GRAPHICS,
        color_reference: AttachmentReference {
            attachment: 0,
            layout: IMAGE_LAYOUT_COLOR_ATTACHMENT_OPTIMAL,
        },
        depth_reference: AttachmentReference {
            attachment: 1,
            layout: IMAGE_LAYOUT_DEPTH_STENCIL_ATTACHMENT_OPTIMAL,
        },
        dependency: SubpassDependency {
            src_subpass: SUBPASS_EXTERNAL,
            dst_subpass: 0,
            src_stage_mask: PIPELINE_STAGE_COLOR_ATTACHMENT_OUTPUT
                | PIPELINE_STAGE_EARLY_FRAGMENT_TESTS,
            dst_stage_mask: PIPELINE_STAGE_COLOR_ATTACHMENT_OUTPUT
                | PIPELINE_STAGE_EARLY_FRAGMENT_TESTS,
            src_access_mask: 0,
            dst_access_mask: ACCESS_COLOR_ATTACHMENT_WRITE | ACCESS_DEPTH_STENCIL_ATTACHMENT_WRITE,
        },
    }
}

impl VkRenderPass {
    /// The render pass for a swapchain of the format `color_format` and a
    /// depth buffer of the format `depth_format`.
    pub fn new(color_format: i32, depth_format: i32) -> (r: VkRenderPass)
        ensures
            r == spec_render_pass(color_format, depth_format),
    {
        VkRenderPass {
            color_attachment: AttachmentDescription {
                format: color_format,
                samples: SAMPLE_COUNT_1,
                load_op: ATTACHMENT_LOAD_OP_CLEAR,
                store_op: ATTACHMENT_STORE_OP_STORE,
                stencil_load_op: ATTACHMENT_LOAD_OP_DONT_CARE,
                stencil_store_op: ATTACHMENT_STORE_OP_DONT_CARE,
                initial_layout: IMAGE_LAYOUT_UNDEFINED,
                final_layout: IMAGE_LAYOUT_PRESENT_SRC,
            },
            depth_attachment: AttachmentDescription {
                format: depth_format,
                samples: SAMPLE_COUNT_1,
                load_op: ATTACHMENT_LOAD_OP_CLEAR,
                store_op: ATTACHMENT_STORE_OP_DONT_CARE,
                stencil_load_op: ATTACHMENT_LOAD_OP_DONT_CARE,
                stencil_store_op: ATTACHMENT_STORE_OP_DONT_CARE,
                initial_layout: IMAGE_LAYOUT_UNDEFINED,
                final_layout: IMAGE_LAYOUT_DEPTH_STENCIL_ATTACHMENT_OPTIMAL,
            },
            pipeline_bind_point: PIPELINE_BIND_POINT_GRAPHICS,
            color_reference: AttachmentReference {
                attachment: 0,
                layout: IMAGE_LAYOUT_COLOR_ATTACHMENT_OPTIMAL,
            },
            depth_reference: AttachmentReference {
                attachment: 1,
                layout: IMAGE_LAYOUT_DEPTH_STENCIL_ATTACHMENT_OPTIMAL,
            },
            dependency: SubpassDependency {
                src_subpass: SUBPASS_EXTERNAL,
                dst_subpass: 0,
                src_stage_mask: PIPELINE_STAGE_COLOR_ATTACHMENT_OUTPUT
                    | PIPELINE_STAGE_EARLY_FRAGMENT_TESTS,
                dst_stage_mask: PIPELINE_STAGE_COLOR_ATTACHMENT_OUTPUT
                    | PIPELINE_STAGE_EARLY_FRAGMENT_TESTS,
                src_access_mask: 0,
                dst_access_mask: ACCESS_COLOR_ATTACHMENT_WRITE
                    | ACCESS_DEPTH_STENCIL_ATTACHMENT_WRITE,
            },
        }
    }
}

} // verus!
