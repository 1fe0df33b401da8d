//! Swapchain manager: how the chain of presentable images is configured,
//! what belongs to it, and in which order it is taken apart.

use vstd::prelude::*;

use crate::vulkan::error::VkError;
use crate::vulkan::image::{
    create_image_view, spec_create_image_view, ImageViewCreateInfo, IMAGE_ASPECT_COLOR,
    IMAGE_USAGE_COLOR_ATTACHMENT, SHARING_MODE_CONCURRENT, SHARING_MODE_EXCLUSIVE,
};
use crate::vulkan::utils::{Extent2D, SurfaceCapabilities, SurfaceFormat, SwapChainSupportDetails};

verus! {

/// Numeric code of the format with 8 bits each of blue, green, red and
/// alpha, sRGB encoded.
pub const FORMAT_B8G8R8A8_SRGB: i32 = 50;

/// Numeric code of the sRGB colour space with its non-linear transfer
/// function.
pub const COLOR_SPACE_SRGB_NONLINEAR: i32 = 0;

/// Numeric code of the present mode that replaces a waiting image by a newer
/// one and never blocks.
pub const PRESENT_MODE_MAILBOX: i32 = 1;

/// Numeric code of the present mode that queues images; every surface has it.
pub const PRESENT_MODE_FIFO: i32 = 2;

/// Composite alpha bit: the image is opaque.
pub const COMPOSITE_ALPHA_OPAQUE: u32 = 0x1;

/// Width that a surface reports when the swapchain decides the size.
pub const EXTENT_UNDEFINED: u32 = u32::MAX;

/// The surface format that the engine prefers.
pub open spec fn spec_preferred_format() -> SurfaceFormat {
    SurfaceFormat { format: FORMAT_B8G8R8A8_SRGB, color_space: COLOR_SPACE_SRGB_NONLINEAR }
}

/// The surface format rule: the preferred format if the surface has it,
/// else the first format reported.
pub open spec fn spec_choose_surface_format(available: Seq<SurfaceFormat>) -> SurfaceFormat {
    if available.contains(spec_preferred_format()) {
        spec_preferred_format()
    } else {
        available[0]
    }
}

/// The present mode rule: mailbox if the surface has it, else FIFO.
pub open spec fn spec_choose_present_mode(available: Seq<i32>) -> i32 {
    if available.contains(PRESENT_MODE_MAILBOX) {
        PRESENT_MODE_MAILBOX
    } else {
        PRESENT_MODE_FIFO
    }
}

/// `value`, brought into the range from `low` to `high`.
pub open spec fn spec_clamp(value: u32, low: u32, high: u32) -> u32 {
    if value < low {
        low
    } else if value > high {
        high
    } else {
        value
    }
}

/// The extent rule: the surface's current extent if it has one, else the
/// window's size, each side brought into the surface's limits.
pub open spec fn spec_choose_extent(window: Extent2D, capabilities: SurfaceCapabilities)
    -> Extent2D {
    if capabilities.current_extent.width != EXTENT_UNDEFINED {
        capabilities.current_extent
    } else {
        Extent2D {
            width: spec_clamp(
                window.width,
                capabilities.min_image_extent.width,
                capabilities.max_image_extent.width,
            ),
            height: spec_clamp(
                window.height,
                capabilities.min_image_extent.height,
                capabilities.max_image_extent.height,
            ),
        }
    }
}

/// The image count rule: one more than the surface's minimum, but no more
/// than its maximum, where a maximum of 0 means that there is none.
pub open spec fn spec_image_count(min_image_count: u32, max_image_count: u32) -> int {
    if max_image_count != 0 && max_image_count < min_image_count + 1 {
        max_image_count as int
    } else {
        min_image_count + 1
    }
}

/// The queue families that share the images: both, when graphics and
/// present differ; none, when one family does both.
pub open spec fn spec_sharing_families(graphics_family: u32, present_family: u32) -> Seq<u32> {
    if graphics_family != present_family {
        seq![graphics_family, present_family]
    } else {
        Seq::empty()
    }
}

/// What the engine asks for when it creates a swapchain.
#[derive(Debug, Clone)]
pub struct SwapchainCreateInfo {
    pub min_image_count: u32,
    pub image_format: i32,
    pub image_color_space: i32,
    pub image_extent: Extent2D,
    pub image_array_layers: u32,
    pub image_usage: u32,
    pub image_sharing_mode: i32,
    /// The queue families that share the images; empty when one family owns
    /// them.
    pub queue_family_indices: Vec<u32>,
    pub pre_transform: u32,
    pub composite_alpha: u32,
    pub present_mode: i32,
    pub clipped: bool,
}

impl SwapchainCreateInfo {
    /// Whether this is the swapchain to create for the given choices.
    pub open spec fn configured_for(
        self,
        capabilities: SurfaceCapabilities,
        surface_format: SurfaceFormat,
        present_mode: i32,
        extent: Extent2D,
        graphics_family: u32,
        present_family: u32,
    ) -> bool {
        &&& self.min_image_count == spec_image_count(
            capabilities.min_image_count,
            capabilities.max_image_count,
        )
        &&& self.image_format == surface_format.format
        &&& self.image_color_space == surface_format.color_space
        &&& self.image_extent == extent
        &&& self.image_array_layers == 1
        &&& self.image_usage == IMAGE_USAGE_COLOR_ATTACHMENT
        &&& self.image_sharing_mode == if graphics_family != present_family {
            SHARING_MODE_CONCURRENT
        } else {
            SHARING_MODE_EXCLUSIVE
        }
        &&& self.queue_family_indices@ == spec_sharing_families(graphics_family, present_family)
        &&& self.pre_transform == capabilities.current_transform
        &&& self.composite_alpha == COMPOSITE_ALPHA_OPAQUE
        &&& self.present_mode == present_mode
        &&& self.clipped
    }

    /// Whether this is the swapchain to create on a surface with the given
    /// support, for a window of the given size.
    pub open spec fn planned_for(
        self,
        support: SwapChainSupportDetails,
        window: Extent2D,
        graphics_family: u32,
        present_family: u32,
    ) -> bool {
        self.configured_for(
            support.capabilities,
            spec_choose_surface_format(support.formats@),
            spec_choose_present_mode(support.present_modes@),
            spec_choose_extent(window, support.capabilities),
            graphics_family,
            present_family,
        )
    }
}

/// What the engine asks for when it creates the framebuffer of one
/// swapchain image.
#[derive(Debug, Clone, Copy, PartialEq, Eq, Structural)]
pub struct FramebufferCreateInfo {
    /// Handle of the render pass.
    pub render_pass: u64,
    /// Handle of the view of the swapchain image.
    pub color_view: u64,
    /// Handle of the view of the depth image.
    pub depth_view: u64,
    pub width: u32,
    pub height: u32,
    pub layers: u32,
}

/// One step of taking GPU objects apart.
#[derive(Debug, Clone, Copy, PartialEq, Eq, Structural)]
pub enum DestroyOp {
    Framebuffer(u64),
    ImageView(u64),
    Image(u64),
    FreeMemory(u64),
    Swapchain(u64),
    Buffer(u64),
}

/// What the engine hands to the present queue.
#[derive(Debug, Clone, Copy, PartialEq, Eq, Structural)]
pub struct PresentInfo {
    /// Handle of the semaphore to wait on before the image is shown.
    pub wait_semaphore: u64,
    /// Handle of the swapchain.
    pub swapchain: u64,
    /// Index of the image to show.
    pub image_index: u32,
}

/// The depth image of a swapchain, its view and its memory, by handle.
#[derive(Debug, Clone, Copy, PartialEq, Eq, Structural)]
pub struct DepthBuffer {
    pub image: u64,
    pub view: u64,
    pub memory: u64,
}

/// A swapchain with everything that is rebuilt along with it.
#[derive(Debug, Clone)]
pub struct VkSwapchain {
    /// Handle of the swapchain.
    pub swapchain: u64,
    /// Handles of the presentable images, in image index order.
    pub images: Vec<u64>,
    pub image_format: i32,
    pub extent: Extent2D,
    /// Handle of the view of each image.
    pub image_views: Vec<u64>,
    /// Handle of the framebuffer of each image.
    pub framebuffers: Vec<u64>,
    pub depth_image: u64,
    pub depth_image_view: u64,
    pub depth_image_memory: u64,
}

/// The steps that take a swapchain apart, in the order of what depends on
/// what: the framebuffers, the image views, the depth view, the depth image
/// and its memory, and last the swapchain.
pub open spec fn spec_destroy_ops(swapchain: VkSwapchain) -> Seq<DestroyOp> {
    Seq::new(swapchain.framebuffers@.len(), |i: int| DestroyOp::Framebuffer(swapchain.framebuffers@[i]))
        + Seq::new(swapchain.image_views@.len(), |i: int| DestroyOp::ImageView(swapchain.image_views@[i]))
        + seq![
        DestroyOp::ImageView(swapchain.depth_image_view),
        DestroyOp::Image(swapchain.depth_image),
        DestroyOp::FreeMemory(swapchain.depth_image_memory),
        DestroyOp::Swapchain(swapchain.swapchain),
    ]
}

impl VkSwapchain {
    /// There is one view and one framebuffer for each image.
    pub open spec fn wf(self) -> bool {
        &&& self.image_views@.len() == self.images@.len()
        &&& self.framebuffers@.len() == self.images@.len()
    }

    /// Picks the surface format: the preferred one wherever it stands in the
    /// list, else the first of the list.
    pub fn choose_surface_format(available_formats: &Vec<SurfaceFormat>) -> (r: SurfaceFormat)
        requires
            available_formats@.len() > 0,
        ensures
            r == spec_choose_surface_format(available_formats@),
            available_formats@.contains(r),
    {
        let mut i: usize = 0;
        while i < available_formats.len()
            invariant
                i <= available_formats@.len(),
                forall|j: int| 0 <= j < i ==> available_formats@[j] != spec_preferred_format(),
            decreases available_formats@.len() - i,
        {
            let format = available_formats[i];
            if format.format == FORMAT_B8G8R8A8_SRGB && format.color_space
                == COLOR_SPACE_SRGB_NONLINEAR {
                assert(available_formats@[i as int] == spec_preferred_format());
                return format;
            }
            i += 1;
        }
        available_formats[0]
    }

    /// Picks the present mode: mailbox wherever it stands in the list, else
    /// FIFO.
    pub fn choose_present_mode(available_present_modes: &Vec<i32>) -> (r: i32)
        ensures
            r == spec_choose_present_mode(available_present_modes@),
    {
        let mut i: usize = 0;
        while i < available_present_modes.len()
            invariant
                i <= available_present_modes@.len(),
                forall|j: int| 0 <= j < i ==> available_present_modes@[j] != PRESENT_MODE_MAILBOX,
            decreases available_present_modes@.len() - i,
        {
            if available_present_modes[i] == PRESENT_MODE_MAILBOX {
                return PRESENT_MODE_MAILBOX;
            }
            i += 1;
        }
        PRESENT_MODE_FIFO
    }

    /// Picks the extent: the surface's current extent if it has one, else
    /// the size of the window, brought into the surface's limits.
    pub fn choose_extent(window: Extent2D, capabilities: &SurfaceCapabilities) -> (r: Extent2D)
        ensures
            r == spec_choose_extent(window, *capabilities),
    {
        if capabilities.current_extent.width != EXTENT_UNDEFINED {
            capabilities.current_extent
        } else {
            Extent2D {
                width: clamp(
                    window.width,
                    capabilities.min_image_extent.width,
                    capabilities.max_image_extent.width,
                ),
                height: clamp(
                    window.height,
                    capabilities.min_image_extent.height,
                    capabilities.max_image_extent.height,
                ),
            }
        }
    }

    /// The number of images to ask for.
    pub fn image_count(capabilities: &SurfaceCapabilities) -> (r: u32)
        requires
            capabilities.min_image_count < u32::MAX,
        ensures
            r == spec_image_count(capabilities.min_image_count, capabilities.max_image_count),
            capabilities.max_image_count == 0 || capabilities.max_image_count
                > capabilities.min_image_count ==> r == capabilities.min_image_count + 1,
            capabilities.max_image_count != 0 ==> r <= capabilities.max_image_count,
    {
        let wanted = capabilities.min_image_count + 1;
        if capabilities.max_image_count != 0 && capabilities.max_image_count < wanted {
            capabilities.max_image_count
        } else {
            wanted
        }
    }

    /// The swapchain to create for a surface format, present mode and extent
    /// already chosen. The images are colour attachments in one layer,
    /// opaque, clipped, and transformed as the surface currently is. They
    /// are shared between the graphics and the present family when these
    /// differ, and owned by the one family when they do not.
    pub fn create_info(
        capabilities: &SurfaceCapabilities,
        surface_format: SurfaceFormat,
        present_mode: i32,
        extent: Extent2D,
        graphics_family: u32,
        present_family: u32,
    ) -> (r: SwapchainCreateInfo)
        requires
            capabilities.min_image_count < u32::MAX,
        ensures
            r.configured_for(
                *capabilities,
                surface_format,
                present_mode,
                extent,
                graphics_family,
                present_family,
            ),
    {
        let mut queue_family_indices: Vec<u32> = Vec::new();
        let image_sharing_mode = if graphics_family != present_family {
            queue_family_indices.push(graphics_family);
            queue_family_indices.push(present_family);
            SHARING_MODE_CONCURRENT
        } else {
            SHARING_MODE_EXCLUSIVE
        };
        assert(queue_family_indices@ =~= spec_sharing_families(graphics_family, present_family));
        SwapchainCreateInfo {
            min_image_count: Self::image_count(capabilities),
            image_format: surface_format.format,
            image_color_space: surface_format.color_space,
            image_extent: extent,
            image_array_layers: 1,
            image_usage: IMAGE_USAGE_COLOR_ATTACHMENT,
            image_sharing_mode,
            queue_family_indices,
            pre_transform: capabilities.current_transform,
            composite_alpha: COMPOSITE_ALPHA_OPAQUE,
            present_mode,
            clipped: true,
        }
    }

    /// The swapchain to create on a surface with the given support, for a
    /// window of the given size: format, present mode and extent are chosen
    /// by the rules of this module. The result depends on nothing else, so
    /// building twice from the same report gives the same chain.
    pub fn plan(
        support: &SwapChainSupportDetails,
        window: Extent2D,
        graphics_family: u32,
        present_family: u32,
    ) -> (r: SwapchainCreateInfo)
        requires
            support.formats@.len() > 0,
            support.capabilities.min_image_count < u32::MAX,
        ensures
            r.planned_for(*support, window, graphics_family, present_family),
    {
        let surface_format = Self::choose_surface_format(&support.formats);
        let present_mode = Self::choose_present_mode(&support.present_modes);
        let extent = Self::choose_extent(window, &support.capabilities);
        Self::create_info(
            &support.capabilities,
            surface_format,
            present_mode,
            extent,
            graphics_family,
            present_family,
        )
    }

    /// The views to create: one colour view for each image, in image order.
    pub fn create_image_views(images: &Vec<u64>, format: i32) -> (r: Vec<ImageViewCreateInfo>)
        ensures
            r@.len() == images@.len(),
            forall|i: int|
                0 <= i < images@.len() ==> #[trigger] r@[i] == spec_create_image_view(
                    images@[i],
                    format,
                    IMAGE_ASPECT_COLOR,
                ),
    {
        let mut views: Vec<ImageViewCreateInfo> = Vec::new();
        let mut i: usize = 0;
        while i < images.len()
            invariant
                i <= images@.len(),
                views@.len() == i,
                forall|j: int|
                    0 <= j < i ==> #[trigger] views@[j] == spec_create_image_view(
                        images@[j],
                        format,
                        IMAGE_ASPECT_COLOR,
                    ),
            decreases images@.len() - i,
        {
            views.push(create_image_view(images[i], format, IMAGE_ASPECT_COLOR));
            i += 1;
        }
        views
    }

    /// The framebuffers to create: one for each image view, in image order,
    /// that joins the view with the depth view, at the size of the
    /// swapchain, in one layer.
    pub fn create_framebuffers(
        image_views: &Vec<u64>,
        depth_image_view: u64,
        render_pass: u64,
        extent: Extent2D,
    ) -> (r: Vec<FramebufferCreateInfo>)
        ensures
            r@.len() == image_views@.len(),
            forall|i: int|
                0 <= i < image_views@.len() ==> #[trigger] r@[i] == (FramebufferCreateInfo {
                    render_pass,
                    color_view: image_views@[i],
                    depth_view: depth_image_view,
                    width: extent.width,
                    height: extent.height,
                    layers: 1,
                }),
    {
        let mut infos: Vec<FramebufferCreateInfo> = Vec::new();
        let mut i: usize = 0;
        while i < image_views.len()
            invariant
                i <= image_views@.len(),
                infos@.len() == i,
                forall|j: int|
                    0 <= j < i ==> #[trigger] infos@[j] == (FramebufferCreateInfo {
                        render_pass,
                        color_view: image_views@[j],
                        depth_view: depth_image_view,
                        width: extent.width,
                        height: extent.height,
                        layers: 1,
                    }),
            decreases image_views@.len() - i,
        {
            infos.push(
                FramebufferCreateInfo {
                    render_pass,
                    color_view: image_views[i],
                    depth_view: depth_image_view,
                    width: extent.width,
                    height: extent.height,
                    layers: 1,
                },
            );
            i += 1;
        }
        infos
    }

    /// Puts a swapchain together from what was created for it. There must be
    /// one view and one framebuffer for each image.
    pub fn new(
        info: &SwapchainCreateInfo,
        swapchain: u64,
        images: Vec<u64>,
        image_views: Vec<u64>,
        depth: DepthBuffer,
        framebuffers: Vec<u64>,
    ) -> (r: Result<VkSwapchain, VkError>)
        ensures
            match r {
                Ok(chain) => {
                    &&& chain.wf()
                    &&& chain.swapchain == swapchain
                    &&& chain.images@ == images@
                    &&& chain.image_format == info.image_format
                    &&& chain.extent == info.image_extent
                    &&& chain.image_views@ == image_views@
                    &&& chain.framebuffers@ == framebuffers@
                    &&& chain.depth_image == depth.image
                    &&& chain.depth_image_view == depth.view
                    &&& chain.depth_image_memory == depth.memory
                },
                Err(e) => e == VkError::SwapchainMismatch && !(image_views@.len() == images@.len()
                    && framebuffers@.len() == images@.len()),
            },
    {
        if image_views.len() != images.len() || framebuffers.len() != images.len() {
            return Err(VkError::SwapchainMismatch);
        }
        Ok(
            VkSwapchain {
                swapchain,
                images,
                image_format: info.image_format,
                extent: info.image_extent,
                image_views,
                framebuffers,
                depth_image: depth.image,
                depth_image_view: depth.view,
                depth_image_memory: depth.memory,
            },
        )
    }

    /// What to hand to the present queue to show the image at `image_index`
    /// once `wait_semaphore` is signalled.
    pub fn present_queue(&self, wait_semaphore: u64, image_index: u32) -> (r: PresentInfo)
        ensures
            r == (PresentInfo { wait_semaphore, swapchain: self.swapchain, image_index }),
    {
        PresentInfo { wait_semaphore, swapchain: self.swapchain, image_index }
    }

    /// Takes the swapchain apart: returns the steps to perform, in order,
    /// and forgets the handles of the images, views and framebuffers.
    pub fn destroy(&mut self) -> (r: Vec<DestroyOp>)
        ensures
            r@ == spec_destroy_ops(*old(self)),
            final(self).images@.len() == 0,
            final(self).image_views@.len() == 0,
            final(self).framebuffers@.len() == 0,
            final(self).wf(),
            final(self).swapchain == old(self).swapchain,
            final(self).image_format == old(self).image_format,
            final(self).extent == old(self).extent,
    {
        let mut ops: Vec<DestroyOp> = Vec::new();
        let mut i: usize = 0;
        while i < self.framebuffers.len()
            invariant
                *self == *old(self),
                i <= self.framebuffers@.len(),
                ops@ == Seq::new(i as nat, |k: int| DestroyOp::Framebuffer(self.framebuffers@[k])),
            decreases self.framebuffers@.len() - i,
        {
            ops.push(DestroyOp::Framebuffer(self.framebuffers[i]));
            i += 1;
            assert(ops@ =~= Seq::new(
                i as nat,
                |k: int| DestroyOp::Framebuffer(self.framebuffers@[k]),
            ));
        }
        let ghost framebuffer_ops = ops@;
        let mut j: usize = 0;
        while j < self.image_views.len()
            invariant
                *self == *old(self),
                j <= self.image_views@.len(),
                ops@ == framebuffer_ops + Seq::new(
                    j as nat,
                    |k: int| DestroyOp::ImageView(self.image_views@[k]),
                ),
            decreases self.image_views@.len() - j,
        {
            ops.push(DestroyOp::ImageView(self.image_views[j]));
            j += 1;
            assert(ops@ =~= framebuffer_ops + Seq::new(
                j as nat,
                |k: int| DestroyOp::ImageView(self.image_views@[k]),
            ));
        }
        ops.push(DestroyOp::ImageView(self.depth_image_view));
        ops.push(DestroyOp::Image(self.depth_image));
        ops.push(DestroyOp::FreeMemory(self.depth_image_memory));
        ops.push(DestroyOp::Swapchain(self.swapchain));
        assert(ops@ =~= spec_destroy_ops(*old(self)));
        self.images = Vec::new();
        self.image_views = Vec::new();
        self.framebuffers = Vec::new();
        ops
    }
}

/// `value`, brought into the range from `low` to `high`.
pub fn clamp(value: u32, low: u32, high: u32) -> (r: u32)
    ensures
        r == spec_clamp(value, low, high),
        low <= high ==> low <= r <= high,
{
    if value < low {
        low
    } else if value > high {
        high
    } else {
        value
    }
}

/// Rebuilding a swapchain twice from the same surface report, for the same
/// window and queue families, asks both times for the same image count,
/// format and extent.
pub proof fn recreation_is_idempotent(
    first: SwapchainCreateInfo,
    second: SwapchainCreateInfo,
    support: SwapChainSupportDetails,
    window: Extent2D,
    graphics_family: u32,
    present_family: u32,
)
    requires
        first.planned_for(support, window, graphics_family, present_family),
        second.planned_for(support, window, graphics_family, present_family),
    ensures
        first.min_image_count == second.min_image_count,
        first.image_format == second.image_format,
        first.image_color_space == second.image_color_space,
        first.image_extent == second.image_extent,
        first.present_mode == second.present_mode,
        first.image_sharing_mode == second.image_sharing_mode,
        first.queue_family_indices@ == second.queue_family_indices@,
{
}

} // verus!
