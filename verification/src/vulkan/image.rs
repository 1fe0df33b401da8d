//! Images and image views: what the engine asks for when it creates one.

use vstd::prelude::*;

use crate::vulkan::utils::Extent2D;

verus! {

/// Numeric code of a two-dimensional image.
pub const IMAGE_TYPE_2D: i32 = 1;

/// Numeric code of a two-dimensional image view.
pub const IMAGE_VIEW_TYPE_2D: i32 = 1;

/// Numeric code of the image layout "undefined".
pub const IMAGE_LAYOUT_UNDEFINED: i32 = 0;

/// Sample count bit: one sample per pixel.
pub const SAMPLE_COUNT_1: u32 = 0x1;

/// Numeric code of the sharing mode "exclusive".
pub const SHARING_MODE_EXCLUSIVE: i32 = 0;

/// Numeric code of the sharing mode "concurrent".
pub const SHARING_MODE_CONCURRENT: i32 = 1;

/// Image usage bit: colour attachment.
pub const IMAGE_USAGE_COLOR_ATTACHMENT: u32 = 0x10;

/// Image usage bit: depth-stencil attachment.
pub const IMAGE_USAGE_DEPTH_STENCIL_ATTACHMENT: u32 = 0x20;

/// Image aspect bit: colour.
pub const IMAGE_ASPECT_COLOR: u32 = 0x1;

/// Image aspect bit: depth.
pub const IMAGE_ASPECT_DEPTH: u32 = 0x2;

/// What the engine asks for when it creates an image.
#[derive(Debug, Clone, Copy, PartialEq, Eq, Structural)]
pub struct ImageCreateInfo {
    pub image_type: i32,
    pub extent: Extent2D,
    pub depth: u32,
    pub mip_levels: u32,
    pub array_layers: u32,
    pub format: i32,
    pub tiling: i32,
    pub initial_layout: i32,
    pub usage: u32,
    pub samples: u32,
    pub sharing_mode: i32,
}

/// What the engine asks for when it creates a view of an image.
#[derive(Debug, Clone, Copy, PartialEq, Eq, Structural)]
pub struct ImageViewCreateInfo {
    /// Handle of the image.
    pub image: u64,
    pub view_type: i32,
    pub format: i32,
    pub aspect_mask: u32,
    pub base_mip_level: u32,
    pub level_count: u32,
    pub base_array_layer: u32,
    pub layer_count: u32,
}

/// The image that [`create_image`] asks for.
pub open spec fn spec_create_image(width: u32, height: u32, format: i32, tiling: i32, usage: u32)
    -> ImageCreateInfo {
    ImageCreateInfo {
        image_type: IMAGE_TYPE_2D,
        extent: Extent2D { width, height },
        depth: 1,
        mip_levels: 1,
        array_layers: 1,
        format,
        tiling,
        initial_layout: IMAGE_LAYOUT_UNDEFINED,
        usage,
        samples: SAMPLE_COUNT_1,
        sharing_mode: SHARING_MODE_EXCLUSIVE,
    }
}

/// The view that [`create_image_view`] asks for.
pub open spec fn spec_create_image_view(image: u64, format: i32, aspect_flags: u32)
    -> ImageViewCreateInfo {
    ImageViewCreateInfo {
        image,
        view_type: IMAGE_VIEW_TYPE_2D,
        format,
        aspect_mask: aspect_flags,
        base_mip_level: 0,
        level_count: 1,
        base_array_layer: 0,
        layer_count: 1,
    }
}

/// A flat two-dimensional image of the given size, format, tiling and usage:
/// one mip level, one layer, one sample, owned by one queue family, with no
/// initial content.
pub fn create_image(width: u32, height: u32, format: i32, tiling: i32, usage: u32) -> (r:
    ImageCreateInfo)
    ensures
        r == spec_create_image(width, height, format, tiling, usage),
{
    ImageCreateInfo {
        image_type: IMAGE_TYPE_2D,
        extent: Extent2D { width, height },
        depth: 1,
        mip_levels: 1,
        array_layers: 1,
        format,
        tiling,
        initial_layout: IMAGE_LAYOUT_UNDEFINED,
        usage,
        samples: SAMPLE_COUNT_1,
        sharing_mode: SHARING_MODE_EXCLUSIVE,
    }
}

/// A two-dimensional view of all of `image`: its one mip level and one
/// layer, in the given format and aspect.
pub fn create_image_view(image: u64, format: i32, aspect_flags: u32) -> (r: ImageViewCreateInfo)
    ensures
        r == spec_create_image_view(image, format, aspect_flags),
{
    ImageViewCreateInfo {
        image,
        view_type: IMAGE_VIEW_TYPE_2D,
        format,
        aspect_mask: aspect_flags,
        base_mip_level: 0,
        level_count: 1,
        base_array_layer: 0,
        layer_count: 1,
    }
}

} // verus!
