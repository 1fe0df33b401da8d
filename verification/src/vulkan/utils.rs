//! What a surface reports about the swapchains it supports.

use vstd::prelude::*;

use crate::vulkan::error::VkError;

verus! {

/// Numeric code of the depth format with 32 bits of depth.
pub const FORMAT_D32_SFLOAT: i32 = 126;

/// Numeric code of the depth format with 24 bits of depth and 8 of stencil.
pub const FORMAT_D24_UNORM_S8_UINT: i32 = 129;

/// Numeric code of the depth format with 32 bits of depth and 8 of stencil.
pub const FORMAT_D32_SFLOAT_S8_UINT: i32 = 130;

/// Numeric code of linear image tiling.
pub const IMAGE_TILING_LINEAR: i32 = 1;

/// Numeric code of optimal image tiling.
pub const IMAGE_TILING_OPTIMAL: i32 = 0;

/// Format feature bit: usable as a depth-stencil attachment.
pub const FORMAT_FEATURE_DEPTH_STENCIL_ATTACHMENT: u32 = 0x200;

/// Whether every bit of `want` is set in `have`.
pub open spec fn spec_contains_flags(have: u32, want: u32) -> bool {
    have & want == want
}

/// Whether every bit of `want` is set in `have`.
pub fn contains_flags(have: u32, want: u32) -> (r: bool)
    ensures
        r == spec_contains_flags(have, want),
{
    have & want == want
}

/// What an adapter can do with images of one format.
#[derive(Debug, Clone, Copy, PartialEq, Eq, Structural)]
pub struct FormatSupport {
    /// Numeric code of the format.
    pub format: i32,
    /// Feature bits with linear tiling.
    pub linear_tiling_features: u32,
    /// Feature bits with optimal tiling.
    pub optimal_tiling_features: u32,
}

impl FormatSupport {
    /// Whether the format has all of `features` with the given tiling. A
    /// tiling that is neither linear nor optimal has no features.
    pub open spec fn spec_supports(self, tiling: i32, features: u32) -> bool {
        ||| tiling == IMAGE_TILING_LINEAR && spec_contains_flags(
            self.linear_tiling_features,
            features,
        )
        ||| tiling == IMAGE_TILING_OPTIMAL && spec_contains_flags(
            self.optimal_tiling_features,
            features,
        )
    }

    /// Whether the format has all of `features` with the given tiling.
    pub fn supports(&self, tiling: i32, features: u32) -> (r: bool)
        ensures
            r == self.spec_supports(tiling, features),
    {
        (tiling == IMAGE_TILING_LINEAR && contains_flags(self.linear_tiling_features, features))
            || (tiling == IMAGE_TILING_OPTIMAL && contains_flags(
            self.optimal_tiling_features,
            features,
        ))
    }
}

/// Whether `reports` holds a report on `format` that shows all of `features`
/// with the given tiling.
pub open spec fn spec_format_supported(
    reports: Seq<FormatSupport>,
    format: i32,
    tiling: i32,
    features: u32,
) -> bool {
    exists|k: int|
        0 <= k < reports.len() && (#[trigger] reports[k]).format == format
            && reports[k].spec_supports(tiling, features)
}

/// Whether the candidate at `i` is the first that is supported.
pub open spec fn is_first_supported(
    candidates: Seq<i32>,
    tiling: i32,
    features: u32,
    reports: Seq<FormatSupport>,
    i: int,
) -> bool {
    &&& 0 <= i < candidates.len()
    &&& spec_format_supported(reports, candidates[i], tiling, features)
    &&& forall|j: int|
        0 <= j < i ==> !spec_format_supported(reports, #[trigger] candidates[j], tiling, features)
}

/// The depth formats that the engine can work with, best first.
pub open spec fn spec_depth_formats() -> Seq<i32> {
    seq![FORMAT_D32_SFLOAT, FORMAT_D32_SFLOAT_S8_UINT, FORMAT_D24_UNORM_S8_UINT]
}

/// The depth formats that the engine can work with, best first.
pub fn depth_formats() -> (r: Vec<i32>)
    ensures
        r@ == spec_depth_formats(),
{
    let mut formats: Vec<i32> = Vec::new();
    formats.push(FORMAT_D32_SFLOAT);
    formats.push(FORMAT_D32_SFLOAT_S8_UINT);
    formats.push(FORMAT_D24_UNORM_S8_UINT);
    assert(formats@ =~= spec_depth_formats());
    formats
}

/// Whether `reports` holds a report on `format` that shows all of `features`
/// with the given tiling.
pub fn format_supported(reports: &Vec<FormatSupport>, format: i32, tiling: i32, features: u32) -> (r:
    bool)
    ensures
        r == spec_format_supported(reports@, format, tiling, features),
{
    let mut k: usize = 0;
    while k < reports.len()
        invariant
            k <= reports@.len(),
            forall|m: int|
                0 <= m < k ==> !((#[trigger] reports@[m]).format == format
                    && reports@[m].spec_supports(tiling, features)),
        decreases reports@.len() - k,
    {
        if reports[k].format == format && reports[k].supports(tiling, features) {
            return true;
        }
        k += 1;
    }
    false
}

/// The first of `candidates`, in their order, that the adapter's `reports`
/// show to have all of `features` with the given tiling.
pub fn find_supported_format(
    candidates: &Vec<i32>,
    tiling: i32,
    features: u32,
    reports: &Vec<FormatSupport>,
) -> (r: Result<i32, VkError>)
    ensures
        match r {
            Ok(format) => exists|i: int|
                is_first_supported(candidates@, tiling, features, reports@, i) && format
                    == #[trigger] candidates@[i],
            Err(e) => e == VkError::NoSupportedFormat && forall|j: int|
                0 <= j < candidates@.len() ==> !spec_format_supported(
                    reports@,
                    #[trigger] candidates@[j],
                    tiling,
                    features,
                ),
        },
{
    let mut i: usize = 0;
    while i < candidates.len()
        invariant
            i <= candidates@.len(),
            forall|j: int|
                0 <= j < i ==> !spec_format_supported(
                    reports@,
                    #[trigger] candidates@[j],
                    tiling,
                    features,
                ),
        decreases candidates@.len() - i,
    {
        if format_supported(reports, candidates[i], tiling, features) {
            assert(is_first_supported(candidates@, tiling, features, reports@, i as int));
            return Ok(candidates[i]);
        }
        i += 1;
    }
    Err(VkError::NoSupportedFormat)
}

/// The format of the depth buffer: the first depth format, best first, that
/// the adapter's `reports` show to be usable as a depth-stencil attachment
/// with optimal tiling.
pub fn find_depth_format(reports: &Vec<FormatSupport>) -> (r: Result<i32, VkError>)
    ensures
        match r {
            Ok(format) => exists|i: int|
                is_first_supported(
                    spec_depth_formats(),
                    IMAGE_TILING_OPTIMAL,
                    FORMAT_FEATURE_DEPTH_STENCIL_ATTACHMENT,
                    reports@,
                    i,
                ) && format == #[trigger] spec_depth_formats()[i],
            Err(e) => e == VkError::NoSupportedFormat && forall|j: int|
                0 <= j < spec_depth_formats().len() ==> !spec_format_supported(
                    reports@,
                    #[trigger] spec_depth_formats()[j],
                    IMAGE_TILING_OPTIMAL,
                    FORMAT_FEATURE_DEPTH_STENCIL_ATTACHMENT,
                ),
        },
{
    let candidates = depth_formats();
    find_supported_format(
        &candidates,
        IMAGE_TILING_OPTIMAL,
        FORMAT_FEATURE_DEPTH_STENCIL_ATTACHMENT,
        reports,
    )
}

/// Width and height of an image, in pixels.
#[derive(Debug, Clone, Copy, PartialEq, Eq, Structural)]
pub struct Extent2D {
    pub width: u32,
    pub height: u32,
}

/// A pixel format together with the colour space it is shown in.
#[derive(Debug, Clone, Copy, PartialEq, Eq, Structural)]
pub struct SurfaceFormat {
    /// Numeric code of the pixel format.
    pub format: i32,
    /// Numeric code of the colour space.
    pub color_space: i32,
}

/// Limits that a surface puts on a swapchain.
#[derive(Debug, Clone, Copy, PartialEq, Eq, Structural)]
pub struct SurfaceCapabilities {
    /// Fewest images a swapchain may have.
    pub min_image_count: u32,
    /// Most images a swapchain may have; 0 means there is no limit.
    pub max_image_count: u32,
    /// Current size of the surface; a width of `u32::MAX` means that the
    /// swapchain decides the size.
    pub current_extent: Extent2D,
    pub min_image_extent: Extent2D,
    pub max_image_extent: Extent2D,
    /// Transform bit the surface currently applies.
    pub current_transform: u32,
}

/// Everything the engine asks of a surface before it builds a swapchain.
#[derive(Debug, Clone)]
pub struct SwapChainSupportDetails {
    pub capabilities: SurfaceCapabilities,
    pub formats: Vec<SurfaceFormat>,
    /// Numeric codes of the present modes on offer.
    pub present_modes: Vec<i32>,
}

impl SwapChainSupportDetails {
    /// Whether two reports say the same.
    pub open spec fn same_as(self, other: SwapChainSupportDetails) -> bool {
        &&& self.capabilities == other.capabilities
        &&& self.formats@ == other.formats@
        &&& self.present_modes@ == other.present_modes@
    }

    /// A copy of the report.
    pub fn duplicate(&self) -> (r: SwapChainSupportDetails)
        ensures
            r.same_as(*self),
    {
        let mut formats: Vec<SurfaceFormat> = Vec::new();
        let mut i: usize = 0;
        while i < self.formats.len()
            invariant
                i <= self.formats@.len(),
                formats@ == self.formats@.take(i as int),
            decreases self.formats@.len() - i,
        {
            formats.push(self.formats[i]);
            i += 1;
        }
        let mut present_modes: Vec<i32> = Vec::new();
        let mut j: usize = 0;
        while j < self.present_modes.len()
            invariant
                j <= self.present_modes@.len(),
                present_modes@ == self.present_modes@.take(j as int),
            decreases self.present_modes@.len() - j,
        {
            present_modes.push(self.present_modes[j]);
            j += 1;
        }
        assert(formats@ =~= self.formats@);
        assert(present_modes@ =~= self.present_modes@);
        SwapChainSupportDetails { capabilities: self.capabilities, formats, present_modes }
    }
}

} // verus!
