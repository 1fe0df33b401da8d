//! Device selector: rates the adapters of the system and picks one.

use vstd::prelude::*;
use vstd::string::StringExecFns;

use crate::vulkan::error::VkError;
use crate::vulkan::queue::{QueueFamiliesIndices, QueueFamily};
use crate::vulkan::utils::SwapChainSupportDetails;

verus! {

/// Numeric code of the device type "discrete GPU".
pub const PHYSICAL_DEVICE_TYPE_DISCRETE_GPU: i32 = 2;

/// What a discrete GPU scores on top of its image dimension.
pub const DISCRETE_GPU_BONUS: u64 = 1000;

/// What the selector reads of one adapter, for one rendering surface.
#[derive(Debug, Clone)]
pub struct AdapterCandidate {
    /// Handle of the adapter.
    pub handle: u64,
    /// Numeric code of the device type.
    pub device_type: i32,
    /// Largest width or height of a 2D image.
    pub max_image_dimension_2d: u32,
    /// Whether the adapter has the geometry-shader feature.
    pub geometry_shader: bool,
    /// Names of the device extensions on offer.
    pub extensions: Vec<String>,
    /// Queue families, in index order.
    pub queue_families: Vec<QueueFamily>,
    /// What the surface supports on this adapter.
    pub swapchain_support: SwapChainSupportDetails,
}

/// The adapter that was chosen, with its queue families and what the surface
/// supports on it.
#[derive(Debug, Clone)]
pub struct VkPhysicalDevice {
    /// Handle of the adapter.
    pub inner: u64,
    pub queue_families: QueueFamiliesIndices,
    pub swapchain_support: SwapChainSupportDetails,
}

/// Index of the first graphics-capable family at or after `from`.
pub open spec fn first_graphics_from(families: Seq<QueueFamily>, from: int) -> Option<int>
    decreases families.len() - from,
{
    if from < 0 || from >= families.len() {
        None
    } else if families[from].spec_graphics() {
        Some(from)
    } else {
        first_graphics_from(families, from + 1)
    }
}

/// Index of the first family at or after `from` that can present.
pub open spec fn first_present_from(families: Seq<QueueFamily>, from: int) -> Option<int>
    decreases families.len() - from,
{
    if from < 0 || from >= families.len() {
        None
    } else if families[from].present_support {
        Some(from)
    } else {
        first_present_from(families, from + 1)
    }
}

/// An index as a queue family index.
pub open spec fn family_index(found: Option<int>) -> Option<u32> {
    match found {
        Some(i) => Some(i as u32),
        None => None,
    }
}

/// The families that queue-family resolution picks: for each role the first
/// family, in index order, that can take it.
pub open spec fn spec_find_queue_families(families: Seq<QueueFamily>) -> QueueFamiliesIndices {
    QueueFamiliesIndices {
        graphics_family: family_index(first_graphics_from(families, 0)),
        present_family: family_index(first_present_from(families, 0)),
    }
}

/// The device extensions that the engine cannot do without.
pub open spec fn spec_device_extensions() -> Seq<Seq<char>> {
    seq!["VK_KHR_swapchain"@]
}

/// Whether `name` is among `available`.
pub open spec fn has_extension(available: Seq<String>, name: Seq<char>) -> bool {
    exists|i: int| 0 <= i < available.len() && (#[trigger] available[i])@ == name
}

/// Whether every name of `required` is among `available`.
pub open spec fn has_extensions(available: Seq<String>, required: Seq<Seq<char>>) -> bool {
    forall|j: int| 0 <= j < required.len() ==> has_extension(available, #[trigger] required[j])
}

impl AdapterCandidate {
    /// The families can be numbered with 32 bits.
    pub open spec fn wf(self) -> bool {
        self.queue_families@.len() <= u32::MAX
    }

    /// Whether the adapter is a discrete GPU.
    pub open spec fn spec_discrete(self) -> bool {
        self.device_type == PHYSICAL_DEVICE_TYPE_DISCRETE_GPU
    }

    /// Whether one of the adapter's queue families takes graphics commands.
    pub open spec fn spec_has_graphics(self) -> bool {
        first_graphics_from(self.queue_families@, 0) is Some
    }

    /// Whether the adapter can drive a swapchain on the surface: it offers
    /// the required extensions, has a graphics family, and the surface
    /// reports at least one format and one present mode.
    pub open spec fn spec_suitable(self) -> bool {
        &&& has_extensions(self.extensions@, spec_device_extensions())
        &&& self.spec_has_graphics()
        &&& self.swapchain_support.formats@.len() > 0
        &&& self.swapchain_support.present_modes@.len() > 0
    }

    /// Whether the adapter meets the minimum requirements: it has the
    /// geometry-shader feature and can drive a swapchain on the surface.
    pub open spec fn spec_qualified(self) -> bool {
        self.geometry_shader && self.spec_suitable()
    }

    /// What the adapter is worth: its largest image dimension, plus the
    /// bonus if it is a discrete GPU.
    pub open spec fn spec_rating(self) -> int {
        if self.spec_discrete() {
            DISCRETE_GPU_BONUS + self.max_image_dimension_2d
        } else {
            self.max_image_dimension_2d as int
        }
    }

    /// The adapter's score: what it is worth if it meets the minimum
    /// requirements, else 0.
    pub open spec fn spec_score(self) -> int {
        if self.spec_qualified() {
            self.spec_rating()
        } else {
            0
        }
    }

    /// Whether the adapter may be selected: its score is not 0.
    pub open spec fn spec_eligible(self) -> bool {
        self.spec_score() > 0
    }
}

/// Whether selection picks the adapter at `i`: it is eligible, no eligible
/// adapter scores higher, and every eligible adapter before it scores lower,
/// so that of several adapters with the highest score the one enumerated
/// first is picked.
pub open spec fn is_selected(candidates: Seq<AdapterCandidate>, i: int) -> bool {
    &&& 0 <= i < candidates.len()
    &&& candidates[i].spec_eligible()
    &&& forall|j: int|
        0 <= j < candidates.len() && (#[trigger] candidates[j]).spec_eligible()
            ==> candidates[j].spec_score() <= candidates[i].spec_score()
    &&& forall|j: int|
        0 <= j < i && (#[trigger] candidates[j]).spec_eligible() ==> candidates[j].spec_score()
            < candidates[i].spec_score()
}

/// What the first-family functions mean: a result of `Some(i)` is the least
/// index at or after `from` whose family can take the role, and `None` says
/// there is no such family.
pub proof fn first_family_is_least(families: Seq<QueueFamily>, from: int)
    requires
        0 <= from,
    ensures
        match first_graphics_from(families, from) {
            Some(i) => {
                &&& from <= i < families.len()
                &&& families[i].spec_graphics()
                &&& forall|j: int| from <= j < i ==> !(#[trigger] families[j]).spec_graphics()
            },
            None => forall|j: int|
                from <= j < families.len() ==> !(#[trigger] families[j]).spec_graphics(),
        },
        match first_present_from(families, from) {
            Some(i) => {
                &&& from <= i < families.len()
                &&& families[i].present_support
                &&& forall|j: int| from <= j < i ==> !(#[trigger] families[j]).present_support
            },
            None => forall|j: int|
                from <= j < families.len() ==> !(#[trigger] families[j]).present_support,
        },
    decreases families.len() - from,
{
    if from < families.len() {
        first_family_is_least(families, from + 1);
    }
}

/// At most one adapter of a list is the selected one.
pub proof fn selection_is_unique(candidates: Seq<AdapterCandidate>, i: int, j: int)
    requires
        is_selected(candidates, i),
        is_selected(candidates, j),
    ensures
        i == j,
{
    if i < j {
        assert(candidates[i].spec_eligible());
    } else if j < i {
        assert(candidates[j].spec_eligible());
    }
}

/// Of two adapters that both meet the minimum requirements, a discrete one
/// outscores one that is not discrete, and is the one selected, in either
/// order of enumeration, as long as the other's image dimension does not
/// make up for the bonus.
pub proof fn discrete_adapter_is_preferred(discrete: AdapterCandidate, other: AdapterCandidate)
    requires
        discrete.spec_discrete(),
        !other.spec_discrete(),
        discrete.spec_qualified(),
        other.spec_qualified(),
        other.max_image_dimension_2d < discrete.max_image_dimension_2d + DISCRETE_GPU_BONUS,
    ensures
        discrete.spec_score() > other.spec_score(),
        is_selected(seq![discrete, other], 0),
        is_selected(seq![other, discrete], 1),
{
    let first = seq![discrete, other];
    let second = seq![other, discrete];
    assert(first[0] == discrete && first[1] == other);
    assert(second[0] == other && second[1] == discrete);
}

/// The names of the device extensions that the engine cannot do without.
pub fn device_extensions() -> (r: Vec<String>)
    ensures
        r@.len() == spec_device_extensions().len(),
        forall|j: int| 0 <= j < r@.len() ==> (#[trigger] r@[j])@ == spec_device_extensions()[j],
{
    let mut names: Vec<String> = Vec::new();
    names.push(String::from_str("VK_KHR_swapchain"));
    names
}

/// Whether `name` is among `available`.
fn offers_extension(available: &Vec<String>, name: &String) -> (r: bool)
    ensures
        r == has_extension(available@, name@),
{
    let mut i: usize = 0;
    while i < available.len()
        invariant
            i <= available.len(),
            forall|k: int| 0 <= k < i ==> (#[trigger] available@[k])@ != name@,
        decreases available.len() - i,
    {
        if available[i] == *name {
            return true;
        }
        i += 1;
    }
    false
}

impl VkPhysicalDevice {
    /// Whether this value describes `candidate`.
    pub open spec fn describes(self, candidate: AdapterCandidate) -> bool {
        &&& self.inner == candidate.handle
        &&& self.queue_families == spec_find_queue_families(candidate.queue_families@)
        &&& self.swapchain_support.capabilities == candidate.swapchain_support.capabilities
        &&& self.swapchain_support.formats@ == candidate.swapchain_support.formats@
        &&& self.swapchain_support.present_modes@ == candidate.swapchain_support.present_modes@
    }

    /// Selects the adapter to render with.
    ///
    /// The result describes the eligible adapter with the highest score; of
    /// several with that score, the one enumerated first. Without an
    /// eligible adapter there is no result.
    pub fn new(candidates: &Vec<AdapterCandidate>) -> (r: Result<VkPhysicalDevice, VkError>)
        requires
            forall|i: int| 0 <= i < candidates@.len() ==> (#[trigger] candidates@[i]).wf(),
        ensures
            match r {
                Ok(device) => exists|i: int|
                    is_selected(candidates@, i) && device.describes(#[trigger] candidates@[i]),
                Err(e) => e == VkError::NoSuitableAdapter && forall|i: int|
                    0 <= i < candidates@.len() ==> !(#[trigger] candidates@[i]).spec_eligible(),
            },
    {
        match Self::choose_physical_device(candidates) {
            Ok(index) => {
                let chosen = &candidates[index];
                let device = VkPhysicalDevice {
                    inner: chosen.handle,
                    queue_families: Self::find_queue_families(&chosen.queue_families),
                    swapchain_support: chosen.swapchain_support.duplicate(),
                };
                assert(device.describes(candidates@[index as int]));
                Ok(device)
            },
            Err(e) => Err(e),
        }
    }

    /// The position of the adapter to render with: that of the eligible
    /// adapter with the highest score, and of several with that score, the
    /// first. A later adapter is taken only for a strictly higher score.
    pub fn choose_physical_device(candidates: &Vec<AdapterCandidate>) -> (r: Result<
        usize,
        VkError,
    >)
        requires
            forall|i: int| 0 <= i < candidates@.len() ==> (#[trigger] candidates@[i]).wf(),
        ensures
            match r {
                Ok(index) => is_selected(candidates@, index as int),
                Err(e) => e == VkError::NoSuitableAdapter && forall|i: int|
                    0 <= i < candidates@.len() ==> !(#[trigger] candidates@[i]).spec_eligible(),
            },
    {
        let mut best: Option<usize> = None;
        let mut best_score: u64 = 0;
        let mut i: usize = 0;
        while i < candidates.len()
            invariant
                i <= candidates@.len(),
                forall|k: int| 0 <= k < candidates@.len() ==> (#[trigger] candidates@[k]).wf(),
                match best {
                    Some(b) => {
                        &&& b < i
                        &&& best_score == candidates@[b as int].spec_score()
                        &&& candidates@[b as int].spec_eligible()
                        &&& forall|j: int|
                            0 <= j < i && (#[trigger] candidates@[j]).spec_eligible()
                                ==> candidates@[j].spec_score() <= best_score
                        &&& forall|j: int|
                            0 <= j < b && (#[trigger] candidates@[j]).spec_eligible()
                                ==> candidates@[j].spec_score() < best_score
                    },
                    None => forall|j: int|
                        0 <= j < i ==> !(#[trigger] candidates@[j]).spec_eligible(),
                },
            decreases candidates@.len() - i,
        {
            let (score, _) = Self::rate_device(&candidates[i]);
            if score > 0 {
                let better = match best {
                    Some(_) => score > best_score,
                    None => true,
                };
                if better {
                    best = Some(i);
                    best_score = score;
                }
            }
            i += 1;
        }
        match best {
            Some(index) => Ok(index),
            None => Err(VkError::NoSuitableAdapter),
        }
    }

    /// The score of an adapter, and the queue families resolved on it. An
    /// adapter that lacks the geometry-shader feature, a graphics family or a
    /// required extension, or for which the surface reports no format or no
    /// present mode, scores 0. Any other scores its largest image dimension,
    /// and 1000 more if it is a discrete GPU.
    pub fn rate_device(candidate: &AdapterCandidate) -> (r: (u64, QueueFamiliesIndices))
        requires
            candidate.wf(),
        ensures
            r.0 == candidate.spec_score(),
            r.1 == spec_find_queue_families(candidate.queue_families@),
    {
        let queue_families = Self::find_queue_families(&candidate.queue_families);
        if !candidate.geometry_shader || !Self::is_device_suitable(candidate, &queue_families) {
            return (0, queue_families);
        }
        let mut score: u64 = 0;
        if candidate.device_type == PHYSICAL_DEVICE_TYPE_DISCRETE_GPU {
            score += DISCRETE_GPU_BONUS;
        }
        score += candidate.max_image_dimension_2d as u64;
        (score, queue_families)
    }

    /// Whether an adapter with the given queue families can drive a
    /// swapchain on the surface.
    pub fn is_device_suitable(candidate: &AdapterCandidate, queue_families: &QueueFamiliesIndices) -> (r:
        bool)
        requires
            *queue_families == spec_find_queue_families(candidate.queue_families@),
        ensures
            r == candidate.spec_suitable(),
    {
        let required = device_extensions();
        let mut all_offered = true;
        let mut j: usize = 0;
        while j < required.len()
            invariant
                j <= required@.len(),
                required@.len() == spec_device_extensions().len(),
                forall|k: int|
                    0 <= k < required@.len() ==> (#[trigger] required@[k])@
                        == spec_device_extensions()[k],
                all_offered == forall|k: int|
                    0 <= k < j ==> has_extension(
                        candidate.extensions@,
                        #[trigger] spec_device_extensions()[k],
                    ),
            decreases required@.len() - j,
        {
            if !offers_extension(&candidate.extensions, &required[j]) {
                all_offered = false;
            }
            j += 1;
        }
        all_offered && queue_families.graphics_family.is_some()
            && candidate.swapchain_support.formats.len() > 0
            && candidate.swapchain_support.present_modes.len() > 0
    }

    /// Resolves the queue families of an adapter: scans them in index order
    /// and takes, for each role, the first that can fill it. One family may
    /// fill both.
    pub fn find_queue_families(families: &Vec<QueueFamily>) -> (r: QueueFamiliesIndices)
        requires
            families@.len() <= u32::MAX,
        ensures
            r == spec_find_queue_families(families@),
    {
        let mut graphics_family: Option<u32> = None;
        let mut present_family: Option<u32> = None;
        let mut index: usize = 0;
        while index < families.len() && !(graphics_family.is_some() && present_family.is_some())
            invariant
                index <= families@.len() <= u32::MAX,
                match graphics_family {
                    Some(g) => first_graphics_from(families@, 0) == Some(g as int),
                    None => first_graphics_from(families@, 0) == first_graphics_from(
                        families@,
                        index as int,
                    ),
                },
                match present_family {
                    Some(p) => first_present_from(families@, 0) == Some(p as int),
                    None => first_present_from(families@, 0) == first_present_from(
                        families@,
                        index as int,
                    ),
                },
            decreases families@.len() - index,
        {
            let family = &families[index];
            if graphics_family.is_none() && family.graphics() {
                graphics_family = Some(index as u32);
            }
            if family.present_support && present_family.is_none() {
                present_family = Some(index as u32);
            }
            index += 1;
        }
        QueueFamiliesIndices { graphics_family, present_family }
    }
}

} // verus!
