//! Logical device: which queues and extensions the engine asks for.

use vstd::prelude::*;

use crate::vulkan::error::VkError;
use crate::vulkan::physical_device::{device_extensions, spec_device_extensions, VkPhysicalDevice};
use crate::vulkan::queue::QueueFamiliesIndices;

verus! {

/// Number of queues asked of each queue family.
pub const QUEUES_PER_FAMILY: u32 = 1;

/// The logical device that the engine asks for. One queue is created in each
/// family of `queue_families`, at default priority.
#[derive(Debug, Clone)]
pub struct VkDevice {
    /// Family of the graphics queue.
    pub graphics_family: u32,
    /// Family of the present queue.
    pub present_family: u32,
    /// The families in which a queue is created, each once.
    pub queue_families: Vec<u32>,
    /// Number of queues created in each family.
    pub queue_count: u32,
    /// Names of the device extensions to enable.
    pub extensions: Vec<String>,
}

/// The distinct families among the two roles, graphics first.
pub open spec fn spec_unique_queue_families(graphics: u32, present: u32) -> Seq<u32> {
    if graphics == present {
        seq![graphics]
    } else {
        seq![graphics, present]
    }
}

impl VkDevice {
    /// Whether the device is the one asked for on an adapter with the given
    /// queue families.
    pub open spec fn requested_for(self, families: QueueFamiliesIndices) -> bool {
        &&& families.graphics_family == Some(self.graphics_family)
        &&& families.present_family == Some(self.present_family)
        &&& self.queue_families@ == spec_unique_queue_families(
            self.graphics_family,
            self.present_family,
        )
        &&& self.queue_count == QUEUES_PER_FAMILY
        &&& self.extensions@.len() == spec_device_extensions().len()
        &&& forall|j: int|
            0 <= j < self.extensions@.len() ==> (#[trigger] self.extensions@[j])@
                == spec_device_extensions()[j]
    }

    /// The logical device to create on the chosen adapter: one queue in each
    /// distinct family among graphics and present, and the required device
    /// extensions. An adapter that lacks one of the two families gets no
    /// device.
    pub fn new(physical_device: &VkPhysicalDevice) -> (r: Result<VkDevice, VkError>)
        ensures
            match r {
                Ok(device) => device.requested_for(physical_device.queue_families),
                Err(e) => e == VkError::MissingQueueFamily && (
                physical_device.queue_families.graphics_family is None
                    || physical_device.queue_families.present_family is None),
            },
    {
        let graphics_family = match physical_device.queue_families.graphics_family {
            Some(family) => family,
            None => { return Err(VkError::MissingQueueFamily); },
        };
        let present_family = match physical_device.queue_families.present_family {
            Some(family) => family,
            None => { return Err(VkError::MissingQueueFamily); },
        };
        let mut queue_families: Vec<u32> = Vec::new();
        queue_families.push(graphics_family);
        if present_family != graphics_family {
            queue_families.push(present_family);
        }
        assert(queue_families@ =~= spec_unique_queue_families(graphics_family, present_family));
        Ok(
            VkDevice {
                graphics_family,
                present_family,
                queue_families,
                queue_count: QUEUES_PER_FAMILY,
                extensions: device_extensions(),
            },
        )
    }
}

} // verus!
