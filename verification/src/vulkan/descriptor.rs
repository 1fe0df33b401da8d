//! Descriptors: how the uniform buffer of each frame slot reaches the
//! vertex shader.

use vstd::prelude::*;

use crate::vulkan::error::VkError;
use crate::vulkan::vertex::UNIFORM_BUFFER_SIZE;
use crate::vulkan::MAX_FRAMES_IN_FLIGHT;

verus! {

/// Numeric code of the descriptor type "uniform buffer".
pub const DESCRIPTOR_TYPE_UNIFORM_BUFFER: i32 = 6;

/// Shader stage bit: vertex stage.
pub const SHADER_STAGE_VERTEX: u32 = 0x1;

/// Shader stage bit: fragment stage.
pub const SHADER_STAGE_FRAGMENT: u32 = 0x10;

/// What the engine asks for when it creates its descriptor pool.
#[derive(Debug, Clone, Copy, PartialEq, Eq, Structural)]
pub struct VkDescriptorPool {
    pub descriptor_type: i32,
    /// Number of descriptors of that type.
    pub descriptor_count: u32,
    /// Number of sets that can be allocated.
    pub max_sets: u32,
}

/// What the engine asks for when it creates its descriptor set layout: one
/// binding.
#[derive(Debug, Clone, Copy, PartialEq, Eq, Structural)]
pub struct VkDescriptorSetLayout {
    pub binding: u32,
    pub descriptor_type: i32,
    pub descriptor_count: u32,
    pub stage_flags: u32,
}

/// What ties the descriptor set of a frame slot to its uniform buffer.
#[derive(Debug, Clone, Copy, PartialEq, Eq, Structural)]
pub struct VkDescriptorSet {
    /// Handle of the descriptor set.
    pub dst_set: u64,
    pub dst_binding: u32,
    pub dst_array_element: u32,
    pub descriptor_type: i32,
    pub descriptor_count: u32,
    /// Handle of the uniform buffer.
    pub buffer: u64,
    pub offset: u64,
    pub range: u64,
}

/// The write that makes `set` read all of `buffer` at binding 0.
pub open spec fn spec_descriptor_write(set: u64, buffer: u64) -> VkDescriptorSet {
    VkDescriptorSet {
        dst_set: set,
        dst_binding: 0,
        dst_array_element: 0,
        descriptor_type: DESCRIPTOR_TYPE_UNIFORM_BUFFER,
        descriptor_count: 1,
        buffer,
        offset: 0,
        range: UNIFORM_BUFFER_SIZE,
    }
}

impl VkDescriptorSetLayout {
    /// The layout of the engine's descriptor sets: a single uniform buffer
    /// at binding 0, seen by the vertex stage.
    pub fn new() -> (r: VkDescriptorSetLayout)
        ensures
            r == (VkDescriptorSetLayout {
                binding: 0,
                descriptor_type: DESCRIPTOR_TYPE_UNIFORM_BUFFER,
                descriptor_count: 1,
                stage_flags: SHADER_STAGE_VERTEX,
            }),
    {
        VkDescriptorSetLayout {
            binding: 0,
            descriptor_type: DESCRIPTOR_TYPE_UNIFORM_BUFFER,
            descriptor_count: 1,
            stage_flags: SHADER_STAGE_VERTEX,
        }
    }
}

impl VkDescriptorPool {
    /// The descriptor pool of the engine: room for one set with one uniform
    /// buffer for each frame slot.
    pub fn new() -> (r: VkDescriptorPool)
        ensures
            r == (VkDescriptorPool {
                descriptor_type: DESCRIPTOR_TYPE_UNIFORM_BUFFER,
                descriptor_count: MAX_FRAMES_IN_FLIGHT,
                max_sets: MAX_FRAMES_IN_FLIGHT,
            }),
    {
        VkDescriptorPool {
            descriptor_type: DESCRIPTOR_TYPE_UNIFORM_BUFFER,
            descriptor_count: MAX_FRAMES_IN_FLIGHT,
            max_sets: MAX_FRAMES_IN_FLIGHT,
        }
    }

    /// The writes that tie each descriptor set to the uniform buffer of the
    /// same frame slot. There must be one set and one buffer for each slot.
    pub fn create_sets(sets: &Vec<u64>, uniform_buffers: &Vec<u64>) -> (r: Result<
        Vec<VkDescriptorSet>,
        VkError,
    >)
        ensures
            match r {
                Ok(writes) => {
                    &&& sets@.len() == MAX_FRAMES_IN_FLIGHT
                    &&& uniform_buffers@.len() == MAX_FRAMES_IN_FLIGHT
                    &&& writes@.len() == MAX_FRAMES_IN_FLIGHT
                    &&& forall|i: int|
                        0 <= i < writes@.len() ==> #[trigger] writes@[i] == spec_descriptor_write(
                            sets@[i],
                            uniform_buffers@[i],
                        )
                },
                Err(e) => e == VkError::FrameSlotMismatch && !(sets@.len() == MAX_FRAMES_IN_FLIGHT
                    && uniform_buffers@.len() == MAX_FRAMES_IN_FLIGHT),
            },
    {
        let count = MAX_FRAMES_IN_FLIGHT as usize;
        if sets.len() != count || uniform_buffers.len() != count {
            return Err(VkError::FrameSlotMismatch);
        }
        let mut writes: Vec<VkDescriptorSet> = Vec::new();
        let mut i: usize = 0;
        while i < count
            invariant
                i <= count,
                count == MAX_FRAMES_IN_FLIGHT,
                sets@.len() == count,
                uniform_buffers@.len() == count,
                writes@.len() == i,
                forall|k: int|
                    0 <= k < i ==> #[trigger] writes@[k] == spec_descriptor_write(
                        sets@[k],
                        uniform_buffers@[k],
                    ),
            decreases count - i,
        {
            writes.push(
                VkDescriptorSet {
                    dst_set: sets[i],
                    dst_binding: 0,
                    dst_array_element: 0,
                    descriptor_type: DESCRIPTOR_TYPE_UNIFORM_BUFFER,
                    descriptor_count: 1,
                    buffer: uniform_buffers[i],
                    offset: 0,
                    range: UNIFORM_BUFFER_SIZE,
                },
            );
            i += 1;
        }
        Ok(writes)
    }
}

} // verus!
