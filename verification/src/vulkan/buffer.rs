//! Resource manager: memory types, buffers, and the staging upload that
//! fills a device-local buffer.

use vstd::prelude::*;

use crate::vulkan::error::VkError;
use crate::vulkan::image::SHARING_MODE_EXCLUSIVE;
use crate::vulkan::swapchain::DestroyOp;
use crate::vulkan::utils::{contains_flags, spec_contains_flags};
use crate::vulkan::vertex::UNIFORM_BUFFER_SIZE;
use crate::vulkan::MAX_FRAMES_IN_FLIGHT;

verus! {

/// Memory property bit: fastest for the device.
pub const MEMORY_PROPERTY_DEVICE_LOCAL: u32 = 0x1;

/// Memory property bit: the host can map it.
pub const MEMORY_PROPERTY_HOST_VISIBLE: u32 = 0x2;

/// Memory property bit: host writes need no flush.
pub const MEMORY_PROPERTY_HOST_COHERENT: u32 = 0x4;

/// Buffer usage bit: source of a transfer.
pub const BUFFER_USAGE_TRANSFER_SRC: u32 = 0x1;

/// Buffer usage bit: destination of a transfer.
pub const BUFFER_USAGE_TRANSFER_DST: u32 = 0x2;

/// Buffer usage bit: uniform buffer.
pub const BUFFER_USAGE_UNIFORM_BUFFER: u32 = 0x10;

/// Buffer usage bit: index buffer.
pub const BUFFER_USAGE_INDEX_BUFFER: u32 = 0x40;

/// Buffer usage bit: vertex buffer.
pub const BUFFER_USAGE_VERTEX_BUFFER: u32 = 0x80;

/// Number of memory types that a type filter can name.
pub const MAX_MEMORY_TYPES: usize = 32;

/// Size in bytes of one element of vertex or index data.
pub const ELEMENT_SIZE: u64 = 4;

/// What the engine reads of one memory type of the device.
#[derive(Debug, Clone, Copy, PartialEq, Eq, Structural)]
pub struct MemoryType {
    /// Property bits of the memory type.
    pub property_flags: u32,
    pub heap_index: u32,
}

/// What a buffer or image needs of the memory it is bound to.
#[derive(Debug, Clone, Copy, PartialEq, Eq, Structural)]
pub struct MemoryRequirements {
    pub size: u64,
    pub alignment: u64,
    /// Bit `i` is set if memory type `i` may be used.
    pub memory_type_bits: u32,
}

/// What the engine asks for when it allocates device memory.
#[derive(Debug, Clone, Copy, PartialEq, Eq, Structural)]
pub struct MemoryAllocateInfo {
    pub allocation_size: u64,
    pub memory_type_index: u32,
}

/// What the engine asks for when it creates a buffer.
#[derive(Debug, Clone, Copy, PartialEq, Eq, Structural)]
pub struct BufferCreateInfo {
    /// Size in bytes.
    pub size: u64,
    pub usage: u32,
    pub sharing_mode: i32,
}

/// The part of one buffer that is copied into another.
#[derive(Debug, Clone, Copy, PartialEq, Eq, Structural)]
pub struct BufferCopy {
    pub src_offset: u64,
    pub dst_offset: u64,
    /// Number of bytes.
    pub size: u64,
}

/// A buffer to create, and the properties of the memory to bind it to.
#[derive(Debug, Clone, Copy, PartialEq, Eq, Structural)]
pub struct BufferRequest {
    pub info: BufferCreateInfo,
    pub properties: u32,
}

/// One step of the staging upload.
#[derive(Debug, Clone, Copy, PartialEq, Eq, Structural)]
pub enum UploadStep {
    /// Create the staging buffer and bind it to memory with the given
    /// properties.
    CreateStaging { info: BufferCreateInfo, properties: u32 },
    /// Map the staging memory, copy the caller's data in, unmap.
    WriteStaging { size: u64 },
    /// Create the target buffer and bind it to memory with the given
    /// properties.
    CreateTarget { info: BufferCreateInfo, properties: u32 },
    /// Record a one-shot command buffer that copies staging to target, and
    /// submit it to the graphics queue.
    CopyToTarget { region: BufferCopy },
    /// Block until the graphics queue is idle.
    WaitQueueIdle,
    /// Destroy the staging buffer and free its memory.
    DestroyStaging,
}

/// A buffer on the device: its handle, its memory, and how many elements of
/// 32 bits it holds.
#[derive(Debug, Clone, Copy, PartialEq, Eq, Structural)]
pub struct VkBuffer {
    /// Handle of the buffer.
    pub inner: u64,
    /// Number of elements.
    pub size: u64,
    /// Handle of the memory.
    pub memory: u64,
}

/// Whether the type filter allows the memory type at `index`.
pub open spec fn spec_type_allowed(type_filter: u32, index: int) -> bool {
    0 <= index < MAX_MEMORY_TYPES && type_filter & (1u32 << (index as u32)) != 0
}

/// Whether the memory type at `index` may be used: the filter allows it and
/// it has every required property.
pub open spec fn spec_memory_type_fits(
    memory_types: Seq<MemoryType>,
    type_filter: u32,
    properties: u32,
    index: int,
) -> bool {
    &&& 0 <= index < memory_types.len()
    &&& spec_type_allowed(type_filter, index)
    &&& spec_contains_flags(memory_types[index].property_flags, properties)
}

/// Whether `index` is the first memory type that may be used.
pub open spec fn is_first_memory_type(
    memory_types: Seq<MemoryType>,
    type_filter: u32,
    properties: u32,
    index: int,
) -> bool {
    &&& spec_memory_type_fits(memory_types, type_filter, properties, index)
    &&& forall|j: int|
        0 <= j < index ==> !#[trigger] spec_memory_type_fits(
            memory_types,
            type_filter,
            properties,
            j,
        )
}

/// The steps of the staging upload of `size` bytes into a buffer with the
/// given usage, in order.
pub open spec fn spec_upload_steps(size: u64, usage: u32) -> Seq<UploadStep> {
    seq![
        UploadStep::CreateStaging {
            info: BufferCreateInfo {
                size,
                usage: BUFFER_USAGE_TRANSFER_SRC,
                sharing_mode: SHARING_MODE_EXCLUSIVE,
            },
            properties: MEMORY_PROPERTY_HOST_VISIBLE | MEMORY_PROPERTY_HOST_COHERENT,
        },
        UploadStep::WriteStaging { size },
        UploadStep::CreateTarget {
            info: BufferCreateInfo {
                size,
                usage: usage | BUFFER_USAGE_TRANSFER_DST,
                sharing_mode: SHARING_MODE_EXCLUSIVE,
            },
            properties: MEMORY_PROPERTY_DEVICE_LOCAL,
        },
        UploadStep::CopyToTarget { region: BufferCopy { src_offset: 0, dst_offset: 0, size } },
        UploadStep::WaitQueueIdle,
        UploadStep::DestroyStaging,
    ]
}

/// What the two buffers of an upload hold. A buffer that does not exist
/// holds nothing.
pub struct UploadMemory {
    pub staging: Option<Seq<u8>>,
    pub target: Option<Seq<u8>>,
}

/// `source` copied over `destination`, as far as the region and both
/// buffers reach.
pub open spec fn spec_copy_region(source: Seq<u8>, destination: Seq<u8>, region: BufferCopy) -> Seq<
    u8,
> {
    Seq::new(
        destination.len(),
        |i: int|
            if region.dst_offset <= i < region.dst_offset + region.size && 0 <= i
                - region.dst_offset + region.src_offset < source.len() {
                source[i - region.dst_offset + region.src_offset]
            } else {
                destination[i]
            },
    )
}

/// What one step of an upload of `data` does to the two buffers. A new
/// buffer holds zeros; any content would do, since the upload overwrites it.
pub open spec fn spec_apply_step(step: UploadStep, data: Seq<u8>, memory: UploadMemory)
    -> UploadMemory {
    match step {
        UploadStep::CreateStaging { info, properties } => UploadMemory {
            staging: Some(Seq::new(info.size as nat, |i: int| 0u8)),
            target: memory.target,
        },
        UploadStep::WriteStaging { size } => match memory.staging {
            Some(staging) => UploadMemory {
                staging: Some(
                    Seq::new(
                        staging.len(),
                        |i: int|
                            if i < size && i < data.len() {
                                data[i]
                            } else {
                                staging[i]
                            },
                    ),
                ),
                target: memory.target,
            },
            None => memory,
        },
        UploadStep::CreateTarget { info, properties } => UploadMemory {
            staging: memory.staging,
            target: Some(Seq::new(info.size as nat, |i: int| 0u8)),
        },
        UploadStep::CopyToTarget { region } => match (memory.staging, memory.target) {
            (Some(staging), Some(target)) => UploadMemory {
                staging: memory.staging,
                target: Some(spec_copy_region(staging, target, region)),
            },
            _ => memory,
        },
        UploadStep::WaitQueueIdle => memory,
        UploadStep::DestroyStaging => UploadMemory { staging: None, target: memory.target },
    }
}

/// What the steps of an upload of `data`, performed in order, do to the two
/// buffers.
pub open spec fn spec_apply_steps(steps: Seq<UploadStep>, data: Seq<u8>, memory: UploadMemory)
    -> UploadMemory
    decreases steps.len(),
{
    if steps.len() == 0 {
        memory
    } else {
        spec_apply_steps(steps.drop_first(), data, spec_apply_step(steps[0], data, memory))
    }
}

/// Staging round trip: after the steps of an upload, performed in order on
/// buffers that did not exist before, the target buffer holds the caller's
/// data byte for byte, and the staging buffer is gone.
pub proof fn staging_round_trip(data: Seq<u8>, usage: u32)
    requires
        data.len() <= u64::MAX,
    ensures
        spec_apply_steps(
            spec_upload_steps(data.len() as u64, usage),
            data,
            UploadMemory { staging: None, target: None },
        ) == (UploadMemory { staging: None, target: Some(data) }),
{
    let size = data.len() as u64;
    let steps = spec_upload_steps(size, usage);
    let m0 = UploadMemory { staging: None, target: None };
    let m1 = spec_apply_step(steps[0], data, m0);
    let m2 = spec_apply_step(steps[1], data, m1);
    let m3 = spec_apply_step(steps[2], data, m2);
    let m4 = spec_apply_step(steps[3], data, m3);
    let m5 = spec_apply_step(steps[4], data, m4);
    let m6 = spec_apply_step(steps[5], data, m5);
    assert(m2.staging->0 =~= data);
    assert(m4.target->0 =~= data);
    assert(m6 == (UploadMemory { staging: None, target: Some(data) }));
    let s1 = steps.drop_first();
    let s2 = s1.drop_first();
    let s3 = s2.drop_first();
    let s4 = s3.drop_first();
    let s5 = s4.drop_first();
    let s6 = s5.drop_first();
    assert(s1[0] == steps[1] && s2[0] == steps[2] && s3[0] == steps[3] && s4[0] == steps[4]
        && s5[0] == steps[5] && s6.len() == 0);
    assert(spec_apply_steps(s6, data, m6) == m6);
    assert(spec_apply_steps(s5, data, m5) == m6);
    assert(spec_apply_steps(s4, data, m4) == m6);
    assert(spec_apply_steps(s3, data, m3) == m6);
    assert(spec_apply_steps(s2, data, m2) == m6);
    assert(spec_apply_steps(s1, data, m1) == m6);
}

impl VkBuffer {
    /// The first memory type, in index order, that the type filter allows
    /// and that has every bit of `properties`.
    pub fn find_memory_type(memory_types: &Vec<MemoryType>, type_filter: u32, properties: u32) -> (r:
        Result<u32, VkError>)
        ensures
            match r {
                Ok(index) => is_first_memory_type(
                    memory_types@,
                    type_filter,
                    properties,
                    index as int,
                ),
                Err(e) => e == VkError::NoSuitableMemoryType && forall|j: int|
                    !#[trigger] spec_memory_type_fits(memory_types@, type_filter, properties, j),
            },
    {
        let mut index: usize = 0;
        while index < memory_types.len() && index < MAX_MEMORY_TYPES
            invariant
                index <= memory_types@.len(),
                index <= MAX_MEMORY_TYPES,
                forall|j: int|
                    0 <= j < index ==> !#[trigger] spec_memory_type_fits(
                        memory_types@,
                        type_filter,
                        properties,
                        j,
                    ),
            decreases memory_types@.len() - index,
        {
            if type_filter & (1u32 << (index as u32)) != 0 && contains_flags(
                memory_types[index].property_flags,
                properties,
            ) {
                return Ok(index as u32);
            }
            index += 1;
        }
        Err(VkError::NoSuitableMemoryType)
    }

    /// The buffer to create: `size` bytes with the given usage, owned by one
    /// queue family.
    pub fn create_buffer(size: u64, usage: u32) -> (r: BufferCreateInfo)
        ensures
            r == (BufferCreateInfo { size, usage, sharing_mode: SHARING_MODE_EXCLUSIVE }),
    {
        BufferCreateInfo { size, usage, sharing_mode: SHARING_MODE_EXCLUSIVE }
    }

    /// The memory to allocate for a buffer or image with the given
    /// requirements: as much as it needs, of the first memory type that its
    /// type bits allow and that has every bit of `properties`.
    pub fn allocate_memory(
        memory_types: &Vec<MemoryType>,
        requirements: &MemoryRequirements,
        properties: u32,
    ) -> (r: Result<MemoryAllocateInfo, VkError>)
        ensures
            match r {
                Ok(info) => info.allocation_size == requirements.size && is_first_memory_type(
                    memory_types@,
                    requirements.memory_type_bits,
                    properties,
                    info.memory_type_index as int,
                ),
                Err(e) => e == VkError::NoSuitableMemoryType && forall|j: int|
                    !#[trigger] spec_memory_type_fits(
                        memory_types@,
                        requirements.memory_type_bits,
                        properties,
                        j,
                    ),
            },
    {
        match Self::find_memory_type(memory_types, requirements.memory_type_bits, properties) {
            Ok(index) => Ok(
                MemoryAllocateInfo {
                    allocation_size: requirements.size,
                    memory_type_index: index,
                },
            ),
            Err(e) => Err(e),
        }
    }

    /// Size in bytes of `element_count` elements, if a buffer can be that
    /// large.
    pub fn byte_size(element_count: usize) -> (r: Result<u64, VkError>)
        ensures
            match r {
                Ok(size) => size == element_count * ELEMENT_SIZE,
                Err(e) => e == VkError::TooLarge && element_count * ELEMENT_SIZE > u64::MAX,
            },
    {
        if element_count as u64 > u64::MAX / ELEMENT_SIZE {
            Err(VkError::TooLarge)
        } else {
            Ok(element_count as u64 * ELEMENT_SIZE)
        }
    }

    /// The steps that bring `size` bytes of the caller's data into a new
    /// device-local buffer with the given usage, in order: a host-visible,
    /// host-coherent staging buffer of that size is created and filled; the
    /// target is created with the same size, as a transfer destination; the
    /// whole staging buffer is copied on the graphics queue; the queue is
    /// waited for; the staging buffer is destroyed.
    pub fn upload_steps(size: u64, usage: u32) -> (r: Vec<UploadStep>)
        ensures
            r@ == spec_upload_steps(size, usage),
    {
        let mut steps: Vec<UploadStep> = Vec::new();
        steps.push(
            UploadStep::CreateStaging {
                info: Self::create_buffer(size, BUFFER_USAGE_TRANSFER_SRC),
                properties: MEMORY_PROPERTY_HOST_VISIBLE | MEMORY_PROPERTY_HOST_COHERENT,
            },
        );
        steps.push(UploadStep::WriteStaging { size });
        steps.push(
            UploadStep::CreateTarget {
                info: Self::create_buffer(size, usage | BUFFER_USAGE_TRANSFER_DST),
                properties: MEMORY_PROPERTY_DEVICE_LOCAL,
            },
        );
        steps.push(UploadStep::CopyToTarget { region: Self::copy_buffer(size) });
        steps.push(UploadStep::WaitQueueIdle);
        steps.push(UploadStep::DestroyStaging);
        assert(steps@ =~= spec_upload_steps(size, usage));
        steps
    }

    /// The uniform buffers to create: one for each frame slot, large enough
    /// for the uniform payload, in memory that the host can map and that
    /// needs no flush. They bypass staging and stay mapped; each frame
    /// writes into the buffer of its slot.
    pub fn create_uniform_buffers() -> (r: Vec<BufferRequest>)
        ensures
            r@.len() == MAX_FRAMES_IN_FLIGHT,
            forall|i: int|
                0 <= i < r@.len() ==> #[trigger] r@[i] == (BufferRequest {
                    info: BufferCreateInfo {
                        size: UNIFORM_BUFFER_SIZE,
                        usage: BUFFER_USAGE_UNIFORM_BUFFER,
                        sharing_mode: SHARING_MODE_EXCLUSIVE,
                    },
                    properties: MEMORY_PROPERTY_HOST_VISIBLE | MEMORY_PROPERTY_HOST_COHERENT,
                }),
    {
        let mut requests: Vec<BufferRequest> = Vec::new();
        let mut i: u32 = 0;
        while i < MAX_FRAMES_IN_FLIGHT
            invariant
                i <= MAX_FRAMES_IN_FLIGHT,
                requests@.len() == i,
                forall|k: int|
                    0 <= k < i ==> #[trigger] requests@[k] == (BufferRequest {
                        info: BufferCreateInfo {
                            size: UNIFORM_BUFFER_SIZE,
                            usage: BUFFER_USAGE_UNIFORM_BUFFER,
                            sharing_mode: SHARING_MODE_EXCLUSIVE,
                        },
                        properties: MEMORY_PROPERTY_HOST_VISIBLE | MEMORY_PROPERTY_HOST_COHERENT,
                    }),
            decreases MAX_FRAMES_IN_FLIGHT - i,
        {
            requests.push(
                BufferRequest {
                    info: Self::create_buffer(UNIFORM_BUFFER_SIZE, BUFFER_USAGE_UNIFORM_BUFFER),
                    properties: MEMORY_PROPERTY_HOST_VISIBLE | MEMORY_PROPERTY_HOST_COHERENT,
                },
            );
            i += 1;
        }
        requests
    }

    /// The region to copy from staging to target: all `size` bytes, from the
    /// start of the one to the start of the other.
    pub fn copy_buffer(size: u64) -> (r: BufferCopy)
        ensures
            r == (BufferCopy { src_offset: 0, dst_offset: 0, size }),
    {
        BufferCopy { src_offset: 0, dst_offset: 0, size }
    }

    /// The buffer that an upload of `element_count` elements has filled.
    pub fn new(inner: u64, memory: u64, element_count: usize) -> (r: VkBuffer)
        ensures
            r == (VkBuffer { inner, size: element_count as u64, memory }),
    {
        VkBuffer { inner, size: element_count as u64, memory }
    }

    /// The steps that release the buffer: its memory is freed, then the
    /// buffer destroyed.
    pub fn destroy(&self) -> (r: Vec<DestroyOp>)
        ensures
            r@ == seq![DestroyOp::FreeMemory(self.memory), DestroyOp::Buffer(self.inner)],
    {
        let mut ops: Vec<DestroyOp> = Vec::new();
        ops.push(DestroyOp::FreeMemory(self.memory));
        ops.push(DestroyOp::Buffer(self.inner));
        assert(ops@ =~= seq![DestroyOp::FreeMemory(self.memory), DestroyOp::Buffer(self.inner)]);
        ops
    }
}

} // verus!
