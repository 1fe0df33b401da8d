use scop::vulkan::buffer::{
    BufferCopy, BufferCreateInfo, MemoryRequirements, MemoryType, UploadStep, VkBuffer,
    BUFFER_USAGE_INDEX_BUFFER, BUFFER_USAGE_TRANSFER_DST, BUFFER_USAGE_TRANSFER_SRC,
    BUFFER_USAGE_VERTEX_BUFFER, MEMORY_PROPERTY_DEVICE_LOCAL, MEMORY_PROPERTY_HOST_COHERENT,
    MEMORY_PROPERTY_HOST_VISIBLE,
};
use scop::vulkan::descriptor::{VkDescriptorPool, VkDescriptorSetLayout};
use scop::vulkan::error::VkError;
use scop::vulkan::image::{
    create_image, create_image_view, IMAGE_ASPECT_COLOR, IMAGE_ASPECT_DEPTH,
    IMAGE_USAGE_DEPTH_STENCIL_ATTACHMENT, SHARING_MODE_EXCLUSIVE,
};
use scop::vulkan::instance::{validation_layers, VkInstance, API_VERSION_1_3};
use scop::vulkan::pipeline::{
    fixed_state, fragment_shader_path, vertex_shader_path, VkPipeline, COMPARE_OP_LESS,
    CULL_MODE_BACK, FRONT_FACE_CLOCKWISE, POLYGON_MODE_FILL, PRIMITIVE_TOPOLOGY_TRIANGLE_LIST,
};
use scop::vulkan::render_pass::VkRenderPass;
use scop::vulkan::shaders::{VkShaderModule, SPIRV_MAGIC};
use scop::vulkan::swapchain::DestroyOp;
use scop::vulkan::utils::{contains_flags, Extent2D, FORMAT_D32_SFLOAT, IMAGE_TILING_OPTIMAL};
use scop::vulkan::vertex::{flatten, Vector3, Vertex, UNIFORM_BUFFER_SIZE, VERTEX_STRIDE};

fn memory(flags: u32) -> MemoryType {
    MemoryType { property_flags: flags, heap_index: 0 }
}

#[test]
fn memory_type_is_the_first_that_fits() {
    let wanted = MEMORY_PROPERTY_HOST_VISIBLE | MEMORY_PROPERTY_HOST_COHERENT;
    let types = vec![memory(wanted), memory(MEMORY_PROPERTY_DEVICE_LOCAL), memory(wanted), memory(wanted)];
    assert_eq!(VkBuffer::find_memory_type(&types, 0b0110, wanted), Ok(2));
    assert_eq!(VkBuffer::find_memory_type(&types, 0b1111, wanted), Ok(0));
    assert_eq!(VkBuffer::find_memory_type(&types, 0b1000, wanted), Ok(3));
    assert_eq!(VkBuffer::find_memory_type(&types, 0b0110, MEMORY_PROPERTY_DEVICE_LOCAL), Ok(1));
}

#[test]
fn memory_type_without_a_match_is_an_error() {
    let wanted = MEMORY_PROPERTY_HOST_VISIBLE | MEMORY_PROPERTY_HOST_COHERENT;
    let types = vec![memory(wanted), memory(MEMORY_PROPERTY_HOST_VISIBLE), memory(0)];
    assert_eq!(
        VkBuffer::find_memory_type(&types, 0b0110, wanted),
        Err(VkError::NoSuitableMemoryType)
    );
    assert_eq!(VkBuffer::find_memory_type(&types, 0, 0), Err(VkError::NoSuitableMemoryType));
    assert_eq!(
        VkBuffer::find_memory_type(&vec![], u32::MAX, 0),
        Err(VkError::NoSuitableMemoryType)
    );
    assert_eq!(
        VkBuffer::find_memory_type(&types, 0b1000, 0),
        Err(VkError::NoSuitableMemoryType)
    );
}

#[test]
fn memory_types_past_the_filter_are_not_considered() {
    let types = vec![memory(0); 40];
    assert_eq!(VkBuffer::find_memory_type(&types, 0x8000_0000, 0), Ok(31));
    let mut late = vec![memory(0); 40];
    late[35] = memory(MEMORY_PROPERTY_DEVICE_LOCAL);
    assert_eq!(
        VkBuffer::find_memory_type(&late, u32::MAX, MEMORY_PROPERTY_DEVICE_LOCAL),
        Err(VkError::NoSuitableMemoryType)
    );
}

#[test]
fn flags_are_contained_bit_by_bit() {
    assert!(contains_flags(0b0111, 0b0101));
    assert!(contains_flags(0b0111, 0));
    assert!(!contains_flags(0b0101, 0b0111));
    assert!(!contains_flags(0, 1));
}

#[test]
fn memory_is_allocated_as_required() {
    let types = vec![memory(MEMORY_PROPERTY_HOST_VISIBLE), memory(MEMORY_PROPERTY_DEVICE_LOCAL)];
    let requirements = MemoryRequirements { size: 4096, alignment: 256, memory_type_bits: 0b11 };
    let info = VkBuffer::allocate_memory(&types, &requirements, MEMORY_PROPERTY_DEVICE_LOCAL).unwrap();
    assert_eq!((info.allocation_size, info.memory_type_index), (4096, 1));
    let narrow = MemoryRequirements { size: 4096, alignment: 256, memory_type_bits: 0b01 };
    assert_eq!(
        VkBuffer::allocate_memory(&types, &narrow, MEMORY_PROPERTY_DEVICE_LOCAL),
        Err(VkError::NoSuitableMemoryType)
    );
}

#[test]
fn byte_size_is_four_bytes_an_element() {
    assert_eq!(VkBuffer::byte_size(0), Ok(0));
    assert_eq!(VkBuffer::byte_size(9), Ok(36));
    assert_eq!(VkBuffer::byte_size(usize::MAX), Err(VkError::TooLarge));
}

#[test]
fn upload_goes_through_a_staging_buffer() {
    let steps = VkBuffer::upload_steps(48, BUFFER_USAGE_VERTEX_BUFFER);
    assert_eq!(
        steps,
        vec![
            UploadStep::CreateStaging {
                info: BufferCreateInfo {
                    size: 48,
                    usage: BUFFER_USAGE_TRANSFER_SRC,
                    sharing_mode: SHARING_MODE_EXCLUSIVE,
                },
                properties: MEMORY_PROPERTY_HOST_VISIBLE | MEMORY_PROPERTY_HOST_COHERENT,
            },
            UploadStep::WriteStaging { size: 48 },
            UploadStep::CreateTarget {
                info: BufferCreateInfo {
                    size: 48,
                    usage: BUFFER_USAGE_VERTEX_BUFFER | BUFFER_USAGE_TRANSFER_DST,
                    sharing_mode: SHARING_MODE_EXCLUSIVE,
                },
                properties: MEMORY_PROPERTY_DEVICE_LOCAL,
            },
            UploadStep::CopyToTarget { region: BufferCopy { src_offset: 0, dst_offset: 0, size: 48 } },
            UploadStep::WaitQueueIdle,
            UploadStep::DestroyStaging,
        ]
    );
}

fn perform(steps: &[UploadStep], data: &[u8]) -> (Option<Vec<u8>>, Option<Vec<u8>>) {
    let mut staging: Option<Vec<u8>> = None;
    let mut target: Option<Vec<u8>> = None;
    for step in steps {
        match *step {
            UploadStep::CreateStaging { info, .. } => staging = Some(vec![0xaa; info.size as usize]),
            UploadStep::WriteStaging { size } => {
                staging.as_mut().unwrap()[..size as usize].copy_from_slice(&data[..size as usize])
            }
            UploadStep::CreateTarget { info, .. } => target = Some(vec![0x55; info.size as usize]),
            UploadStep::CopyToTarget { region } => {
                let from = region.src_offset as usize;
                let to = region.dst_offset as usize;
                let size = region.size as usize;
                let source = staging.as_ref().unwrap()[from..from + size].to_vec();
                target.as_mut().unwrap()[to..to + size].copy_from_slice(&source);
            }
            UploadStep::WaitQueueIdle => {}
            UploadStep::DestroyStaging => staging = None,
        }
    }
    (staging, target)
}

#[test]
fn staging_round_trip_keeps_every_byte() {
    let numbers: Vec<f32> = vec![-0.5, -0.5, 1.0, 0.0, 0.0, 0.5, -0.5, 0.0, 1.0, 3.25e-7];
    let data: Vec<u8> = numbers.iter().flat_map(|number| number.to_ne_bytes()).collect();
    let size = VkBuffer::byte_size(numbers.len()).unwrap();
    assert_eq!(size as usize, data.len());
    let steps = VkBuffer::upload_steps(size, BUFFER_USAGE_INDEX_BUFFER);
    let (staging, target) = perform(&steps, &data);
    assert_eq!(staging, None);
    assert_eq!(target, Some(data));
}

#[test]
fn uniform_buffers_are_host_visible_and_one_per_slot() {
    let requests = VkBuffer::create_uniform_buffers();
    assert_eq!(requests.len(), 2);
    for request in requests {
        assert_eq!(request.info.size, 192);
        assert_eq!(request.info.usage, 0x10);
        assert_eq!(
            request.properties,
            MEMORY_PROPERTY_HOST_VISIBLE | MEMORY_PROPERTY_HOST_COHERENT
        );
    }
}

#[test]
fn buffer_is_released_memory_first() {
    let buffer = VkBuffer::new(7, 8, 6);
    assert_eq!(buffer, VkBuffer { inner: 7, size: 6, memory: 8 });
    assert_eq!(buffer.destroy(), vec![DestroyOp::FreeMemory(8), DestroyOp::Buffer(7)]);
    assert_eq!(
        VkBuffer::create_buffer(16, BUFFER_USAGE_INDEX_BUFFER),
        BufferCreateInfo { size: 16, usage: BUFFER_USAGE_INDEX_BUFFER, sharing_mode: SHARING_MODE_EXCLUSIVE }
    );
    assert_eq!(VkBuffer::copy_buffer(16), BufferCopy { src_offset: 0, dst_offset: 0, size: 16 });
}

fn module(words: &[u32]) -> Vec<u8> {
    words.iter().flat_map(|word| word.to_le_bytes()).collect()
}

#[test]
fn shader_words_are_read_lowest_byte_first() {
    let words = [SPIRV_MAGIC, 0x0001_0000, 0xdead_beef, 7];
    let decoded = VkShaderModule::new(&module(&words)).unwrap();
    assert_eq!(decoded.code, words.to_vec());
    assert_eq!(decoded.code_size(), Some(16));
}

#[test]
fn byte_swapped_shader_is_still_read_lowest_byte_first() {
    let words = [SPIRV_MAGIC, 0x0001_0000, 0xdead_beef, 7];
    let swapped: Vec<u8> = words.iter().flat_map(|word| word.to_be_bytes()).collect();
    let decoded = VkShaderModule::new(&swapped).unwrap();
    assert_eq!(decoded.code, vec![0x0302_2307, 0x0000_0100, 0xefbe_adde, 0x0700_0000]);
    assert_eq!(VkShaderModule::new(&[0x07, 0x23, 0x02, 0x03]).unwrap().code, vec![0x0302_2307]);
    assert_eq!(VkShaderModule::new(&[0x03, 0x02, 0x23, 0x07]).unwrap().code, vec![SPIRV_MAGIC]);
}

#[test]
fn shader_without_magic_number_is_taken_as_it_is() {
    let words = [0x1234_5678, 0x9abc_def0];
    let decoded = VkShaderModule::new(&module(&words)).unwrap();
    assert_eq!(decoded.code, words.to_vec());
    let empty = VkShaderModule::new(&[]).unwrap();
    assert!(empty.code.is_empty());
    assert_eq!(empty.code_size(), Some(0));
}

#[test]
fn shader_of_a_broken_size_is_malformed() {
    let mut bytes = module(&[SPIRV_MAGIC, 1]);
    bytes.push(0);
    assert!(matches!(VkShaderModule::new(&bytes), Err(VkError::MalformedShader)));
    assert!(matches!(VkShaderModule::new(&[3, 2, 35]), Err(VkError::MalformedShader)));
    assert!(matches!(VkShaderModule::new(&[1]), Err(VkError::MalformedShader)));
}

#[test]
fn depth_image_is_a_flat_exclusive_image() {
    let info = create_image(
        640,
        480,
        FORMAT_D32_SFLOAT,
        IMAGE_TILING_OPTIMAL,
        IMAGE_USAGE_DEPTH_STENCIL_ATTACHMENT,
    );
    assert_eq!(info.extent, Extent2D { width: 640, height: 480 });
    assert_eq!((info.depth, info.mip_levels, info.array_layers, info.samples), (1, 1, 1, 1));
    assert_eq!(info.format, FORMAT_D32_SFLOAT);
    assert_eq!(info.usage, IMAGE_USAGE_DEPTH_STENCIL_ATTACHMENT);
    assert_eq!(info.sharing_mode, SHARING_MODE_EXCLUSIVE);
    let view = create_image_view(77, FORMAT_D32_SFLOAT, IMAGE_ASPECT_DEPTH);
    assert_eq!((view.image, view.aspect_mask), (77, IMAGE_ASPECT_DEPTH));
    assert_eq!((view.base_mip_level, view.level_count, view.base_array_layer, view.layer_count), (0, 1, 0, 1));
    assert_eq!(create_image_view(1, 50, IMAGE_ASPECT_COLOR).aspect_mask, IMAGE_ASPECT_COLOR);
}

#[test]
fn vertex_layout_is_three_vectors_of_three() {
    let binding = Vertex::get_binding_description();
    assert_eq!((binding.binding, binding.stride), (0, 36));
    assert_eq!(VERTEX_STRIDE as usize, std::mem::size_of::<[f32; 9]>());
    let attributes = Vertex::get_attribute_description();
    assert_eq!(attributes.len(), 3);
    for (location, attribute) in attributes.iter().enumerate() {
        assert_eq!(attribute.binding, 0);
        assert_eq!(attribute.location as usize, location);
        assert_eq!(attribute.format, 106);
        assert_eq!(attribute.offset as usize, 12 * location);
    }
    assert_eq!(UNIFORM_BUFFER_SIZE as usize, std::mem::size_of::<[[f32; 16]; 3]>());
}

#[test]
fn vertices_are_flattened_in_order() {
    let vector = |start: u32| Vector3 { x: start, y: start + 1, z: start + 2 };
    let vertices = vec![
        Vertex { position: vector(1), normal: vector(4), color: vector(7) },
        Vertex { position: vector(10), normal: vector(13), color: vector(16) },
    ];
    assert_eq!(flatten(&vertices), vec![1, 2, 3, 4, 5, 6, 7, 8, 9, 10, 11, 12, 13, 14, 15, 16, 17, 18]);
    assert!(flatten(&vec![]).is_empty());
}

#[test]
fn pipeline_is_fixed_as_described() {
    let info = VkPipeline::create_info(11, 12, 13, 14);
    assert_eq!(info.stages.len(), 2);
    assert_eq!((info.stages[0].stage, info.stages[0].module), (0x1, 11));
    assert_eq!((info.stages[1].stage, info.stages[1].module), (0x10, 12));
    assert_eq!(info.stages[0].entry_point, "main");
    assert_eq!(info.stages[1].entry_point, "main");
    assert_eq!(info.attributes, Vertex::get_attribute_description());
    assert_eq!(info.dynamic_states, vec![0, 1]);
    assert_eq!((info.layout, info.render_pass), (13, 14));
    let fixed = fixed_state();
    assert_eq!(info.fixed, fixed);
    assert_eq!(fixed.topology, PRIMITIVE_TOPOLOGY_TRIANGLE_LIST);
    assert_eq!(fixed.rasterization.polygon_mode, POLYGON_MODE_FILL);
    assert_eq!(fixed.rasterization.cull_mode, CULL_MODE_BACK);
    assert_eq!(fixed.rasterization.front_face, FRONT_FACE_CLOCKWISE);
    assert_eq!(f32::from_bits(fixed.rasterization.line_width), 1.0);
    assert_eq!(fixed.rasterization_samples, 1);
    assert!(fixed.depth_stencil.depth_test_enable && fixed.depth_stencil.depth_write_enable);
    assert_eq!(fixed.depth_stencil.depth_compare_op, COMPARE_OP_LESS);
    assert!(!fixed.color_blend.blend_enable);
    assert_eq!(fixed.color_blend.color_write_mask, 0xf);
    assert_eq!((fixed.viewport_count, fixed.scissor_count), (1, 1));
    assert_eq!(VkPipeline::new(5, 6), VkPipeline { inner: 5, layout: 6 });
    assert_eq!(vertex_shader_path(), "shaders/shader.vert.spv");
    assert_eq!(fragment_shader_path(), "shaders/shader.frag.spv");
}

#[test]
fn render_pass_clears_colour_and_depth() {
    let pass = VkRenderPass::new(50, FORMAT_D32_SFLOAT);
    assert_eq!(pass.color_attachment.format, 50);
    assert_eq!(pass.depth_attachment.format, FORMAT_D32_SFLOAT);
    assert_eq!(pass.color_attachment.load_op, 1);
    assert_eq!(pass.depth_attachment.load_op, 1);
    assert_eq!(pass.color_attachment.store_op, 0);
    assert_eq!(pass.color_attachment.final_layout, 1000001002);
    assert_eq!((pass.color_reference.attachment, pass.depth_reference.attachment), (0, 1));
    assert_eq!(pass.dependency.src_subpass, u32::MAX);
    assert_eq!(pass.dependency.dst_subpass, 0);
}

#[test]
fn descriptors_tie_each_set_to_its_buffer() {
    let layout = VkDescriptorSetLayout::new();
    assert_eq!((layout.binding, layout.descriptor_type, layout.descriptor_count, layout.stage_flags), (0, 6, 1, 1));
    let pool = VkDescriptorPool::new();
    assert_eq!((pool.descriptor_type, pool.descriptor_count, pool.max_sets), (6, 2, 2));
    let writes = VkDescriptorPool::create_sets(&vec![100, 101], &vec![200, 201]).unwrap();
    assert_eq!(writes.len(), 2);
    for (slot, write) in writes.iter().enumerate() {
        assert_eq!(write.dst_set, 100 + slot as u64);
        assert_eq!(write.buffer, 200 + slot as u64);
        assert_eq!((write.dst_binding, write.dst_array_element, write.descriptor_count), (0, 0, 1));
        assert_eq!((write.offset, write.range), (0, 192));
    }
    assert_eq!(
        VkDescriptorPool::create_sets(&vec![100], &vec![200, 201]),
        Err(VkError::FrameSlotMismatch)
    );
    assert_eq!(
        VkDescriptorPool::create_sets(&vec![100, 101], &vec![200, 201, 202]),
        Err(VkError::FrameSlotMismatch)
    );
}

#[test]
fn instance_takes_validation_layers_only_on_request() {
    let extensions = vec!["VK_KHR_surface".to_string(), "VK_KHR_xcb_surface".to_string()];
    let plain = VkInstance::new(extensions.clone(), &vec![], false).unwrap();
    assert_eq!(plain.api_version, API_VERSION_1_3);
    assert_eq!(plain.extensions, extensions);
    assert!(plain.layers.is_empty());
    let available = vec!["VK_LAYER_other".to_string(), "VK_LAYER_KHRONOS_validation".to_string()];
    assert!(VkInstance::check_validation_layer_support(&available));
    assert!(!VkInstance::check_validation_layer_support(&vec!["VK_LAYER_other".to_string()]));
    let checked = VkInstance::new(extensions.clone(), &available, true).unwrap();
    assert_eq!(checked.layers, validation_layers());
    assert_eq!(checked.layers, vec!["VK_LAYER_KHRONOS_validation".to_string()]);
    assert!(matches!(
        VkInstance::new(extensions, &vec![], true),
        Err(VkError::ValidationLayersUnsupported)
    ));
}
