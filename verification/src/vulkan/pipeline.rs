//! Pipeline builder: the fixed-function state and the shader stages of the
//! engine's one graphics pipeline.

use vstd::prelude::*;
use vstd::string::StringExecFns;

use crate::vulkan::command::{ONE_BITS, ZERO_BITS};
use crate::vulkan::descriptor::{SHADER_STAGE_FRAGMENT, SHADER_STAGE_VERTEX};
use crate::vulkan::image::SAMPLE_COUNT_1;
use crate::vulkan::vertex::{
    spec_attribute_description, Vertex, VertexInputAttributeDescription,
    VertexInputBindingDescription, VERTEX_INPUT_RATE_VERTEX, VERTEX_STRIDE,
};

verus! {

/// Numeric code of the topology "triangle list".
pub const PRIMITIVE_TOPOLOGY_TRIANGLE_LIST: i32 = 3;

/// Numeric code of the polygon mode "fill".
pub const POLYGON_MODE_FILL: i32 = 0;

/// Cull mode bit: back faces are culled.
pub const CULL_MODE_BACK: u32 = 0x2;

/// Numeric code of the front face "clockwise".
pub const FRONT_FACE_CLOCKWISE: i32 = 1;

/// Numeric code of the comparison "less".
pub const COMPARE_OP_LESS: i32 = 1;

/// Numeric code of the blend factor "zero".
pub const BLEND_FACTOR_ZERO: i32 = 0;

/// Numeric code of the blend factor "one".
pub const BLEND_FACTOR_ONE: i32 = 1;

/// Numeric code of the blend operation "add".
pub const BLEND_OP_ADD: i32 = 0;

/// Numeric code of the logic operation "copy".
pub const LOGIC_OP_COPY: i32 = 3;

/// Colour component bits: red, green, blue and alpha.
pub const COLOR_COMPONENT_RGBA: u32 = 0xf;

/// Numeric code of the dynamic state "viewport".
pub const DYNAMIC_STATE_VIEWPORT: i32 = 0;

/// Numeric code of the dynamic state "scissor".
pub const DYNAMIC_STATE_SCISSOR: i32 = 1;

/// The engine's graphics pipeline and its layout, by handle.
#[derive(Debug, Clone, Copy, PartialEq, Eq, Structural)]
pub struct VkPipeline {
    /// Handle of the pipeline.
    pub inner: u64,
    /// Handle of the pipeline layout.
    pub layout: u64,
}

/// One programmable stage of the pipeline.
#[derive(Debug, Clone)]
pub struct ShaderStage {
    pub stage: u32,
    /// Handle of the shader module.
    pub module: u64,
    /// Name of the function that the stage starts in.
    pub entry_point: String,
}

/// How primitives are turned into fragments.
#[derive(Debug, Clone, Copy, PartialEq, Eq, Structural)]
pub struct RasterizationState {
    pub depth_clamp_enable: bool,
    pub rasterizer_discard_enable: bool,
    pub polygon_mode: i32,
    pub cull_mode: u32,
    pub front_face: i32,
    pub depth_bias_enable: bool,
    /// Width of lines, as a 32-bit IEEE 754 encoding.
    pub line_width: u32,
}

/// How fragments are tested against the depth buffer.
#[derive(Debug, Clone, Copy, PartialEq, Eq, Structural)]
pub struct DepthStencilState {
    pub depth_test_enable: bool,
    pub depth_write_enable: bool,
    pub depth_compare_op: i32,
    pub depth_bounds_test_enable: bool,
    pub stencil_test_enable: bool,
}

/// How a fragment's colour is combined with what the attachment holds.
#[derive(Debug, Clone, Copy, PartialEq, Eq, Structural)]
pub struct ColorBlendState {
    pub logic_op_enable: bool,
    pub logic_op: i32,
    pub blend_enable: bool,
    pub color_write_mask: u32,
    pub src_color_blend_factor: i32,
    pub dst_color_blend_factor: i32,
    pub color_blend_op: i32,
    pub src_alpha_blend_factor: i32,
    pub dst_alpha_blend_factor: i32,
    pub alpha_blend_op: i32,
    /// The four blend constants, as 32-bit IEEE 754 encodings.
    pub blend_constant: u32,
}

/// The state of the pipeline that is the same for every mesh and every
/// swapchain.
#[derive(Debug, Clone, Copy, PartialEq, Eq, Structural)]
pub struct FixedState {
    pub binding: VertexInputBindingDescription,
    pub topology: i32,
    pub primitive_restart_enable: bool,
    pub viewport_count: u32,
    pub scissor_count: u32,
    pub rasterization: RasterizationState,
    pub rasterization_samples: u32,
    pub sample_shading_enable: bool,
    pub depth_stencil: DepthStencilState,
    pub color_blend: ColorBlendState,
    /// Index of the subpass that the pipeline is used in.
    pub subpass: u32,
}

/// What the engine asks for when it creates its graphics pipeline.
#[derive(Debug, Clone)]
pub struct GraphicsPipelineCreateInfo {
    /// The vertex stage, then the fragment stage.
    pub stages: Vec<ShaderStage>,
    pub attributes: Vec<VertexInputAttributeDescription>,
    pub fixed: FixedState,
    /// The states that are set while commands are recorded.
    pub dynamic_states: Vec<i32>,
    /// Handle of the pipeline layout.
    pub layout: u64,
    /// Handle of the render pass.
    pub render_pass: u64,
}

/// The fixed state: triangle lists of vertices with position, normal and
/// colour; one viewport and one scissor rectangle; filled polygons, back
/// faces culled, front faces clockwise; one sample per pixel; a depth test
/// that lets the nearer fragment pass and writes its depth; colours written
/// over what was there, without blending.
pub open spec fn spec_fixed_state() -> FixedState {
    FixedState {
        binding: VertexInputBindingDescription {
            binding: 0,
            stride: VERTEX_STRIDE,
            input_rate: VERTEX_INPUT_RATE_VERTEX,
        },
        topology: PRIMITIVE_TOPOLOGY_TRIANGLE_LIST,
        primitive_restart_enable: false,
        viewport_count: 1,
        scissor_count: 1,
        rasterization: RasterizationState {
            depth_clamp_enable: false,
            rasterizer_discard_enable: false,
            polygon_mode: POLYGON_MODE_FILL,
            cull_mode: CULL_MODE_BACK,
            front_face: FRONT_FACE_CLOCKWISE,
            depth_bias_enable: false,
            line_width: ONE_BITS,
        },
        rasterization_samples: SAMPLE_COUNT_1,
        sample_shading_enable: false,
        depth_stencil: DepthStencilState {
            depth_test_enable: true,
            depth_write_enable: true,
            depth_compare_op: COMPARE_OP_LESS,
            depth_bounds_test_enable: false,
            stencil_test_enable: false,
        },
        color_blend: ColorBlendState {
            logic_op_enable: false,
            logic_op: LOGIC_OP_COPY,
            blend_enable: false,
            color_write_mask: COLOR_COMPONENT_RGBA,
            src_color_blend_factor: BLEND_FACTOR_ONE,
            dst_color_blend_factor: BLEND_FACTOR_ZERO,
            color_blend_op: BLEND_OP_ADD,
            src_alpha_blend_factor: BLEND_FACTOR_ONE,
            dst_alpha_blend_factor: BLEND_FACTOR_ZERO,
            alpha_blend_op: BLEND_OP_ADD,
            blend_constant: ZERO_BITS,
        },
        subpass: 0,
    }
}

/// The states that are set for each frame, so that a resize needs no new
/// pipeline: viewport and scissor.
pub open spec fn spec_dynamic_states() -> Seq<i32> {
    seq![DYNAMIC_STATE_VIEWPORT, DYNAMIC_STATE_SCISSOR]
}

impl GraphicsPipelineCreateInfo {
    /// Whether this is the pipeline of the engine, built from the given
    /// shader modules, layout and render pass.
    pub open spec fn built_from(
        self,
        vertex_module: u64,
        fragment_module: u64,
        layout: u64,
        render_pass: u64,
    ) -> bool {
        &&& self.stages@.len() == 2
        &&& self.stages@[0].stage == SHADER_STAGE_VERTEX
        &&& self.stages@[0].module == vertex_module
        &&& self.stages@[0].entry_point@ == "main"@
        &&& self.stages@[1].stage == SHADER_STAGE_FRAGMENT
        &&& self.stages@[1].module == fragment_module
        &&& self.stages@[1].entry_point@ == "main"@
        &&& self.attributes@ == spec_attribute_description()
        &&& self.fixed == spec_fixed_state()
        &&& self.dynamic_states@ == spec_dynamic_states()
        &&& self.layout == layout
        &&& self.render_pass == render_pass
    }
}

/// Where the compiled vertex shader is found.
pub fn vertex_shader_path() -> (r: &'static str)
    ensures
        r@ == "shaders/shader.vert.spv"@,
{
    "shaders/shader.vert.spv"
}

/// Where the compiled fragment shader is found.
pub fn fragment_shader_path() -> (r: &'static str)
    ensures
        r@ == "shaders/shader.frag.spv"@,
{
    "shaders/shader.frag.spv"
}

/// The fixed state of the pipeline.
pub fn fixed_state() -> (r: FixedState)
    ensures
        r == spec_fixed_state(),
{
    FixedState {
        binding: Vertex::get_binding_description(),
        topology: PRIMITIVE_TOPOLOGY_TRIANGLE_LIST,
        primitive_restart_enable: false,
        viewport_count: 1,
        scissor_count: 1,
        rasterization: RasterizationState {
            depth_clamp_enable: false,
            rasterizer_discard_enable: false,
            polygon_mode: POLYGON_MODE_FILL,
            cull_mode: CULL_MODE_BACK,
            front_face: FRONT_FACE_CLOCKWISE,
            depth_bias_enable: false,
            line_width: ONE_BITS,
        },
        rasterization_samples: SAMPLE_COUNT_1,
        sample_shading_enable: false,
        depth_stencil: DepthStencilState {
            depth_test_enable: true,
            depth_write_enable: true,
            depth_compare_op: COMPARE_OP_LESS,
            depth_bounds_test_enable: false,
            stencil_test_enable: false,
        },
        color_blend: ColorBlendState {
            logic_op_enable: false,
            logic_op: LOGIC_OP_COPY,
            blend_enable: false,
            color_write_mask: COLOR_COMPONENT_RGBA,
            src_color_blend_factor: BLEND_FACTOR_ONE,
            dst_color_blend_factor: BLEND_FACTOR_ZERO,
            color_blend_op: BLEND_OP_ADD,
            src_alpha_blend_factor: BLEND_FACTOR_ONE,
            dst_alpha_blend_factor: BLEND_FACTOR_ZERO,
            alpha_blend_op: BLEND_OP_ADD,
            blend_constant: ZERO_BITS,
        },
        subpass: 0,
    }
}

impl VkPipeline {
    /// The pipeline to create: a vertex and a fragment stage that start in
    /// `main`, the vertex layout of the mesh, the fixed state, and viewport
    /// and scissor left to be set for each frame.
    pub fn create_info(vertex_module: u64, fragment_module: u64, layout: u64, render_pass: u64) -> (r:
        GraphicsPipelineCreateInfo)
        ensures
            r.built_from(vertex_module, fragment_module, layout, render_pass),
    {
        let mut stages: Vec<ShaderStage> = Vec::new();
        stages.push(
            ShaderStage {
                stage: SHADER_STAGE_VERTEX,
                module: vertex_module,
                entry_point: String::from_str("main"),
            },
        );
        stages.push(
            ShaderStage {
                stage: SHADER_STAGE_FRAGMENT,
                module: fragment_module,
                entry_point: String::from_str("main"),
            },
        );
        let mut dynamic_states: Vec<i32> = Vec::new();
        dynamic_states.push(DYNAMIC_STATE_VIEWPORT);
        dynamic_states.push(DYNAMIC_STATE_SCISSOR);
        assert(dynamic_states@ =~= spec_dynamic_states());
        GraphicsPipelineCreateInfo {
            stages,
            attributes: Vertex::get_attribute_description(),
            fixed: fixed_state(),
            dynamic_states,
            layout,
            render_pass,
        }
    }

    /// The pipeline with the given handles.
    pub fn new(inner: u64, layout: u64) -> (r: VkPipeline)
        ensures
            r == (VkPipeline { inner, layout }),
    {
        VkPipeline { inner, layout }
    }
}

} // verus!
