use ash_triangle::spirv::SPIRV_MAGIC;
use ash_triangle::vk_flags::{
    COLOR_COMPONENT_RGBA, COMPARE_OP_LESS, CULL_MODE_BACK, DYNAMIC_STATE_SCISSOR, DYNAMIC_STATE_VIEWPORT,
    FORMAT_B8G8R8A8_SRGB, FORMAT_D32_SFLOAT, FORMAT_UNDEFINED, FRONT_FACE_CLOCKWISE, POLYGON_MODE_FILL,
    PRIMITIVE_TOPOLOGY_TRIANGLE_LIST, SAMPLE_COUNT_8,
};
use ash_triangle::vk_flags::{
    BLEND_FACTOR_ONE_MINUS_DST_COLOR, BLEND_FACTOR_SRC_COLOR, BLEND_FACTOR_ZERO, BLEND_OP_ADD, COMPARE_OP_ALWAYS,
    FORMAT_R32G32B32_SFLOAT, FORMAT_R32G32_SFLOAT, LOGIC_OP_CLEAR, SHADER_STAGE_FRAGMENT, SHADER_STAGE_VERTEX,
    STENCIL_OP_KEEP, VERTEX_INPUT_RATE_VERTEX,
};
use ash_triangle::vk_init_rndr::{vk_create_graphics_pipeline, BlendPlan, Rect2D, StencilOpPlan};
use ash_triangle::vk_models::{Extent2D, VertexInputAttribute, VertexInputBinding};

const EXTENT: Extent2D = Extent2D { width: 1280, height: 720 };

fn plan(bytes: &[u8]) -> Option<Vec<u32>> {
    vk_create_graphics_pipeline(bytes, &EXTENT, SAMPLE_COUNT_8, FORMAT_B8G8R8A8_SRGB, FORMAT_D32_SFLOAT, 20, 0, 8)
        .map(|p| p.shader_code)
}

#[test]
fn pipeline_reads_little_endian_spirv() {
    let bytes = [0x03, 0x02, 0x23, 0x07, 0x00, 0x00, 0x01, 0x00, 0x0a, 0x0b, 0x0c, 0x0d];
    assert_eq!(plan(&bytes), Some(vec![SPIRV_MAGIC, 0x0001_0000, 0x0d0c_0b0a]));
}

#[test]
fn pipeline_reads_big_endian_spirv() {
    let bytes = [0x07, 0x23, 0x02, 0x03, 0x00, 0x01, 0x00, 0x00, 0x0a, 0x0b, 0x0c, 0x0d];
    assert_eq!(plan(&bytes), Some(vec![SPIRV_MAGIC, 0x0001_0000, 0x0a0b_0c0d]));
}

#[test]
fn pipeline_rejects_non_spirv() {
    assert_eq!(plan(&[]), None);
    assert_eq!(plan(&[0x03, 0x02, 0x23]), None);
    assert_eq!(plan(&[0x03, 0x02, 0x23, 0x07, 0x00]), None);
    assert_eq!(plan(&[0x00, 0x00, 0x00, 0x00]), None);
}

#[test]
fn pipeline_fixed_state() {
    let bytes = [0x03, 0x02, 0x23, 0x07];
    let p = vk_create_graphics_pipeline(&bytes, &EXTENT, SAMPLE_COUNT_8, FORMAT_B8G8R8A8_SRGB, FORMAT_D32_SFLOAT, 20, 0, 8)
        .expect("valid SPIR-V");
    assert_eq!(p.stages.len(), 2);
    assert_eq!((p.stages[0].stage, p.stages[0].entry_point), (SHADER_STAGE_VERTEX, "vertMain"));
    assert_eq!((p.stages[1].stage, p.stages[1].entry_point), (SHADER_STAGE_FRAGMENT, "fragMain"));
    assert_eq!(p.vertex_binding, VertexInputBinding { binding: 0, stride: 20, input_rate: VERTEX_INPUT_RATE_VERTEX });
    assert_eq!(p.vertex_attributes, vec![
        VertexInputAttribute { location: 0, binding: 0, format: FORMAT_R32G32_SFLOAT, offset: 0 },
        VertexInputAttribute { location: 1, binding: 0, format: FORMAT_R32G32B32_SFLOAT, offset: 8 },
    ]);
    let noop = StencilOpPlan { fail_op: STENCIL_OP_KEEP, pass_op: STENCIL_OP_KEEP, depth_fail_op: STENCIL_OP_KEEP, compare_op: COMPARE_OP_ALWAYS };
    assert_eq!((p.stencil_front, p.stencil_back), (noop, noop));
    assert_eq!(p.blend, BlendPlan {
        blend_enable: false,
        src_color_blend_factor: BLEND_FACTOR_SRC_COLOR,
        dst_color_blend_factor: BLEND_FACTOR_ONE_MINUS_DST_COLOR,
        color_blend_op: BLEND_OP_ADD,
        src_alpha_blend_factor: BLEND_FACTOR_ZERO,
        dst_alpha_blend_factor: BLEND_FACTOR_ZERO,
        alpha_blend_op: BLEND_OP_ADD,
        color_write_mask: COLOR_COMPONENT_RGBA,
    });
    assert_eq!(p.logic_op, LOGIC_OP_CLEAR);
    assert_eq!(p.set_layout_count, 1);
    assert_eq!(p.shader_code, vec![SPIRV_MAGIC]);
    assert_eq!(p.scissor, Rect2D { x: 0, y: 0, extent: EXTENT });
    assert_eq!(p.topology, PRIMITIVE_TOPOLOGY_TRIANGLE_LIST);
    assert_eq!(p.polygon_mode, POLYGON_MODE_FILL);
    assert_eq!(p.cull_mode, CULL_MODE_BACK);
    assert_eq!(p.front_face, FRONT_FACE_CLOCKWISE);
    assert_eq!(p.rasterization_samples, SAMPLE_COUNT_8);
    assert!(p.depth_test_enable && p.depth_write_enable);
    assert_eq!(p.depth_compare_op, COMPARE_OP_LESS);
    assert_eq!(p.dynamic_states, vec![DYNAMIC_STATE_VIEWPORT, DYNAMIC_STATE_SCISSOR]);
    assert_eq!(p.color_attachment_format, FORMAT_B8G8R8A8_SRGB);
    assert_eq!(p.depth_attachment_format, FORMAT_D32_SFLOAT);
    assert_eq!(p.stencil_attachment_format, FORMAT_UNDEFINED);
}
