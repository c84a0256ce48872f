//! Raw values of the Vulkan enumerants and flag bits that the renderer reads
//! or writes, with the bit test that Vulkan flag types provide. Each value is
//! the one the Vulkan registry assigns to the name in the doc comment.

use vstd::prelude::*;

verus! {

/// `VK_QUEUE_GRAPHICS_BIT`
pub const QUEUE_GRAPHICS: u32 = 0x1;
/// `VK_QUEUE_COMPUTE_BIT`
pub const QUEUE_COMPUTE: u32 = 0x2;
/// `VK_QUEUE_TRANSFER_BIT`
pub const QUEUE_TRANSFER: u32 = 0x4;

/// `VK_SAMPLE_COUNT_1_BIT`
pub const SAMPLE_COUNT_1: u32 = 0x1;
/// `VK_SAMPLE_COUNT_2_BIT`
pub const SAMPLE_COUNT_2: u32 = 0x2;
/// `VK_SAMPLE_COUNT_4_BIT`
pub const SAMPLE_COUNT_4: u32 = 0x4;
/// `VK_SAMPLE_COUNT_8_BIT`
pub const SAMPLE_COUNT_8: u32 = 0x8;
/// `VK_SAMPLE_COUNT_16_BIT`
pub const SAMPLE_COUNT_16: u32 = 0x10;
/// `VK_SAMPLE_COUNT_32_BIT`
pub const SAMPLE_COUNT_32: u32 = 0x20;
/// `VK_SAMPLE_COUNT_64_BIT`
pub const SAMPLE_COUNT_64: u32 = 0x40;

/// `VK_PHYSICAL_DEVICE_TYPE_DISCRETE_GPU`
pub const PHYSICAL_DEVICE_TYPE_DISCRETE_GPU: i32 = 2;

/// `VK_API_VERSION_1_4`, that is `VK_MAKE_API_VERSION(0, 1, 4, 0)`.
pub const API_VERSION_1_4: u32 = 0x0040_4000;

/// `VK_FORMAT_UNDEFINED`
pub const FORMAT_UNDEFINED: i32 = 0;
/// `VK_FORMAT_B8G8R8A8_SRGB`
pub const FORMAT_B8G8R8A8_SRGB: i32 = 50;
/// `VK_FORMAT_R32G32_SFLOAT`
pub const FORMAT_R32G32_SFLOAT: i32 = 103;
/// `VK_FORMAT_R32G32B32_SFLOAT`
pub const FORMAT_R32G32B32_SFLOAT: i32 = 106;
/// `VK_FORMAT_D32_SFLOAT`
pub const FORMAT_D32_SFLOAT: i32 = 126;
/// `VK_FORMAT_D24_UNORM_S8_UINT`
pub const FORMAT_D24_UNORM_S8_UINT: i32 = 129;
/// `VK_FORMAT_D32_SFLOAT_S8_UINT`
pub const FORMAT_D32_SFLOAT_S8_UINT: i32 = 130;

/// `VK_COLOR_SPACE_SRGB_NONLINEAR_KHR`
pub const COLOR_SPACE_SRGB_NONLINEAR: i32 = 0;

/// `VK_PRESENT_MODE_MAILBOX_KHR`
pub const PRESENT_MODE_MAILBOX: i32 = 1;
/// `VK_PRESENT_MODE_FIFO_KHR`
pub const PRESENT_MODE_FIFO: i32 = 2;

/// `VK_IMAGE_TILING_OPTIMAL`
pub const IMAGE_TILING_OPTIMAL: i32 = 0;
/// `VK_IMAGE_TILING_LINEAR`
pub const IMAGE_TILING_LINEAR: i32 = 1;

/// `VK_FORMAT_FEATURE_DEPTH_STENCIL_ATTACHMENT_BIT`
pub const FORMAT_FEATURE_DEPTH_STENCIL_ATTACHMENT: u32 = 0x200;

/// `VK_SURFACE_TRANSFORM_IDENTITY_BIT_KHR`
pub const SURFACE_TRANSFORM_IDENTITY: u32 = 0x1;
/// `VK_COMPOSITE_ALPHA_OPAQUE_BIT_KHR`
pub const COMPOSITE_ALPHA_OPAQUE: u32 = 0x1;
/// `VK_SHARING_MODE_EXCLUSIVE`
pub const SHARING_MODE_EXCLUSIVE: i32 = 0;

/// `VK_IMAGE_USAGE_TRANSFER_SRC_BIT`
pub const IMAGE_USAGE_TRANSFER_SRC: u32 = 0x1;
/// `VK_IMAGE_USAGE_TRANSFER_DST_BIT`
pub const IMAGE_USAGE_TRANSFER_DST: u32 = 0x2;
/// `VK_IMAGE_USAGE_COLOR_ATTACHMENT_BIT`
pub const IMAGE_USAGE_COLOR_ATTACHMENT: u32 = 0x10;
/// `VK_IMAGE_USAGE_DEPTH_STENCIL_ATTACHMENT_BIT`
pub const IMAGE_USAGE_DEPTH_STENCIL_ATTACHMENT: u32 = 0x20;
/// `VK_IMAGE_USAGE_TRANSIENT_ATTACHMENT_BIT`
pub const IMAGE_USAGE_TRANSIENT_ATTACHMENT: u32 = 0x40;

/// `VK_IMAGE_ASPECT_COLOR_BIT`
pub const IMAGE_ASPECT_COLOR: u32 = 0x1;
/// `VK_IMAGE_ASPECT_DEPTH_BIT`
pub const IMAGE_ASPECT_DEPTH: u32 = 0x2;

/// `VK_IMAGE_LAYOUT_UNDEFINED`
pub const IMAGE_LAYOUT_UNDEFINED: i32 = 0;
/// `VK_IMAGE_LAYOUT_GENERAL`
pub const IMAGE_LAYOUT_GENERAL: i32 = 1;
/// `VK_IMAGE_LAYOUT_PRESENT_SRC_KHR`
pub const IMAGE_LAYOUT_PRESENT_SRC: i32 = 1_000_001_002;

/// `VK_ACCESS_2_NONE`
pub const ACCESS_2_NONE: u64 = 0;
/// `VK_ACCESS_2_COLOR_ATTACHMENT_WRITE_BIT`
pub const ACCESS_2_COLOR_ATTACHMENT_WRITE: u64 = 0x100;
/// `VK_ACCESS_2_DEPTH_STENCIL_ATTACHMENT_WRITE_BIT`
pub const ACCESS_2_DEPTH_STENCIL_ATTACHMENT_WRITE: u64 = 0x400;

/// `VK_PIPELINE_STAGE_2_TOP_OF_PIPE_BIT`
pub const PIPELINE_STAGE_2_TOP_OF_PIPE: u64 = 0x1;
/// `VK_PIPELINE_STAGE_2_EARLY_FRAGMENT_TESTS_BIT`
pub const PIPELINE_STAGE_2_EARLY_FRAGMENT_TESTS: u64 = 0x100;
/// `VK_PIPELINE_STAGE_2_LATE_FRAGMENT_TESTS_BIT`
pub const PIPELINE_STAGE_2_LATE_FRAGMENT_TESTS: u64 = 0x200;
/// `VK_PIPELINE_STAGE_2_COLOR_ATTACHMENT_OUTPUT_BIT`
pub const PIPELINE_STAGE_2_COLOR_ATTACHMENT_OUTPUT: u64 = 0x400;

/// `VK_BUFFER_USAGE_TRANSFER_SRC_BIT`
pub const BUFFER_USAGE_TRANSFER_SRC: u32 = 0x1;
/// `VK_BUFFER_USAGE_TRANSFER_DST_BIT`
pub const BUFFER_USAGE_TRANSFER_DST: u32 = 0x2;
/// `VK_BUFFER_USAGE_INDEX_BUFFER_BIT`
pub const BUFFER_USAGE_INDEX_BUFFER: u32 = 0x40;
/// `VK_BUFFER_USAGE_VERTEX_BUFFER_BIT`
pub const BUFFER_USAGE_VERTEX_BUFFER: u32 = 0x80;

/// `VK_DESCRIPTOR_TYPE_COMBINED_IMAGE_SAMPLER`
pub const DESCRIPTOR_TYPE_COMBINED_IMAGE_SAMPLER: i32 = 1;
/// `VK_DESCRIPTOR_TYPE_UNIFORM_BUFFER`
pub const DESCRIPTOR_TYPE_UNIFORM_BUFFER: i32 = 6;

/// `VK_SHADER_STAGE_VERTEX_BIT`
pub const SHADER_STAGE_VERTEX: u32 = 0x1;
/// `VK_SHADER_STAGE_FRAGMENT_BIT`
pub const SHADER_STAGE_FRAGMENT: u32 = 0x10;

/// `VK_COMMAND_POOL_CREATE_RESET_COMMAND_BUFFER_BIT`
pub const COMMAND_POOL_CREATE_RESET_COMMAND_BUFFER: u32 = 0x2;

/// `VK_DYNAMIC_STATE_VIEWPORT`
pub const DYNAMIC_STATE_VIEWPORT: i32 = 0;
/// `VK_DYNAMIC_STATE_SCISSOR`
pub const DYNAMIC_STATE_SCISSOR: i32 = 1;

/// `VK_PRIMITIVE_TOPOLOGY_TRIANGLE_LIST`
pub const PRIMITIVE_TOPOLOGY_TRIANGLE_LIST: i32 = 3;
/// `VK_POLYGON_MODE_FILL`
pub const POLYGON_MODE_FILL: i32 = 0;
/// `VK_CULL_MODE_BACK_BIT`
pub const CULL_MODE_BACK: u32 = 0x2;
/// `VK_FRONT_FACE_CLOCKWISE`
pub const FRONT_FACE_CLOCKWISE: i32 = 1;
/// `VK_COMPARE_OP_LESS`
pub const COMPARE_OP_LESS: i32 = 1;
/// `VK_COLOR_COMPONENT_R_BIT | G | B | A`
pub const COLOR_COMPONENT_RGBA: u32 = 0xF;
/// `VK_COMMAND_BUFFER_LEVEL_PRIMARY`
pub const COMMAND_BUFFER_LEVEL_PRIMARY: i32 = 0;
/// `VK_QUEUE_FAMILY_IGNORED`
pub const QUEUE_FAMILY_IGNORED: u32 = 0xFFFF_FFFF;

/// `VK_VERTEX_INPUT_RATE_VERTEX`
pub const VERTEX_INPUT_RATE_VERTEX: i32 = 0;

/// `VK_STENCIL_OP_KEEP`
pub const STENCIL_OP_KEEP: i32 = 0;
/// `VK_COMPARE_OP_ALWAYS`
pub const COMPARE_OP_ALWAYS: i32 = 7;
/// `VK_BLEND_FACTOR_ZERO`
pub const BLEND_FACTOR_ZERO: i32 = 0;
/// `VK_BLEND_FACTOR_SRC_COLOR`
pub const BLEND_FACTOR_SRC_COLOR: i32 = 2;
/// `VK_BLEND_FACTOR_ONE_MINUS_DST_COLOR`
pub const BLEND_FACTOR_ONE_MINUS_DST_COLOR: i32 = 5;
/// `VK_BLEND_OP_ADD`
pub const BLEND_OP_ADD: i32 = 0;
/// `VK_LOGIC_OP_CLEAR`
pub const LOGIC_OP_CLEAR: i32 = 0;
/// `VK_ATTACHMENT_LOAD_OP_CLEAR`
pub const ATTACHMENT_LOAD_OP_CLEAR: i32 = 1;
/// `VK_ATTACHMENT_STORE_OP_DONT_CARE`
pub const ATTACHMENT_STORE_OP_DONT_CARE: i32 = 1;
/// `VK_RESOLVE_MODE_NONE`
pub const RESOLVE_MODE_NONE: u32 = 0;
/// `VK_RESOLVE_MODE_AVERAGE_BIT`
pub const RESOLVE_MODE_AVERAGE: u32 = 0x2;
/// `VK_INDEX_TYPE_UINT32`
pub const INDEX_TYPE_UINT32: i32 = 1;
/// `VK_PIPELINE_BIND_POINT_GRAPHICS`
pub const PIPELINE_BIND_POINT_GRAPHICS: i32 = 0;
/// `VK_COMMAND_BUFFER_RESET_RELEASE_RESOURCES_BIT`
pub const COMMAND_BUFFER_RESET_RELEASE_RESOURCES: u32 = 0x1;
/// `VK_COMMAND_BUFFER_USAGE_ONE_TIME_SUBMIT_BIT`
pub const COMMAND_BUFFER_USAGE_ONE_TIME_SUBMIT: u32 = 0x1;
/// `VK_VALIDATION_FEATURE_ENABLE_BEST_PRACTICES_EXT`
pub const VALIDATION_FEATURE_ENABLE_BEST_PRACTICES: i32 = 2;
/// `VK_VALIDATION_FEATURE_ENABLE_SYNCHRONIZATION_VALIDATION_EXT`
pub const VALIDATION_FEATURE_ENABLE_SYNCHRONIZATION_VALIDATION: i32 = 4;
/// `VK_INSTANCE_CREATE_ENUMERATE_PORTABILITY_BIT_KHR`
pub const INSTANCE_CREATE_ENUMERATE_PORTABILITY: u32 = 0x1;
/// `VMA_ALLOCATION_CREATE_HOST_ACCESS_SEQUENTIAL_WRITE_BIT` of the memory
/// allocator.
pub const ALLOCATION_CREATE_HOST_ACCESS_SEQUENTIAL_WRITE: u32 = 0x400;

/// `VK_FENCE_CREATE_SIGNALED_BIT`
pub const FENCE_CREATE_SIGNALED: u32 = 0x1;

/// True when every bit of `bits` is set in `flags`.
pub open spec fn has_bits(flags: u32, bits: u32) -> bool {
    flags & bits == bits
}

/// Tests whether every bit of `bits` is set in `flags`, as `contains` does
/// on a Vulkan flag type.
pub fn contains(flags: u32, bits: u32) -> (r: bool)
    ensures
        r == has_bits(flags, bits),
{
    flags & bits == bits
}

} // verus!
