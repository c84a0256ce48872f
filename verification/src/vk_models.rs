//! Plain-value models of what the driver reports about a physical device, a
//! surface and its formats, and of the choices the renderer makes from them.

use vstd::prelude::*;
use crate::vk_flags::{FORMAT_R32G32B32_SFLOAT, FORMAT_R32G32_SFLOAT, VERTEX_INPUT_RATE_VERTEX};

verus! {

/// The queue families chosen for graphics (with presentation), compute and
/// transfer work; `None` where no family offers that kind of work.
#[derive(Debug, Clone, Copy, PartialEq, Eq, Structural)]
pub struct VkQueueFamilyIndices {
    pub graphics_family: Option<u32>,
    pub compute_family: Option<u32>,
    pub transfer_family: Option<u32>,
}

impl Default for VkQueueFamilyIndices {
    fn default() -> (r: Self)
        ensures
            r.graphics_family is None,
            r.compute_family is None,
            r.transfer_family is None,
    {
        VkQueueFamilyIndices { graphics_family: None, compute_family: None, transfer_family: None }
    }
}

/// One queue family of a physical device: its `VkQueueFlags` bits, its
/// number of queues, and whether it can present to the window's surface.
#[derive(Debug, Clone, Copy, PartialEq, Eq, Structural)]
pub struct QueueFamily {
    pub queue_flags: u32,
    pub queue_count: u32,
    pub present_support: bool,
}

/// What the renderer reads of a physical device: properties, the features it
/// requires, the sample counts its framebuffers support, and its queue
/// families in the driver's order.
#[derive(Debug)]
pub struct PhysicalDeviceInfo {
    pub api_version: u32,
    pub device_type: i32,
    pub geometry_shader: bool,
    pub sampler_anisotropy: bool,
    pub shader_draw_parameters: bool,
    pub buffer_device_address: bool,
    pub draw_indirect_count: bool,
    pub synchronization2: bool,
    pub dynamic_rendering: bool,
    pub host_image_copy: bool,
    pub push_descriptor: bool,
    pub unified_image_layouts: bool,
    pub task_shader: bool,
    pub mesh_shader: bool,
    pub framebuffer_color_sample_counts: u32,
    pub framebuffer_depth_sample_counts: u32,
    pub queue_families: Vec<QueueFamily>,
}

/// A `VkSurfaceFormatKHR`: a format and a color space.
#[derive(Debug, Clone, Copy, PartialEq, Eq, Structural)]
pub struct SurfaceFormat {
    pub format: i32,
    pub color_space: i32,
}

/// A `VkExtent2D`.
#[derive(Debug, Clone, Copy, PartialEq, Eq, Structural)]
pub struct Extent2D {
    pub width: u32,
    pub height: u32,
}

/// The parts of `VkSurfaceCapabilitiesKHR` that the renderer reads.
#[derive(Debug, Clone, Copy, PartialEq, Eq, Structural)]
pub struct SurfaceCapabilities {
    pub min_image_count: u32,
    pub max_image_count: u32,
    pub current_extent: Extent2D,
    pub min_image_extent: Extent2D,
    pub max_image_extent: Extent2D,
    pub supported_transforms: u32,
    pub current_transform: u32,
}

/// What a surface supports, together with the present mode chosen for it.
#[derive(Debug)]
pub struct VkSwapchainSupportDetails {
    pub surface_formats: Vec<SurfaceFormat>,
    pub surface_capabilities: SurfaceCapabilities,
    pub present_modes: Vec<i32>,
    pub present_mode: i32,
}

/// A candidate format with the `VkFormatProperties` the device reports for it.
#[derive(Debug, Clone, Copy, PartialEq, Eq, Structural)]
pub struct FormatCandidate {
    pub format: i32,
    pub linear_tiling_features: u32,
    pub optimal_tiling_features: u32,
}

/// A `VkVertexInputBindingDescription`.
#[derive(Debug, Clone, Copy, PartialEq, Eq, Structural)]
pub struct VertexInputBinding {
    pub binding: u32,
    pub stride: u32,
    pub input_rate: i32,
}

/// A `VkVertexInputAttributeDescription`.
#[derive(Debug, Clone, Copy, PartialEq, Eq, Structural)]
pub struct VertexInputAttribute {
    pub location: u32,
    pub binding: u32,
    pub format: i32,
    pub offset: u32,
}

/// The one vertex buffer binding: binding 0, one vertex of `stride` bytes
/// per vertex.
pub fn vertex_binding_description(stride: u32) -> (r: VertexInputBinding)
    ensures
        r == (VertexInputBinding { binding: 0, stride, input_rate: VERTEX_INPUT_RATE_VERTEX }),
{
    VertexInputBinding { binding: 0, stride, input_rate: VERTEX_INPUT_RATE_VERTEX }
}

/// The vertex attributes, both from binding 0: the 2D position (two 32-bit
/// floats) at location 0 and the RGB color (three 32-bit floats) at
/// location 1, at the given offsets within a vertex.
pub open spec fn vertex_attributes(position_offset: u32, color_offset: u32) -> Seq<VertexInputAttribute> {
    seq![
        VertexInputAttribute { location: 0, binding: 0, format: FORMAT_R32G32_SFLOAT, offset: position_offset },
        VertexInputAttribute { location: 1, binding: 0, format: FORMAT_R32G32B32_SFLOAT, offset: color_offset },
    ]
}

/// Describes the vertex attributes (see `vertex_attributes`).
pub fn vertex_attribute_descriptions(position_offset: u32, color_offset: u32) -> (r: Vec<VertexInputAttribute>)
    ensures
        r@ == vertex_attributes(position_offset, color_offset),
{
    let mut v: Vec<VertexInputAttribute> = Vec::new();
    v.push(VertexInputAttribute { location: 0, binding: 0, format: FORMAT_R32G32_SFLOAT, offset: position_offset });
    v.push(VertexInputAttribute { location: 1, binding: 0, format: FORMAT_R32G32B32_SFLOAT, offset: color_offset });
    assert(v@ =~= vertex_attributes(position_offset, color_offset));
    v
}

} // verus!
