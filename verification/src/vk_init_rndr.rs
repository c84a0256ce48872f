//! Choosing the swapchain's format, extent, present mode and image count,
//! and planning the swapchain, its image views, the depth and color targets,
//! the descriptor set layout, the graphics pipeline and the command pool.

use vstd::prelude::*;
use crate::rndr::MAX_FRAMES_IN_FLIGHT;
use crate::spirv::{read_spv_words, spirv_words};
use crate::vk_flags::{
    contains, has_bits, COLOR_SPACE_SRGB_NONLINEAR, COMMAND_POOL_CREATE_RESET_COMMAND_BUFFER,
    COMPOSITE_ALPHA_OPAQUE, DESCRIPTOR_TYPE_COMBINED_IMAGE_SAMPLER, DESCRIPTOR_TYPE_UNIFORM_BUFFER,
    DYNAMIC_STATE_SCISSOR, DYNAMIC_STATE_VIEWPORT, FORMAT_B8G8R8A8_SRGB, FORMAT_D24_UNORM_S8_UINT,
    FORMAT_D32_SFLOAT, FORMAT_D32_SFLOAT_S8_UINT, FORMAT_FEATURE_DEPTH_STENCIL_ATTACHMENT,
    FORMAT_UNDEFINED, IMAGE_LAYOUT_GENERAL, IMAGE_ASPECT_COLOR, IMAGE_ASPECT_DEPTH, IMAGE_TILING_LINEAR,
    IMAGE_TILING_OPTIMAL, IMAGE_USAGE_COLOR_ATTACHMENT, IMAGE_USAGE_DEPTH_STENCIL_ATTACHMENT,
    IMAGE_USAGE_TRANSFER_DST, IMAGE_USAGE_TRANSFER_SRC, IMAGE_USAGE_TRANSIENT_ATTACHMENT,
    PRESENT_MODE_FIFO, PRESENT_MODE_MAILBOX, SHADER_STAGE_FRAGMENT, SHADER_STAGE_VERTEX,
    SHARING_MODE_EXCLUSIVE, SURFACE_TRANSFORM_IDENTITY, COLOR_COMPONENT_RGBA, COMMAND_BUFFER_LEVEL_PRIMARY,
    COMPARE_OP_LESS, CULL_MODE_BACK, FRONT_FACE_CLOCKWISE, POLYGON_MODE_FILL,
    PRIMITIVE_TOPOLOGY_TRIANGLE_LIST, BLEND_FACTOR_ONE_MINUS_DST_COLOR, BLEND_FACTOR_SRC_COLOR,
    BLEND_FACTOR_ZERO, BLEND_OP_ADD, COMPARE_OP_ALWAYS, LOGIC_OP_CLEAR, STENCIL_OP_KEEP,
    VERTEX_INPUT_RATE_VERTEX,
};
use crate::vk_models::{
    vertex_attribute_descriptions, vertex_attributes, vertex_binding_description, Extent2D,
    FormatCandidate, SurfaceCapabilities, SurfaceFormat, VertexInputAttribute, VertexInputBinding,
    VkSwapchainSupportDetails,
};
use crate::vk_utils::{
    initial_target_barriers, vk_create_image, vk_create_image_view, vk_prepare_image_layouts, BarrierPlan,
    ImagePlan, ImageViewPlan,
};

verus! {

// ---------------------------------------------------------------------------
// Swapchain support
// ---------------------------------------------------------------------------

/// The surface format the renderer prefers: 8-bit BGRA sRGB, non-linear.
pub open spec fn preferred_surface_format() -> SurfaceFormat {
    SurfaceFormat { format: FORMAT_B8G8R8A8_SRGB, color_space: COLOR_SPACE_SRGB_NONLINEAR }
}

/// The preferred format when the surface offers it, else its first format.
pub open spec fn chosen_surface_format(formats: Seq<SurfaceFormat>) -> SurfaceFormat {
    if formats.contains(preferred_surface_format()) {
        preferred_surface_format()
    } else {
        formats[0]
    }
}

/// Chooses the surface format (see `chosen_surface_format`).
pub fn vk_choose_swap_surface_format(available_formats: &Vec<SurfaceFormat>) -> (r: SurfaceFormat)
    requires
        available_formats@.len() > 0,
    ensures
        r == chosen_surface_format(available_formats@),
{
    let n = available_formats.len();
    let mut i: usize = 0;
    while i < n
        invariant
            n == available_formats@.len(),
            0 <= i <= n,
            forall|j: int| 0 <= j < i ==> #[trigger] available_formats@[j] != preferred_surface_format(),
        decreases n - i,
    {
        let format = available_formats[i];
        if format.format == FORMAT_B8G8R8A8_SRGB && format.color_space == COLOR_SPACE_SRGB_NONLINEAR {
            proof {
                assert(available_formats@[i as int] == preferred_surface_format());
            }
            return format;
        }
        i += 1;
    }
    available_formats[0]
}

/// `v` brought into `[lo, hi]`, as `Ord::clamp` does.
pub open spec fn clamp_u32(v: u32, lo: u32, hi: u32) -> u32 {
    if v < lo {
        lo
    } else if v > hi {
        hi
    } else {
        v
    }
}

/// The surface's current extent, or, when the surface leaves it to the
/// swapchain (width `u32::MAX`), the window's size clamped into the
/// surface's extent limits.
pub open spec fn chosen_swap_extent(caps: SurfaceCapabilities, window_width: u32, window_height: u32) -> Extent2D {
    if caps.current_extent.width != u32::MAX {
        caps.current_extent
    } else {
        Extent2D {
            width: clamp_u32(window_width, caps.min_image_extent.width, caps.max_image_extent.width),
            height: clamp_u32(window_height, caps.min_image_extent.height, caps.max_image_extent.height),
        }
    }
}

/// The surface's extent limits can be clamped into when the swapchain
/// chooses the extent (`Ord::clamp` panics on a range with `min > max`).
pub open spec fn extent_limits_ordered(caps: SurfaceCapabilities) -> bool {
    caps.current_extent.width == u32::MAX ==> {
        &&& caps.min_image_extent.width <= caps.max_image_extent.width
        &&& caps.min_image_extent.height <= caps.max_image_extent.height
    }
}

/// The chosen surface format is one the surface offers: 8-bit BGRA sRGB
/// with the non-linear sRGB color space exactly when the surface offers that
/// pair, and otherwise the first format it reports.
pub proof fn lemma_surface_format_offered(formats: Seq<SurfaceFormat>)
    requires
        formats.len() > 0,
    ensures
        formats.contains(chosen_surface_format(formats)),
        (chosen_surface_format(formats) == SurfaceFormat {
            format: FORMAT_B8G8R8A8_SRGB,
            color_space: COLOR_SPACE_SRGB_NONLINEAR,
        }) <==> formats.contains(SurfaceFormat { format: FORMAT_B8G8R8A8_SRGB, color_space: COLOR_SPACE_SRGB_NONLINEAR }),
        !formats.contains(SurfaceFormat { format: FORMAT_B8G8R8A8_SRGB, color_space: COLOR_SPACE_SRGB_NONLINEAR })
            ==> chosen_surface_format(formats) == formats[0],
{
    assert(formats.contains(formats[0]));
}

/// Brings `v` into `[lo, hi]`, as `Ord::clamp` does for `lo <= hi`.
fn clamp(v: u32, lo: u32, hi: u32) -> (r: u32)
    requires
        lo <= hi,
    ensures
        r == clamp_u32(v, lo, hi),
{
    if v < lo {
        lo
    } else if v > hi {
        hi
    } else {
        v
    }
}

/// Chooses the swapchain extent (see `chosen_swap_extent`).
pub fn vk_choose_swap_extent(caps: &SurfaceCapabilities, window_width: u32, window_height: u32) -> (r: Extent2D)
    requires
        extent_limits_ordered(*caps),
    ensures
        r == chosen_swap_extent(*caps, window_width, window_height),
{
    if caps.current_extent.width != u32::MAX {
        caps.current_extent
    } else {
        let min = caps.min_image_extent;
        let max = caps.max_image_extent;
        Extent2D {
            width: clamp(window_width, min.width, max.width),
            height: clamp(window_height, min.height, max.height),
        }
    }
}

/// The extent is the surface's current extent whenever the surface fixes
/// one; otherwise each side is the window's, when the window's lies within
/// the surface's limits, and the nearest limit when it does not.
pub proof fn lemma_swap_extent_follows_window(caps: SurfaceCapabilities, window_width: u32, window_height: u32)
    requires
        extent_limits_ordered(caps),
    ensures
        ({
            let e = chosen_swap_extent(caps, window_width, window_height);
            let lo = caps.min_image_extent;
            let hi = caps.max_image_extent;
            &&& caps.current_extent.width != u32::MAX ==> e == caps.current_extent
            &&& caps.current_extent.width == u32::MAX ==> {
                &&& lo.width <= window_width <= hi.width ==> e.width == window_width
                &&& lo.height <= window_height <= hi.height ==> e.height == window_height
                &&& window_width < lo.width ==> e.width == lo.width
                &&& window_width > hi.width ==> e.width == hi.width
                &&& window_height < lo.height ==> e.height == lo.height
                &&& window_height > hi.height ==> e.height == hi.height
            }
        }),
{
}

/// Mailbox when the surface supports it, else FIFO.
pub open spec fn chosen_present_mode(modes: Seq<i32>) -> i32 {
    if modes.contains(PRESENT_MODE_MAILBOX) {
        PRESENT_MODE_MAILBOX
    } else {
        PRESENT_MODE_FIFO
    }
}

/// Chooses the present mode (see `chosen_present_mode`).
pub fn vk_choose_present_mode(present_modes: &Vec<i32>) -> (r: i32)
    ensures
        r == chosen_present_mode(present_modes@),
        r == PRESENT_MODE_MAILBOX || r == PRESENT_MODE_FIFO,
        r == PRESENT_MODE_MAILBOX <==> present_modes@.contains(PRESENT_MODE_MAILBOX),
{
    let n = present_modes.len();
    let mut i: usize = 0;
    while i < n
        invariant
            n == present_modes@.len(),
            0 <= i <= n,
            forall|j: int| 0 <= j < i ==> #[trigger] present_modes@[j] != PRESENT_MODE_MAILBOX,
        decreases n - i,
    {
        if present_modes[i] == PRESENT_MODE_MAILBOX {
            proof {
                assert(present_modes@[i as int] == PRESENT_MODE_MAILBOX);
            }
            return PRESENT_MODE_MAILBOX;
        }
        i += 1;
    }
    PRESENT_MODE_FIFO
}

/// The present mode is always mailbox or FIFO, and nothing else, whatever
/// other modes the surface offers: mailbox exactly when the surface offers
/// it, FIFO (which every surface supports) otherwise.
pub proof fn lemma_present_mode_mailbox_or_fifo(modes: Seq<i32>)
    ensures
        chosen_present_mode(modes) == PRESENT_MODE_MAILBOX || chosen_present_mode(modes) == PRESENT_MODE_FIFO,
        chosen_present_mode(modes) == PRESENT_MODE_MAILBOX <==> modes.contains(PRESENT_MODE_MAILBOX),
        chosen_present_mode(modes) == PRESENT_MODE_FIFO <==> !modes.contains(PRESENT_MODE_MAILBOX),
{
}

/// One image more than the surface's minimum, but no more than its maximum
/// when it has one (a maximum of 0 means no limit).
pub open spec fn chosen_image_count(caps: SurfaceCapabilities) -> u32 {
    if caps.max_image_count > 0 && caps.min_image_count + 1 > caps.max_image_count {
        caps.max_image_count
    } else {
        (caps.min_image_count + 1) as u32
    }
}

/// Chooses the number of swapchain images (see `chosen_image_count`).
pub fn vk_choose_image_count(caps: &SurfaceCapabilities) -> (r: u32)
    requires
        caps.min_image_count < u32::MAX,
    ensures
        r == chosen_image_count(*caps),
{
    let mut image_count = caps.min_image_count + 1;
    if caps.max_image_count > 0 && image_count > caps.max_image_count {
        image_count = caps.max_image_count;
    }
    image_count
}

/// The swapchain asks for one image more than the surface's minimum,
/// unless the surface's maximum (when it has one) is lower: then for the
/// maximum. It never asks for more than one image over the minimum.
pub proof fn lemma_image_count_one_over_minimum(caps: SurfaceCapabilities)
    requires
        caps.min_image_count < u32::MAX,
    ensures
        chosen_image_count(caps) <= caps.min_image_count + 1,
        (caps.max_image_count == 0 || caps.min_image_count < caps.max_image_count) ==> chosen_image_count(caps)
            == caps.min_image_count + 1,
        (caps.max_image_count > 0 && caps.max_image_count <= caps.min_image_count) ==> chosen_image_count(caps)
            == caps.max_image_count,
{
}

/// With limits that Vulkan guarantees (a minimum of at least one image, and
/// a maximum of 0 or at least the minimum), the chosen image count lies
/// within the limits, and so do the chosen extent's sides.
pub proof fn lemma_swapchain_choice_within_limits(caps: SurfaceCapabilities, window_width: u32, window_height: u32)
    requires
        caps.min_image_count >= 1,
        caps.min_image_count < u32::MAX,
        caps.max_image_count == 0 || caps.min_image_count <= caps.max_image_count,
        extent_limits_ordered(caps),
        caps.current_extent.width == u32::MAX,
    ensures
        chosen_image_count(caps) >= caps.min_image_count,
        caps.max_image_count > 0 ==> chosen_image_count(caps) <= caps.max_image_count,
        caps.min_image_extent.width <= chosen_swap_extent(caps, window_width, window_height).width
            <= caps.max_image_extent.width,
        caps.min_image_extent.height <= chosen_swap_extent(caps, window_width, window_height).height
            <= caps.max_image_extent.height,
{
}

/// From what the surface reports (its formats, capabilities and present
/// modes) and the window's size: the support details with the chosen present
/// mode, the chosen surface format, extent and image count.
pub fn vk_query_swapchain_support(
    surface_formats: Vec<SurfaceFormat>,
    surface_capabilities: SurfaceCapabilities,
    present_modes: Vec<i32>,
    window_width: u32,
    window_height: u32,
) -> (r: (VkSwapchainSupportDetails, SurfaceFormat, Extent2D, u32))
    requires
        surface_formats@.len() > 0,
        extent_limits_ordered(surface_capabilities),
        surface_capabilities.min_image_count < u32::MAX,
    ensures
        r.0.surface_formats@ == surface_formats@,
        r.0.surface_capabilities == surface_capabilities,
        r.0.present_modes@ == present_modes@,
        r.0.present_mode == chosen_present_mode(present_modes@),
        r.1 == chosen_surface_format(surface_formats@),
        r.2 == chosen_swap_extent(surface_capabilities, window_width, window_height),
        r.3 == chosen_image_count(surface_capabilities),
{
    let surface_format = vk_choose_swap_surface_format(&surface_formats);
    let surface_extent = vk_choose_swap_extent(&surface_capabilities, window_width, window_height);
    let present_mode = vk_choose_present_mode(&present_modes);
    let image_count = vk_choose_image_count(&surface_capabilities);
    (
        VkSwapchainSupportDetails { surface_formats, surface_capabilities, present_modes, present_mode },
        surface_format,
        surface_extent,
        image_count,
    )
}

// ---------------------------------------------------------------------------
// Swapchain
// ---------------------------------------------------------------------------

/// The parameters of `VkSwapchainCreateInfoKHR` (all but the surface and the
/// old swapchain, which are handles).
#[derive(Debug, Clone, Copy, PartialEq, Eq, Structural)]
pub struct SwapchainPlan {
    pub min_image_count: u32,
    pub image_format: i32,
    pub image_color_space: i32,
    pub image_extent: Extent2D,
    pub image_array_layers: u32,
    pub image_usage: u32,
    pub image_sharing_mode: i32,
    pub pre_transform: u32,
    pub composite_alpha: u32,
    pub present_mode: i32,
    pub clipped: bool,
}

/// The identity transform when the surface supports it, else the surface's
/// current transform.
pub open spec fn chosen_pre_transform(caps: SurfaceCapabilities) -> u32 {
    if has_bits(caps.supported_transforms, SURFACE_TRANSFORM_IDENTITY) {
        SURFACE_TRANSFORM_IDENTITY
    } else {
        caps.current_transform
    }
}

/// The swapchain for these capabilities, present mode, format, extent and
/// number of images (see `vk_create_swap_chain`).
pub open spec fn planned_swapchain(
    caps: SurfaceCapabilities,
    present_mode: i32,
    surface_format: SurfaceFormat,
    extent: Extent2D,
    min_image_count: u32,
) -> SwapchainPlan {
    SwapchainPlan {
        min_image_count,
        image_format: surface_format.format,
        image_color_space: surface_format.color_space,
        image_extent: extent,
        image_array_layers: 1,
        image_usage: IMAGE_USAGE_COLOR_ATTACHMENT | IMAGE_USAGE_TRANSFER_DST | IMAGE_USAGE_TRANSFER_SRC,
        image_sharing_mode: SHARING_MODE_EXCLUSIVE,
        pre_transform: chosen_pre_transform(caps),
        composite_alpha: COMPOSITE_ALPHA_OPAQUE,
        present_mode,
        clipped: true,
    }
}

/// Plans the swapchain: the chosen format, extent, image count and present
/// mode; images used as color attachments and transfer source and
/// destination, exclusive to one queue family, one layer; the chosen
/// pre-transform, opaque composition, clipped.
pub fn vk_create_swap_chain(
    swapchain_support_details: &VkSwapchainSupportDetails,
    surface_format: &SurfaceFormat,
    surface_extent: &Extent2D,
    min_image_count: u32,
) -> (r: SwapchainPlan)
    ensures
        r == planned_swapchain(
            swapchain_support_details.surface_capabilities,
            swapchain_support_details.present_mode,
            *surface_format,
            *surface_extent,
            min_image_count,
        ),
{
    let caps = &swapchain_support_details.surface_capabilities;
    let pre_transform = if contains(caps.supported_transforms, SURFACE_TRANSFORM_IDENTITY) {
        SURFACE_TRANSFORM_IDENTITY
    } else {
        caps.current_transform
    };
    SwapchainPlan {
        min_image_count,
        image_format: surface_format.format,
        image_color_space: surface_format.color_space,
        image_extent: *surface_extent,
        image_array_layers: 1,
        image_usage: IMAGE_USAGE_COLOR_ATTACHMENT | IMAGE_USAGE_TRANSFER_DST | IMAGE_USAGE_TRANSFER_SRC,
        image_sharing_mode: SHARING_MODE_EXCLUSIVE,
        pre_transform,
        composite_alpha: COMPOSITE_ALPHA_OPAQUE,
        present_mode: swapchain_support_details.present_mode,
        clipped: true,
    }
}

/// The planned swapchain carries the choices it was given (image count,
/// format and color space, extent, present mode); its images can be
/// rendered to and resolved into (color attachment) and copied from and to,
/// have one layer and belong to one queue family at a time; it uses the
/// identity transform exactly when the surface supports it, and the
/// surface's current transform otherwise; it is opaque and clipped.
pub proof fn lemma_swapchain_plan_follows_choices(
    caps: SurfaceCapabilities,
    present_mode: i32,
    surface_format: SurfaceFormat,
    extent: Extent2D,
    min_image_count: u32,
)
    ensures
        ({
            let sc = planned_swapchain(caps, present_mode, surface_format, extent, min_image_count);
            &&& sc.min_image_count == min_image_count
            &&& sc.image_format == surface_format.format
            &&& sc.image_color_space == surface_format.color_space
            &&& sc.image_extent == extent
            &&& sc.present_mode == present_mode
            &&& has_bits(sc.image_usage, IMAGE_USAGE_COLOR_ATTACHMENT)
            &&& has_bits(sc.image_usage, IMAGE_USAGE_TRANSFER_SRC)
            &&& has_bits(sc.image_usage, IMAGE_USAGE_TRANSFER_DST)
            &&& sc.image_array_layers == 1
            &&& sc.image_sharing_mode == SHARING_MODE_EXCLUSIVE
            &&& has_bits(caps.supported_transforms, SURFACE_TRANSFORM_IDENTITY) ==> sc.pre_transform
                == SURFACE_TRANSFORM_IDENTITY
            &&& !has_bits(caps.supported_transforms, SURFACE_TRANSFORM_IDENTITY) ==> sc.pre_transform
                == caps.current_transform
            &&& sc.composite_alpha == COMPOSITE_ALPHA_OPAQUE
            &&& sc.clipped
        }),
{
    let u = IMAGE_USAGE_COLOR_ATTACHMENT | IMAGE_USAGE_TRANSFER_DST | IMAGE_USAGE_TRANSFER_SRC;
    assert(u & IMAGE_USAGE_COLOR_ATTACHMENT == IMAGE_USAGE_COLOR_ATTACHMENT) by (bit_vector)
        requires u == IMAGE_USAGE_COLOR_ATTACHMENT | IMAGE_USAGE_TRANSFER_DST | IMAGE_USAGE_TRANSFER_SRC;
    assert(u & IMAGE_USAGE_TRANSFER_SRC == IMAGE_USAGE_TRANSFER_SRC) by (bit_vector)
        requires u == IMAGE_USAGE_COLOR_ATTACHMENT | IMAGE_USAGE_TRANSFER_DST | IMAGE_USAGE_TRANSFER_SRC;
    assert(u & IMAGE_USAGE_TRANSFER_DST == IMAGE_USAGE_TRANSFER_DST) by (bit_vector)
        requires u == IMAGE_USAGE_COLOR_ATTACHMENT | IMAGE_USAGE_TRANSFER_DST | IMAGE_USAGE_TRANSFER_SRC;
}

/// The view of a swapchain image in the given surface format.
pub open spec fn swapchain_image_view(f: SurfaceFormat) -> ImageViewPlan {
    ImageViewPlan {
        format: f.format,
        aspect_mask: IMAGE_ASPECT_COLOR,
        base_mip_level: 0,
        level_count: 1,
        base_array_layer: 0,
        layer_count: 1,
        explicit_rgba_swizzle: true,
    }
}

/// The view planned for the swapchain's images shows each image whole: in
/// the swapchain's image format, through the color aspect, from its first
/// mip level and layer, over its one level and all of its layers, with each
/// component mapped to itself.
pub proof fn lemma_swapchain_view_covers_image(
    caps: SurfaceCapabilities,
    present_mode: i32,
    surface_format: SurfaceFormat,
    extent: Extent2D,
    min_image_count: u32,
)
    ensures
        ({
            let sc = planned_swapchain(caps, present_mode, surface_format, extent, min_image_count);
            let v = swapchain_image_view(surface_format);
            &&& v.format == sc.image_format
            &&& v.format == surface_format.format
            &&& v.aspect_mask == IMAGE_ASPECT_COLOR
            &&& v.base_mip_level == 0 && v.level_count == 1
            &&& v.base_array_layer == 0 && v.layer_count == sc.image_array_layers
            &&& v.layer_count == 1
            &&& v.explicit_rgba_swizzle
        }),
{
}

/// Plans the view of every swapchain image: a 2D color view in the surface
/// format, with the components mapped to themselves, one mip level and one
/// layer.
pub fn vk_create_swap_chain_image_views(swapchain_surface_format: SurfaceFormat) -> (r: ImageViewPlan)
    ensures
        r == swapchain_image_view(swapchain_surface_format),
{
    ImageViewPlan {
        format: swapchain_surface_format.format,
        aspect_mask: IMAGE_ASPECT_COLOR,
        base_mip_level: 0,
        level_count: 1,
        base_array_layer: 0,
        layer_count: 1,
        explicit_rgba_swizzle: true,
    }
}

// ---------------------------------------------------------------------------
// Descriptor set layout
// ---------------------------------------------------------------------------

/// One `VkDescriptorSetLayoutBinding`.
#[derive(Debug, Clone, Copy, PartialEq, Eq, Structural)]
pub struct DescriptorBinding {
    pub binding: u32,
    pub descriptor_type: i32,
    pub descriptor_count: u32,
    pub stage_flags: u32,
}

/// The bindings of the descriptor set layout: a uniform buffer for the
/// vertex stage at binding 0 and a combined image sampler for the fragment
/// stage at binding 1.
pub open spec fn descriptor_set_layout_bindings() -> Seq<DescriptorBinding> {
    seq![
        DescriptorBinding {
            binding: 0,
            descriptor_type: DESCRIPTOR_TYPE_UNIFORM_BUFFER,
            descriptor_count: 1,
            stage_flags: SHADER_STAGE_VERTEX,
        },
        DescriptorBinding {
            binding: 1,
            descriptor_type: DESCRIPTOR_TYPE_COMBINED_IMAGE_SAMPLER,
            descriptor_count: 1,
            stage_flags: SHADER_STAGE_FRAGMENT,
        },
    ]
}

/// The descriptor set layout numbers its bindings in order from 0, gives
/// each one descriptor, and shows the uniform buffer to the vertex stage and
/// the image sampler to the fragment stage.
pub proof fn lemma_descriptor_bindings_numbered(i: int)
    ensures
        descriptor_set_layout_bindings().len() == 2,
        0 <= i < descriptor_set_layout_bindings().len() ==> {
            &&& descriptor_set_layout_bindings()[i].binding == i
            &&& descriptor_set_layout_bindings()[i].descriptor_count == 1
        },
        descriptor_set_layout_bindings()[0].descriptor_type == DESCRIPTOR_TYPE_UNIFORM_BUFFER,
        descriptor_set_layout_bindings()[0].stage_flags == SHADER_STAGE_VERTEX,
        descriptor_set_layout_bindings()[1].descriptor_type == DESCRIPTOR_TYPE_COMBINED_IMAGE_SAMPLER,
        descriptor_set_layout_bindings()[1].stage_flags == SHADER_STAGE_FRAGMENT,
{
}

/// Plans the bindings of the descriptor set layout (see
/// `descriptor_set_layout_bindings`).
pub fn vk_create_descriptor_set_layout() -> (r: Vec<DescriptorBinding>)
    ensures
        r@ == descriptor_set_layout_bindings(),
{
    let mut bindings: Vec<DescriptorBinding> = Vec::new();
    bindings.push(
        DescriptorBinding {
            binding: 0,
            descriptor_type: DESCRIPTOR_TYPE_UNIFORM_BUFFER,
            descriptor_count: 1,
            stage_flags: SHADER_STAGE_VERTEX,
        },
    );
    bindings.push(
        DescriptorBinding {
            binding: 1,
            descriptor_type: DESCRIPTOR_TYPE_COMBINED_IMAGE_SAMPLER,
            descriptor_count: 1,
            stage_flags: SHADER_STAGE_FRAGMENT,
        },
    );
    bindings
}


// ---------------------------------------------------------------------------
// Graphics pipeline
// ---------------------------------------------------------------------------

/// A `VkRect2D`.
#[derive(Debug, Clone, Copy, PartialEq, Eq, Structural)]
pub struct Rect2D {
    pub x: i32,
    pub y: i32,
    pub extent: Extent2D,
}

/// One shader stage of the pipeline: its stage bit and the name of its entry
/// point in the shader module.
#[derive(Debug, Clone, Copy)]
pub struct ShaderStagePlan {
    pub stage: u32,
    pub entry_point: &'static str,
}

/// The stencil operations of one face (`VkStencilOpState`, without masks).
#[derive(Debug, Clone, Copy, PartialEq, Eq, Structural)]
pub struct StencilOpPlan {
    pub fail_op: i32,
    pub pass_op: i32,
    pub depth_fail_op: i32,
    pub compare_op: i32,
}

/// The color blend state of the one color attachment.
#[derive(Debug, Clone, Copy, PartialEq, Eq, Structural)]
pub struct BlendPlan {
    pub blend_enable: bool,
    pub src_color_blend_factor: i32,
    pub dst_color_blend_factor: i32,
    pub color_blend_op: i32,
    pub src_alpha_blend_factor: i32,
    pub dst_alpha_blend_factor: i32,
    pub alpha_blend_op: i32,
    pub color_write_mask: u32,
}

/// The integer parameters of the graphics pipeline: its shader code and
/// stages, its vertex input, its scissor, fixed-function state, dynamic
/// states, number of descriptor set layouts and attachment formats. The
/// viewport, line width and depth bounds, which are floats, are not part of
/// it.
#[derive(Debug)]
pub struct GraphicsPipelinePlan {
    pub shader_code: Vec<u32>,
    pub stages: Vec<ShaderStagePlan>,
    pub vertex_binding: VertexInputBinding,
    pub vertex_attributes: Vec<VertexInputAttribute>,
    pub scissor: Rect2D,
    pub topology: i32,
    pub polygon_mode: i32,
    pub cull_mode: u32,
    pub front_face: i32,
    pub rasterization_samples: u32,
    pub depth_test_enable: bool,
    pub depth_write_enable: bool,
    pub depth_compare_op: i32,
    pub stencil_front: StencilOpPlan,
    pub stencil_back: StencilOpPlan,
    pub blend: BlendPlan,
    pub logic_op: i32,
    pub dynamic_states: Vec<i32>,
    pub set_layout_count: u32,
    pub color_attachment_format: i32,
    pub depth_attachment_format: i32,
    pub stencil_attachment_format: i32,
}

/// Stencil operations that keep the stencil and always pass.
pub open spec fn noop_stencil() -> StencilOpPlan {
    StencilOpPlan {
        fail_op: STENCIL_OP_KEEP,
        pass_op: STENCIL_OP_KEEP,
        depth_fail_op: STENCIL_OP_KEEP,
        compare_op: COMPARE_OP_ALWAYS,
    }
}

/// Blending off (with the factors and operations that are then ignored),
/// writing all four components.
pub open spec fn color_blend() -> BlendPlan {
    BlendPlan {
        blend_enable: false,
        src_color_blend_factor: BLEND_FACTOR_SRC_COLOR,
        dst_color_blend_factor: BLEND_FACTOR_ONE_MINUS_DST_COLOR,
        color_blend_op: BLEND_OP_ADD,
        src_alpha_blend_factor: BLEND_FACTOR_ZERO,
        dst_alpha_blend_factor: BLEND_FACTOR_ZERO,
        alpha_blend_op: BLEND_OP_ADD,
        color_write_mask: COLOR_COMPONENT_RGBA,
    }
}

/// `p` is the pipeline for this extent, sample count, attachment formats and
/// vertex layout, with `code` as its shader code: a vertex stage entered at
/// `vertMain` and a fragment stage entered at `fragMain`, triangle lists,
/// filled back-face-culled clockwise triangles, depth test and write with
/// "less", no-op stencil, no blending, viewport and scissor set dynamically,
/// one descriptor set layout, no stencil attachment.
pub open spec fn is_pipeline_plan(
    p: GraphicsPipelinePlan,
    code: Seq<u32>,
    extent: Extent2D,
    msaa_samples: u32,
    color_format: i32,
    depth_format: i32,
    vertex_stride: u32,
    position_offset: u32,
    color_offset: u32,
) -> bool {
    &&& p.shader_code@ == code
    &&& p.stages@.len() == 2
    &&& p.stages@[0].stage == SHADER_STAGE_VERTEX
    &&& p.stages@[0].entry_point@ == "vertMain"@
    &&& p.stages@[1].stage == SHADER_STAGE_FRAGMENT
    &&& p.stages@[1].entry_point@ == "fragMain"@
    &&& p.vertex_binding == (VertexInputBinding {
        binding: 0,
        stride: vertex_stride,
        input_rate: VERTEX_INPUT_RATE_VERTEX,
    })
    &&& p.vertex_attributes@ == vertex_attributes(position_offset, color_offset)
    &&& p.scissor == Rect2D { x: 0, y: 0, extent }
    &&& p.topology == PRIMITIVE_TOPOLOGY_TRIANGLE_LIST
    &&& p.polygon_mode == POLYGON_MODE_FILL
    &&& p.cull_mode == CULL_MODE_BACK
    &&& p.front_face == FRONT_FACE_CLOCKWISE
    &&& p.rasterization_samples == msaa_samples
    &&& p.depth_test_enable
    &&& p.depth_write_enable
    &&& p.depth_compare_op == COMPARE_OP_LESS
    &&& p.stencil_front == noop_stencil()
    &&& p.stencil_back == noop_stencil()
    &&& p.blend == color_blend()
    &&& p.logic_op == LOGIC_OP_CLEAR
    &&& p.dynamic_states@ == seq![DYNAMIC_STATE_VIEWPORT, DYNAMIC_STATE_SCISSOR]
    &&& p.set_layout_count == 1
    &&& p.color_attachment_format == color_format
    &&& p.depth_attachment_format == depth_format
    &&& p.stencil_attachment_format == FORMAT_UNDEFINED
}

/// The pipeline fits the frames drawn with it: its scissor is the render
/// area of every frame over the same extent; viewport and scissor are among
/// its dynamic states, so a frame may set them; both vertex attributes are
/// read from the pipeline's one vertex binding, at distinct locations, one
/// vertex at a time; the depth test keeps the nearer fragment and records
/// it; and the vertex stage comes before the fragment stage.
pub proof fn lemma_pipeline_fits_frame(
    p: GraphicsPipelinePlan,
    code: Seq<u32>,
    extent: Extent2D,
    msaa_samples: u32,
    color_format: i32,
    depth_format: i32,
    vertex_stride: u32,
    position_offset: u32,
    color_offset: u32,
    index_count: u32,
)
    requires
        is_pipeline_plan(
            p,
            code,
            extent,
            msaa_samples,
            color_format,
            depth_format,
            vertex_stride,
            position_offset,
            color_offset,
        ),
    ensures
        crate::vk_utils::record_plan(extent, index_count).render_area == p.scissor,
        p.dynamic_states@.contains(DYNAMIC_STATE_VIEWPORT),
        p.dynamic_states@.contains(DYNAMIC_STATE_SCISSOR),
        p.vertex_binding.stride == vertex_stride,
        p.vertex_binding.input_rate == VERTEX_INPUT_RATE_VERTEX,
        forall|i: int| 0 <= i < p.vertex_attributes@.len() ==> #[trigger] p.vertex_attributes@[i].binding
            == p.vertex_binding.binding,
        p.vertex_attributes@.len() == 2,
        p.vertex_attributes@[0].location != p.vertex_attributes@[1].location,
        p.vertex_attributes@[0].offset == position_offset,
        p.vertex_attributes@[1].offset == color_offset,
        p.depth_test_enable && p.depth_write_enable && p.depth_compare_op == COMPARE_OP_LESS,
        p.stages@[0].stage == SHADER_STAGE_VERTEX && p.stages@[1].stage == SHADER_STAGE_FRAGMENT,
{
    assert(p.dynamic_states@[0] == DYNAMIC_STATE_VIEWPORT);
    assert(p.dynamic_states@[1] == DYNAMIC_STATE_SCISSOR);
}

/// Plans the graphics pipeline from the bytes of the shader file and the
/// layout of a vertex (its size and the offsets of its position and color);
/// `None` when the bytes are not SPIR-V (see `spirv_words`).
pub fn vk_create_graphics_pipeline(
    shader_bytes: &[u8],
    swapchain_surface_extent: &Extent2D,
    msaa_samples: u32,
    color_format: i32,
    depth_format: i32,
    vertex_stride: u32,
    position_offset: u32,
    color_offset: u32,
) -> (r: Option<GraphicsPipelinePlan>)
    ensures
        r is Some <==> spirv_words(shader_bytes@) is Some,
        r is Some ==> is_pipeline_plan(
            r->0,
            spirv_words(shader_bytes@)->0,
            *swapchain_surface_extent,
            msaa_samples,
            color_format,
            depth_format,
            vertex_stride,
            position_offset,
            color_offset,
        ),
{
    let shader_code = match read_spv_words(shader_bytes) {
        Some(code) => code,
        None => return None,
    };
    let mut stages: Vec<ShaderStagePlan> = Vec::new();
    stages.push(ShaderStagePlan { stage: SHADER_STAGE_VERTEX, entry_point: "vertMain" });
    stages.push(ShaderStagePlan { stage: SHADER_STAGE_FRAGMENT, entry_point: "fragMain" });
    let mut dynamic_states: Vec<i32> = Vec::new();
    dynamic_states.push(DYNAMIC_STATE_VIEWPORT);
    dynamic_states.push(DYNAMIC_STATE_SCISSOR);
    assert(dynamic_states@ =~= seq![DYNAMIC_STATE_VIEWPORT, DYNAMIC_STATE_SCISSOR]);
    let noop_stencil_state = StencilOpPlan {
        fail_op: STENCIL_OP_KEEP,
        pass_op: STENCIL_OP_KEEP,
        depth_fail_op: STENCIL_OP_KEEP,
        compare_op: COMPARE_OP_ALWAYS,
    };
    Some(
        GraphicsPipelinePlan {
            shader_code,
            stages,
            vertex_binding: vertex_binding_description(vertex_stride),
            vertex_attributes: vertex_attribute_descriptions(position_offset, color_offset),
            scissor: Rect2D { x: 0, y: 0, extent: *swapchain_surface_extent },
            topology: PRIMITIVE_TOPOLOGY_TRIANGLE_LIST,
            polygon_mode: POLYGON_MODE_FILL,
            cull_mode: CULL_MODE_BACK,
            front_face: FRONT_FACE_CLOCKWISE,
            rasterization_samples: msaa_samples,
            depth_test_enable: true,
            depth_write_enable: true,
            depth_compare_op: COMPARE_OP_LESS,
            stencil_front: noop_stencil_state,
            stencil_back: noop_stencil_state,
            blend: BlendPlan {
                blend_enable: false,
                src_color_blend_factor: BLEND_FACTOR_SRC_COLOR,
                dst_color_blend_factor: BLEND_FACTOR_ONE_MINUS_DST_COLOR,
                color_blend_op: BLEND_OP_ADD,
                src_alpha_blend_factor: BLEND_FACTOR_ZERO,
                dst_alpha_blend_factor: BLEND_FACTOR_ZERO,
                alpha_blend_op: BLEND_OP_ADD,
                color_write_mask: COLOR_COMPONENT_RGBA,
            },
            logic_op: LOGIC_OP_CLEAR,
            dynamic_states,
            set_layout_count: 1,
            color_attachment_format: color_format,
            depth_attachment_format: depth_format,
            stencil_attachment_format: FORMAT_UNDEFINED,
        },
    )
}

// ---------------------------------------------------------------------------
// Formats
// ---------------------------------------------------------------------------

/// The candidate supports `features` with the given tiling.
pub open spec fn format_supports(c: FormatCandidate, tiling: i32, features: u32) -> bool {
    (tiling == IMAGE_TILING_LINEAR && has_bits(c.linear_tiling_features, features)) || (tiling
        == IMAGE_TILING_OPTIMAL && has_bits(c.optimal_tiling_features, features))
}

/// Some candidate supports `features` with the tiling.
pub open spec fn some_format_supported(candidates: Seq<FormatCandidate>, tiling: i32, features: u32) -> bool {
    exists|i: int| 0 <= i < candidates.len() && format_supports(#[trigger] candidates[i], tiling, features)
}

/// `f` is the format of the first candidate that supports `features` with
/// the tiling.
pub open spec fn is_first_supported(candidates: Seq<FormatCandidate>, tiling: i32, features: u32, f: i32) -> bool {
    exists|i: int|
        0 <= i < candidates.len() && format_supports(#[trigger] candidates[i], tiling, features)
            && candidates[i].format == f && forall|j: int|
            0 <= j < i ==> !format_supports(#[trigger] candidates[j], tiling, features)
}

/// Tells whether some candidate supports `features` with the tiling.
pub fn vk_some_format_supported(candidates: &Vec<FormatCandidate>, tiling: i32, features: u32) -> (r: bool)
    ensures
        r == some_format_supported(candidates@, tiling, features),
{
    let n = candidates.len();
    let mut i: usize = 0;
    while i < n
        invariant
            n == candidates@.len(),
            0 <= i <= n,
            forall|j: int| 0 <= j < i ==> !format_supports(#[trigger] candidates@[j], tiling, features),
        decreases n - i,
    {
        let c = candidates[i];
        if (tiling == IMAGE_TILING_LINEAR && contains(c.linear_tiling_features, features)) || (tiling
            == IMAGE_TILING_OPTIMAL && contains(c.optimal_tiling_features, features)) {
            assert(format_supports(candidates@[i as int], tiling, features));
            return true;
        }
        i += 1;
    }
    false
}

/// Finds the first candidate format that supports `features` with the given
/// tiling (see `is_first_supported`); some candidate must support them.
pub fn vk_find_supported_format(candidates: &Vec<FormatCandidate>, tiling: i32, features: u32) -> (r: i32)
    requires
        some_format_supported(candidates@, tiling, features),
    ensures
        is_first_supported(candidates@, tiling, features, r),
{
    let n = candidates.len();
    let mut i: usize = 0;
    while i < n
        invariant
            n == candidates@.len(),
            0 <= i <= n,
            some_format_supported(candidates@, tiling, features),
            forall|j: int| 0 <= j < i ==> !format_supports(#[trigger] candidates@[j], tiling, features),
        decreases n - i,
    {
        let c = candidates[i];
        if (tiling == IMAGE_TILING_LINEAR && contains(c.linear_tiling_features, features)) || (tiling
            == IMAGE_TILING_OPTIMAL && contains(c.optimal_tiling_features, features)) {
            assert(format_supports(candidates@[i as int], tiling, features));
            return c.format;
        }
        i += 1;
    }
    assert(false);
    0
}

/// The depth formats the renderer tries, in order of preference.
pub open spec fn depth_format_candidate_seq() -> Seq<i32> {
    seq![FORMAT_D32_SFLOAT, FORMAT_D32_SFLOAT_S8_UINT, FORMAT_D24_UNORM_S8_UINT]
}

/// The depth formats the renderer tries (see `depth_format_candidate_seq`),
/// whose properties the caller queries.
pub fn depth_format_candidates() -> (r: Vec<i32>)
    ensures
        r@ == depth_format_candidate_seq(),
{
    let mut v: Vec<i32> = Vec::new();
    v.push(FORMAT_D32_SFLOAT);
    v.push(FORMAT_D32_SFLOAT_S8_UINT);
    v.push(FORMAT_D24_UNORM_S8_UINT);
    v
}

/// Finds the depth format: the first of the depth formats (given with their
/// properties) that supports use as a depth-stencil attachment with optimal
/// tiling. The renderer supports only a depth format without stencil, so the
/// first candidate, D32_SFLOAT, must be usable, and it is the result.
pub fn vk_find_depth_format(candidates: &Vec<FormatCandidate>) -> (r: i32)
    requires
        candidates@.len() == depth_format_candidate_seq().len(),
        forall|i: int| 0 <= i < candidates@.len() ==> #[trigger] candidates@[i].format == depth_format_candidate_seq()[i],
        format_supports(candidates@[0], IMAGE_TILING_OPTIMAL, FORMAT_FEATURE_DEPTH_STENCIL_ATTACHMENT),
    ensures
        is_first_supported(candidates@, IMAGE_TILING_OPTIMAL, FORMAT_FEATURE_DEPTH_STENCIL_ATTACHMENT, r),
        r == FORMAT_D32_SFLOAT,
{
    assert(some_format_supported(candidates@, IMAGE_TILING_OPTIMAL, FORMAT_FEATURE_DEPTH_STENCIL_ATTACHMENT));
    let r = vk_find_supported_format(candidates, IMAGE_TILING_OPTIMAL, FORMAT_FEATURE_DEPTH_STENCIL_ATTACHMENT);
    assert(candidates@[0].format == FORMAT_D32_SFLOAT);
    r
}

// ---------------------------------------------------------------------------
// Render targets
// ---------------------------------------------------------------------------

/// The multisampled depth target: an optimally tiled depth-stencil
/// attachment of the swapchain's extent, and its depth view.
pub open spec fn depth_resources(extent: Extent2D, depth_format: i32, msaa_samples: u32) -> (ImagePlan, ImageViewPlan) {
    (
        ImagePlan {
            width: extent.width,
            height: extent.height,
            depth: 1,
            format: depth_format,
            tiling: IMAGE_TILING_OPTIMAL,
            usage: IMAGE_USAGE_DEPTH_STENCIL_ATTACHMENT,
            samples: msaa_samples,
            mip_levels: 1,
            array_layers: 1,
            sharing_mode: SHARING_MODE_EXCLUSIVE,
            memory_usage: crate::vk_utils::MemoryUsage::AutoPreferDevice,
        },
        ImageViewPlan {
            format: depth_format,
            aspect_mask: IMAGE_ASPECT_DEPTH,
            base_mip_level: 0,
            level_count: 1,
            base_array_layer: 0,
            layer_count: 1,
            explicit_rgba_swizzle: false,
        },
    )
}

/// The multisampled color target: an optimally tiled, transient color
/// attachment of the swapchain's extent, and its color view.
pub open spec fn color_resources(extent: Extent2D, color_format: i32, msaa_samples: u32) -> (ImagePlan, ImageViewPlan) {
    (
        ImagePlan {
            width: extent.width,
            height: extent.height,
            depth: 1,
            format: color_format,
            tiling: IMAGE_TILING_OPTIMAL,
            usage: IMAGE_USAGE_TRANSIENT_ATTACHMENT | IMAGE_USAGE_COLOR_ATTACHMENT,
            samples: msaa_samples,
            mip_levels: 1,
            array_layers: 1,
            sharing_mode: SHARING_MODE_EXCLUSIVE,
            memory_usage: crate::vk_utils::MemoryUsage::AutoPreferDevice,
        },
        ImageViewPlan {
            format: color_format,
            aspect_mask: IMAGE_ASPECT_COLOR,
            base_mip_level: 0,
            level_count: 1,
            base_array_layer: 0,
            layer_count: 1,
            explicit_rgba_swizzle: false,
        },
    )
}

/// Plans the depth target (see `depth_resources`).
pub fn vk_create_depth_resources(swapchain_surface_extent: &Extent2D, depth_format: i32, msaa_samples: u32) -> (r: (ImagePlan, ImageViewPlan))
    ensures
        r == depth_resources(*swapchain_surface_extent, depth_format, msaa_samples),
{
    let image = vk_create_image(
        swapchain_surface_extent.width,
        swapchain_surface_extent.height,
        depth_format,
        IMAGE_TILING_OPTIMAL,
        IMAGE_USAGE_DEPTH_STENCIL_ATTACHMENT,
        msaa_samples,
        1,
    );
    let view = vk_create_image_view(depth_format, IMAGE_ASPECT_DEPTH, 1);
    (image, view)
}

/// Plans the color target (see `color_resources`).
pub fn vk_create_color_resources(swapchain_surface_extent: &Extent2D, image_format: i32, msaa_samples: u32) -> (r: (ImagePlan, ImageViewPlan))
    ensures
        r == color_resources(*swapchain_surface_extent, image_format, msaa_samples),
{
    let image = vk_create_image(
        swapchain_surface_extent.width,
        swapchain_surface_extent.height,
        image_format,
        IMAGE_TILING_OPTIMAL,
        IMAGE_USAGE_TRANSIENT_ATTACHMENT | IMAGE_USAGE_COLOR_ATTACHMENT,
        msaa_samples,
        1,
    );
    let view = vk_create_image_view(image_format, IMAGE_ASPECT_COLOR, 1);
    (image, view)
}

/// Each render target is one optimally tiled 2D image of the swapchain's
/// extent, with one mip level and one layer, exclusive to one queue family,
/// in the requested format and sample count: the color target a transient
/// color attachment, the depth target a depth-stencil attachment. Each view
/// shows its image whole (its one level and one layer), in the image's
/// format, through the aspect that matches the attachment.
pub proof fn lemma_targets_are_whole_optimal_images(
    extent: Extent2D,
    color_format: i32,
    depth_format: i32,
    msaa_samples: u32,
)
    ensures
        ({
            let (ci, cv) = color_resources(extent, color_format, msaa_samples);
            let (di, dv) = depth_resources(extent, depth_format, msaa_samples);
            &&& ci.tiling == IMAGE_TILING_OPTIMAL && di.tiling == IMAGE_TILING_OPTIMAL
            &&& ci.width == extent.width && ci.height == extent.height && ci.depth == 1
            &&& di.width == extent.width && di.height == extent.height && di.depth == 1
            &&& ci.mip_levels == 1 && ci.array_layers == 1
            &&& di.mip_levels == 1 && di.array_layers == 1
            &&& ci.sharing_mode == SHARING_MODE_EXCLUSIVE && di.sharing_mode == SHARING_MODE_EXCLUSIVE
            &&& ci.format == color_format && di.format == depth_format
            &&& ci.samples == msaa_samples && di.samples == msaa_samples
            &&& has_bits(ci.usage, IMAGE_USAGE_COLOR_ATTACHMENT)
            &&& has_bits(ci.usage, IMAGE_USAGE_TRANSIENT_ATTACHMENT)
            &&& has_bits(di.usage, IMAGE_USAGE_DEPTH_STENCIL_ATTACHMENT)
            &&& cv.format == ci.format && dv.format == di.format
            &&& cv.aspect_mask == IMAGE_ASPECT_COLOR && dv.aspect_mask == IMAGE_ASPECT_DEPTH
            &&& cv.base_mip_level == 0 && cv.level_count == ci.mip_levels
            &&& cv.base_array_layer == 0 && cv.layer_count == ci.array_layers
            &&& dv.base_mip_level == 0 && dv.level_count == di.mip_levels
            &&& dv.base_array_layer == 0 && dv.layer_count == di.array_layers
        }),
{
    assert((IMAGE_USAGE_TRANSIENT_ATTACHMENT | IMAGE_USAGE_COLOR_ATTACHMENT) & IMAGE_USAGE_COLOR_ATTACHMENT
        == IMAGE_USAGE_COLOR_ATTACHMENT) by (bit_vector);
    assert((IMAGE_USAGE_TRANSIENT_ATTACHMENT | IMAGE_USAGE_COLOR_ATTACHMENT) & IMAGE_USAGE_TRANSIENT_ATTACHMENT
        == IMAGE_USAGE_TRANSIENT_ATTACHMENT) by (bit_vector);
    assert(IMAGE_USAGE_DEPTH_STENCIL_ATTACHMENT & IMAGE_USAGE_DEPTH_STENCIL_ATTACHMENT
        == IMAGE_USAGE_DEPTH_STENCIL_ATTACHMENT) by (bit_vector);
}

/// The render targets match the pipeline that draws into them: the color
/// and depth images have the pipeline's sample count and attachment
/// formats, and cover the pipeline's scissor.
pub proof fn lemma_targets_match_pipeline(
    p: GraphicsPipelinePlan,
    code: Seq<u32>,
    extent: Extent2D,
    msaa_samples: u32,
    color_format: i32,
    depth_format: i32,
    vertex_stride: u32,
    position_offset: u32,
    color_offset: u32,
)
    requires
        is_pipeline_plan(
            p,
            code,
            extent,
            msaa_samples,
            color_format,
            depth_format,
            vertex_stride,
            position_offset,
            color_offset,
        ),
    ensures
        color_resources(extent, color_format, msaa_samples).0.samples == p.rasterization_samples,
        depth_resources(extent, depth_format, msaa_samples).0.samples == p.rasterization_samples,
        color_resources(extent, color_format, msaa_samples).0.format == p.color_attachment_format,
        depth_resources(extent, depth_format, msaa_samples).0.format == p.depth_attachment_format,
        color_resources(extent, color_format, msaa_samples).0.width == p.scissor.extent.width,
        color_resources(extent, color_format, msaa_samples).0.height == p.scissor.extent.height,
        depth_resources(extent, depth_format, msaa_samples).0.width == p.scissor.extent.width,
        depth_resources(extent, depth_format, msaa_samples).0.height == p.scissor.extent.height,
{
}

// ---------------------------------------------------------------------------
// Commands
// ---------------------------------------------------------------------------

/// The parameters of the command pool: its buffers can be reset one by one,
/// and they are submitted to the given queue family.
#[derive(Debug, Clone, Copy, PartialEq, Eq, Structural)]
pub struct CommandPoolPlan {
    pub flags: u32,
    pub queue_family_index: u32,
}

/// Plans the command pool for the graphics queue family.
pub fn vk_create_command_pool(queue_family_index: u32) -> (r: CommandPoolPlan)
    ensures
        r == (CommandPoolPlan { flags: COMMAND_POOL_CREATE_RESET_COMMAND_BUFFER, queue_family_index }),
{
    CommandPoolPlan { flags: COMMAND_POOL_CREATE_RESET_COMMAND_BUFFER, queue_family_index }
}

/// The command buffers to allocate: one primary buffer per frame slot.
#[derive(Debug, Clone, Copy, PartialEq, Eq, Structural)]
pub struct CommandBufferAllocation {
    pub level: i32,
    pub count: u32,
}

/// Plans the allocation of the frame slots' command buffers.
pub fn vk_create_command_buffers() -> (r: CommandBufferAllocation)
    ensures
        r == (CommandBufferAllocation { level: COMMAND_BUFFER_LEVEL_PRIMARY, count: MAX_FRAMES_IN_FLIGHT as u32 }),
{
    CommandBufferAllocation { level: COMMAND_BUFFER_LEVEL_PRIMARY, count: MAX_FRAMES_IN_FLIGHT as u32 }
}

/// Tells whether the driver returned one command buffer per frame slot, as
/// the renderer needs.
pub fn command_buffers_complete(returned: usize) -> (r: bool)
    ensures
        r == (returned == MAX_FRAMES_IN_FLIGHT),
{
    returned == MAX_FRAMES_IN_FLIGHT
}

// ---------------------------------------------------------------------------
// The renderer's swapchain state
// ---------------------------------------------------------------------------

/// The renderer's plain-valued swapchain state: what the surface supports
/// with the chosen present mode, the chosen format, extent and number of
/// images, the format of the color target, and the scissor. (The viewport,
/// which holds floats, covers `extent`.)
#[derive(Debug)]
pub struct SwapchainState {
    pub support: VkSwapchainSupportDetails,
    pub surface_format: SurfaceFormat,
    pub extent: Extent2D,
    pub image_count: u32,
    pub color_format: i32,
    pub scissor: Rect2D,
}

/// The state follows the result of querying the surface's formats,
/// capabilities and present modes for a window of the given size: it holds
/// the query's details and choices, the color target has the surface
/// format, and the scissor covers the chosen extent.
pub open spec fn follows_query(
    st: SwapchainState,
    formats: Seq<SurfaceFormat>,
    caps: SurfaceCapabilities,
    modes: Seq<i32>,
    window_width: u32,
    window_height: u32,
) -> bool {
    &&& st.support.surface_formats@ == formats
    &&& st.support.surface_capabilities == caps
    &&& st.support.present_modes@ == modes
    &&& st.support.present_mode == chosen_present_mode(modes)
    &&& st.surface_format == chosen_surface_format(formats)
    &&& st.extent == chosen_swap_extent(caps, window_width, window_height)
    &&& st.image_count == chosen_image_count(caps)
    &&& st.color_format == st.surface_format.format
    &&& st.scissor.extent == st.extent
}

/// Everything the renderer creates anew when the swapchain is recreated:
/// the swapchain, the view of each of its images, the color and depth
/// targets, and the transitions that bring the targets into the general
/// layout.
#[derive(Debug, Clone, Copy)]
pub struct RecreatePlan {
    pub swapchain: SwapchainPlan,
    pub image_view: ImageViewPlan,
    pub color: (ImagePlan, ImageViewPlan),
    pub depth: (ImagePlan, ImageViewPlan),
    pub target_barriers: (BarrierPlan, BarrierPlan),
}

impl SwapchainState {
    /// The state at the renderer's creation, from what the surface reports
    /// and the window's size: it follows the query (see `follows_query`),
    /// and the scissor starts at the origin.
    pub fn new(
        surface_formats: Vec<SurfaceFormat>,
        surface_capabilities: SurfaceCapabilities,
        present_modes: Vec<i32>,
        window_width: u32,
        window_height: u32,
    ) -> (r: SwapchainState)
        requires
            surface_formats@.len() > 0,
            extent_limits_ordered(surface_capabilities),
            surface_capabilities.min_image_count < u32::MAX,
        ensures
            follows_query(r, surface_formats@, surface_capabilities, present_modes@, window_width, window_height),
            r.scissor.x == 0,
            r.scissor.y == 0,
    {
        let (support, surface_format, extent, image_count) = vk_query_swapchain_support(
            surface_formats,
            surface_capabilities,
            present_modes,
            window_width,
            window_height,
        );
        SwapchainState {
            support,
            surface_format,
            extent,
            image_count,
            color_format: surface_format.format,
            scissor: Rect2D { x: 0, y: 0, extent },
        }
    }

    /// Follows a new query of the surface for a window of the given size:
    /// every field follows the query (see `follows_query`), and the
    /// scissor's offset is kept.
    pub fn apply_window_size(
        &mut self,
        surface_formats: Vec<SurfaceFormat>,
        surface_capabilities: SurfaceCapabilities,
        present_modes: Vec<i32>,
        window_width: u32,
        window_height: u32,
    )
        requires
            surface_formats@.len() > 0,
            extent_limits_ordered(surface_capabilities),
            surface_capabilities.min_image_count < u32::MAX,
        ensures
            follows_query(*final(self), surface_formats@, surface_capabilities, present_modes@, window_width, window_height),
            final(self).scissor.x == old(self).scissor.x,
            final(self).scissor.y == old(self).scissor.y,
    {
        let (support, surface_format, extent, image_count) = vk_query_swapchain_support(
            surface_formats,
            surface_capabilities,
            present_modes,
            window_width,
            window_height,
        );
        self.support = support;
        self.surface_format = surface_format;
        self.extent = extent;
        self.image_count = image_count;
        self.color_format = surface_format.format;
        self.scissor.extent = extent;
    }

    /// Plans what is created anew with the swapchain: the swapchain for the
    /// current support, format, extent and image count; the views of its
    /// images; color and depth targets of the current extent; and the
    /// targets' transitions into the general layout.
    pub fn recreate_plans(&self, depth_format: i32, msaa_samples: u32) -> (r: RecreatePlan)
        ensures
            r.swapchain == planned_swapchain(
                self.support.surface_capabilities,
                self.support.present_mode,
                self.surface_format,
                self.extent,
                self.image_count,
            ),
            r.image_view == swapchain_image_view(self.surface_format),
            r.color == color_resources(self.extent, self.color_format, msaa_samples),
            r.depth == depth_resources(self.extent, depth_format, msaa_samples),
            r.target_barriers == initial_target_barriers(),
    {
        RecreatePlan {
            swapchain: vk_create_swap_chain(&self.support, &self.surface_format, &self.extent, self.image_count),
            image_view: vk_create_swap_chain_image_views(self.surface_format),
            color: vk_create_color_resources(&self.extent, self.color_format, msaa_samples),
            depth: vk_create_depth_resources(&self.extent, depth_format, msaa_samples),
            target_barriers: vk_prepare_image_layouts(),
        }
    }
}

/// After a resize, what is recreated follows the window: the new swapchain
/// has the chosen extent, number of images and surface format; the color
/// target has the surface format; both targets cover the chosen extent and
/// end in the general layout; the scissor covers the same extent.
pub proof fn lemma_recreation_follows_query(
    st: SwapchainState,
    formats: Seq<SurfaceFormat>,
    caps: SurfaceCapabilities,
    modes: Seq<i32>,
    window_width: u32,
    window_height: u32,
    depth_format: i32,
    msaa_samples: u32,
)
    requires
        follows_query(st, formats, caps, modes, window_width, window_height),
    ensures
        ({
            let e = chosen_swap_extent(caps, window_width, window_height);
            let sc = planned_swapchain(
                st.support.surface_capabilities,
                st.support.present_mode,
                st.surface_format,
                st.extent,
                st.image_count,
            );
            let color = color_resources(st.extent, st.color_format, msaa_samples);
            let depth = depth_resources(st.extent, depth_format, msaa_samples);
            &&& sc.image_extent == e
            &&& sc.min_image_count == chosen_image_count(caps)
            &&& sc.image_format == chosen_surface_format(formats).format
            &&& sc.image_color_space == chosen_surface_format(formats).color_space
            &&& sc.present_mode == chosen_present_mode(modes)
            &&& color.0.format == chosen_surface_format(formats).format
            &&& color.0.width == e.width && color.0.height == e.height
            &&& depth.0.width == e.width && depth.0.height == e.height
            &&& initial_target_barriers().0.new_layout == IMAGE_LAYOUT_GENERAL
            &&& initial_target_barriers().1.new_layout == IMAGE_LAYOUT_GENERAL
            &&& st.scissor.extent == e
        }),
{
}

/// At the renderer's creation, the scissor that the state keeps is the one
/// the pipeline was planned with.
pub proof fn lemma_new_state_scissor_is_pipeline_scissor(
    st: SwapchainState,
    p: GraphicsPipelinePlan,
    code: Seq<u32>,
    msaa_samples: u32,
    color_format: i32,
    depth_format: i32,
    vertex_stride: u32,
    position_offset: u32,
    color_offset: u32,
)
    requires
        st.scissor.x == 0,
        st.scissor.y == 0,
        st.scissor.extent == st.extent,
        is_pipeline_plan(
            p,
            code,
            st.extent,
            msaa_samples,
            color_format,
            depth_format,
            vertex_stride,
            position_offset,
            color_offset,
        ),
    ensures
        p.scissor == st.scissor,
{
}

} // verus!
