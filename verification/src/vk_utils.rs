//! Plans of the images, image views, buffers and layout transitions that the
//! renderer creates or records, and the index data of the rectangle mesh.

use vstd::prelude::*;
use crate::vk_flags::{
    ACCESS_2_COLOR_ATTACHMENT_WRITE, ACCESS_2_DEPTH_STENCIL_ATTACHMENT_WRITE, ACCESS_2_NONE,
    BUFFER_USAGE_INDEX_BUFFER, BUFFER_USAGE_TRANSFER_DST, BUFFER_USAGE_TRANSFER_SRC,
    BUFFER_USAGE_VERTEX_BUFFER, IMAGE_ASPECT_COLOR, IMAGE_ASPECT_DEPTH, IMAGE_LAYOUT_GENERAL,
    IMAGE_LAYOUT_PRESENT_SRC, IMAGE_LAYOUT_UNDEFINED, PIPELINE_STAGE_2_COLOR_ATTACHMENT_OUTPUT,
    PIPELINE_STAGE_2_EARLY_FRAGMENT_TESTS, PIPELINE_STAGE_2_LATE_FRAGMENT_TESTS,
    PIPELINE_STAGE_2_TOP_OF_PIPE, QUEUE_FAMILY_IGNORED, SHARING_MODE_EXCLUSIVE, has_bits,
    ALLOCATION_CREATE_HOST_ACCESS_SEQUENTIAL_WRITE, ATTACHMENT_LOAD_OP_CLEAR, ATTACHMENT_STORE_OP_DONT_CARE,
    COMMAND_BUFFER_RESET_RELEASE_RESOURCES, COMMAND_BUFFER_USAGE_ONE_TIME_SUBMIT, INDEX_TYPE_UINT32,
    PIPELINE_BIND_POINT_GRAPHICS, RESOLVE_MODE_AVERAGE, RESOLVE_MODE_NONE, COMMAND_BUFFER_LEVEL_PRIMARY,
};
use crate::vk_init_rndr::Rect2D;
use crate::vk_models::Extent2D;

verus! {

/// How the memory allocator is to place an allocation (`VmaMemoryUsage`).
#[derive(Debug, Clone, Copy, PartialEq, Eq, Structural)]
pub enum MemoryUsage {
    /// No intended usage given.
    Unknown,
    /// Device-local memory (obsolete usage).
    GpuOnly,
    /// Host-visible memory (obsolete usage).
    CpuOnly,
    /// Memory the host writes and the device reads (obsolete usage).
    CpuToGpu,
    /// Memory the device writes and the host reads (obsolete usage).
    GpuToCpu,
    /// Host memory for staging copies (obsolete usage).
    CpuCopy,
    /// Lazily allocated device memory.
    GpuLazy,
    /// Let the allocator choose.
    Auto,
    /// Let the allocator choose, preferring device-local memory.
    AutoPreferDevice,
    /// Let the allocator choose, preferring host memory.
    AutoPreferHost,
}

/// The parameters of a 2D image (`VkImageCreateInfo`) and of its allocation.
#[derive(Debug, Clone, Copy, PartialEq, Eq, Structural)]
pub struct ImagePlan {
    pub width: u32,
    pub height: u32,
    pub depth: u32,
    pub format: i32,
    pub tiling: i32,
    pub usage: u32,
    pub samples: u32,
    pub mip_levels: u32,
    pub array_layers: u32,
    pub sharing_mode: i32,
    pub memory_usage: MemoryUsage,
}

/// The parameters of a 2D image view (`VkImageViewCreateInfo`);
/// `explicit_rgba_swizzle` is set when the components are mapped to R, G, B
/// and A by name rather than by the identity swizzle.
#[derive(Debug, Clone, Copy, PartialEq, Eq, Structural)]
pub struct ImageViewPlan {
    pub format: i32,
    pub aspect_mask: u32,
    pub base_mip_level: u32,
    pub level_count: u32,
    pub base_array_layer: u32,
    pub layer_count: u32,
    pub explicit_rgba_swizzle: bool,
}

/// The parameters of a buffer (`VkBufferCreateInfo`) and of its allocation
/// (the allocator's creation flags and memory usage).
#[derive(Debug, Clone, Copy, PartialEq, Eq, Structural)]
pub struct BufferPlan {
    pub size: u64,
    pub usage: u32,
    pub sharing_mode: i32,
    pub memory_usage: MemoryUsage,
    pub allocation_flags: u32,
}

/// An image memory barrier (`VkImageMemoryBarrier2`) over one layer.
#[derive(Debug, Clone, Copy, PartialEq, Eq, Structural)]
pub struct BarrierPlan {
    pub old_layout: i32,
    pub new_layout: i32,
    pub src_access_mask: u64,
    pub dst_access_mask: u64,
    pub src_stage_mask: u64,
    pub dst_stage_mask: u64,
    pub src_queue_family_index: u32,
    pub dst_queue_family_index: u32,
    pub aspect_mask: u32,
    pub base_mip_level: u32,
    pub level_count: u32,
    pub base_array_layer: u32,
    pub layer_count: u32,
}

/// A buffer filled through a host-visible staging buffer: the staging
/// buffer, the device buffer, the number of bytes copied from one to the
/// other, and the number of elements.
#[derive(Debug, Clone, Copy, PartialEq, Eq, Structural)]
pub struct StagedBufferPlan {
    pub staging: BufferPlan,
    pub device: BufferPlan,
    pub copy_size: u64,
    pub element_count: u32,
}

/// Plans a single-layer 2D image of the given size and format, in memory the
/// allocator places preferably on the device.
pub fn vk_create_image(
    width: u32,
    height: u32,
    format: i32,
    tiling: i32,
    usage: u32,
    msaa_samples: u32,
    mip_levels: u32,
) -> (r: ImagePlan)
    ensures
        r == (ImagePlan {
            width,
            height,
            depth: 1,
            format,
            tiling,
            usage,
            samples: msaa_samples,
            mip_levels,
            array_layers: 1,
            sharing_mode: SHARING_MODE_EXCLUSIVE,
            memory_usage: MemoryUsage::AutoPreferDevice,
        }),
{
    ImagePlan {
        width,
        height,
        depth: 1,
        format,
        tiling,
        usage,
        samples: msaa_samples,
        mip_levels,
        array_layers: 1,
        sharing_mode: SHARING_MODE_EXCLUSIVE,
        memory_usage: MemoryUsage::AutoPreferDevice,
    }
}

/// Plans a 2D view of an image with the given aspect and number of mip
/// levels, starting at level 0, over one layer, with the identity swizzle.
pub fn vk_create_image_view(image_format: i32, aspect_flags: u32, mip_levels: u32) -> (r: ImageViewPlan)
    ensures
        r == (ImageViewPlan {
            format: image_format,
            aspect_mask: aspect_flags,
            base_mip_level: 0,
            level_count: mip_levels,
            base_array_layer: 0,
            layer_count: 1,
            explicit_rgba_swizzle: false,
        }),
{
    ImageViewPlan {
        format: image_format,
        aspect_mask: aspect_flags,
        base_mip_level: 0,
        level_count: mip_levels,
        base_array_layer: 0,
        layer_count: 1,
        explicit_rgba_swizzle: false,
    }
}

/// Plans a buffer used by one queue family at a time, allocated with the
/// given memory usage and allocation flags.
pub fn vk_create_buffer(size: u64, usage: u32, memory_usage: MemoryUsage, alloc_flags: u32) -> (r: BufferPlan)
    ensures
        r == (BufferPlan {
            size,
            usage,
            sharing_mode: SHARING_MODE_EXCLUSIVE,
            memory_usage,
            allocation_flags: alloc_flags,
        }),
{
    BufferPlan { size, usage, sharing_mode: SHARING_MODE_EXCLUSIVE, memory_usage, allocation_flags: alloc_flags }
}

/// Plans a layout transition of the first `mip_levels` levels of one layer,
/// without a transfer of queue family ownership.
pub fn vk_transition_image_layout(
    old_layout: i32,
    new_layout: i32,
    src_access_mask: u64,
    dst_access_mask: u64,
    src_stage_mask: u64,
    dst_stage_mask: u64,
    image_aspect_flags: u32,
    mip_levels: u32,
) -> (r: BarrierPlan)
    ensures
        r == (BarrierPlan {
            old_layout,
            new_layout,
            src_access_mask,
            dst_access_mask,
            src_stage_mask,
            dst_stage_mask,
            src_queue_family_index: QUEUE_FAMILY_IGNORED,
            dst_queue_family_index: QUEUE_FAMILY_IGNORED,
            aspect_mask: image_aspect_flags,
            base_mip_level: 0,
            level_count: mip_levels,
            base_array_layer: 0,
            layer_count: 1,
        }),
{
    BarrierPlan {
        old_layout,
        new_layout,
        src_access_mask,
        dst_access_mask,
        src_stage_mask,
        dst_stage_mask,
        src_queue_family_index: QUEUE_FAMILY_IGNORED,
        dst_queue_family_index: QUEUE_FAMILY_IGNORED,
        aspect_mask: image_aspect_flags,
        base_mip_level: 0,
        level_count: mip_levels,
        base_array_layer: 0,
        layer_count: 1,
    }
}

/// The staging and device buffers for `size` bytes of data whose device
/// buffer is used with `device_usage`.
pub open spec fn staged_buffer(size: u64, device_usage: u32, element_count: u32) -> StagedBufferPlan {
    StagedBufferPlan {
        staging: BufferPlan {
            size,
            usage: BUFFER_USAGE_TRANSFER_SRC,
            sharing_mode: SHARING_MODE_EXCLUSIVE,
            memory_usage: MemoryUsage::Auto,
            allocation_flags: ALLOCATION_CREATE_HOST_ACCESS_SEQUENTIAL_WRITE,
        },
        device: BufferPlan {
            size,
            usage: BUFFER_USAGE_TRANSFER_DST | device_usage,
            sharing_mode: SHARING_MODE_EXCLUSIVE,
            memory_usage: MemoryUsage::AutoPreferDevice,
            allocation_flags: 0,
        },
        copy_size: size,
        element_count,
    }
}

fn staged_buffer_plan(size: u64, device_usage: u32, element_count: u32) -> (r: StagedBufferPlan)
    ensures
        r == staged_buffer(size, device_usage, element_count),
{
    StagedBufferPlan {
        staging: vk_create_buffer(
            size,
            BUFFER_USAGE_TRANSFER_SRC,
            MemoryUsage::Auto,
            ALLOCATION_CREATE_HOST_ACCESS_SEQUENTIAL_WRITE,
        ),
        device: vk_create_buffer(size, BUFFER_USAGE_TRANSFER_DST | device_usage, MemoryUsage::AutoPreferDevice, 0),
        copy_size: size,
        element_count,
    }
}

/// A command buffer for work submitted once and waited for: how many are
/// allocated, at which level, and with which usage it is begun.
#[derive(Debug, Clone, Copy, PartialEq, Eq, Structural)]
pub struct OneTimeCommandPlan {
    pub level: i32,
    pub count: u32,
    pub usage_flags: u32,
}

/// One primary command buffer, begun for a single submission.
pub open spec fn one_time_commands() -> OneTimeCommandPlan {
    OneTimeCommandPlan {
        level: COMMAND_BUFFER_LEVEL_PRIMARY,
        count: 1,
        usage_flags: COMMAND_BUFFER_USAGE_ONE_TIME_SUBMIT,
    }
}

/// Plans a command buffer for one-time work (see `one_time_commands`).
pub fn vk_one_time_commands() -> (r: OneTimeCommandPlan)
    ensures
        r == one_time_commands(),
{
    OneTimeCommandPlan {
        level: COMMAND_BUFFER_LEVEL_PRIMARY,
        count: 1,
        usage_flags: COMMAND_BUFFER_USAGE_ONE_TIME_SUBMIT,
    }
}

/// A copy of `size` bytes from the start of one buffer to the start of
/// another, recorded in a one-time command buffer.
#[derive(Debug, Clone, Copy, PartialEq, Eq, Structural)]
pub struct CopyPlan {
    pub commands: OneTimeCommandPlan,
    pub src_offset: u64,
    pub dst_offset: u64,
    pub size: u64,
}

/// Plans the copy of `size` bytes from one buffer to another.
pub fn vk_copy_buffer(size: u64) -> (r: CopyPlan)
    ensures
        r == (CopyPlan { commands: one_time_commands(), src_offset: 0, dst_offset: 0, size }),
{
    CopyPlan { commands: vk_one_time_commands(), src_offset: 0, dst_offset: 0, size }
}

/// Plans the vertex buffer of `vertex_count` vertices of `vertex_size` bytes
/// each: a host-written staging buffer copied into a device vertex buffer of
/// the same size; the vertex count is reported as a `u32`.
pub fn vk_create_vertex_buffer(vertex_count: usize, vertex_size: usize) -> (r: StagedBufferPlan)
    requires
        vertex_count * vertex_size <= usize::MAX,
    ensures
        r == staged_buffer((vertex_count * vertex_size) as u64, BUFFER_USAGE_VERTEX_BUFFER, vertex_count as u32),
{
    let buffer_size = (vertex_count * vertex_size) as u64;
    staged_buffer_plan(buffer_size, BUFFER_USAGE_VERTEX_BUFFER, vertex_count as u32)
}

/// Plans the index buffer of `index_count` 32-bit indices: a host-written
/// staging buffer copied into a device index buffer of the same size; the
/// index count is reported as a `u32`.
pub fn vk_create_index_buffer(index_count: usize) -> (r: StagedBufferPlan)
    requires
        index_count * 4 <= usize::MAX,
    ensures
        r == staged_buffer((index_count * 4) as u64, BUFFER_USAGE_INDEX_BUFFER, index_count as u32),
{
    let buffer_size = (index_count * 4) as u64;
    staged_buffer_plan(buffer_size, BUFFER_USAGE_INDEX_BUFFER, index_count as u32)
}

/// The copy of a staged buffer is valid: the staging buffer is a host-written
/// transfer source, the device buffer a transfer destination with the usage
/// asked for, and both hold exactly the bytes copied.
pub proof fn lemma_staged_copy_valid(size: u64, device_usage: u32, element_count: u32)
    ensures
        ({
            let p = staged_buffer(size, device_usage, element_count);
            &&& has_bits(p.staging.usage, BUFFER_USAGE_TRANSFER_SRC)
            &&& has_bits(p.staging.allocation_flags, ALLOCATION_CREATE_HOST_ACCESS_SEQUENTIAL_WRITE)
            &&& has_bits(p.device.usage, BUFFER_USAGE_TRANSFER_DST)
            &&& has_bits(p.device.usage, device_usage)
            &&& p.staging.size == p.copy_size
            &&& p.device.size == p.copy_size
        }),
{
    assert(BUFFER_USAGE_TRANSFER_SRC & BUFFER_USAGE_TRANSFER_SRC == BUFFER_USAGE_TRANSFER_SRC) by (bit_vector);
    assert(ALLOCATION_CREATE_HOST_ACCESS_SEQUENTIAL_WRITE & ALLOCATION_CREATE_HOST_ACCESS_SEQUENTIAL_WRITE
        == ALLOCATION_CREATE_HOST_ACCESS_SEQUENTIAL_WRITE) by (bit_vector);
    assert((BUFFER_USAGE_TRANSFER_DST | device_usage) & BUFFER_USAGE_TRANSFER_DST == BUFFER_USAGE_TRANSFER_DST)
        by (bit_vector);
    assert((BUFFER_USAGE_TRANSFER_DST | device_usage) & device_usage == device_usage) by (bit_vector);
}

/// The transitions that bring a new color target and a new depth target
/// from the undefined layout into the general layout, ready to be written as
/// attachments.
pub open spec fn initial_target_barriers() -> (BarrierPlan, BarrierPlan) {
    (
        BarrierPlan {
            old_layout: IMAGE_LAYOUT_UNDEFINED,
            new_layout: IMAGE_LAYOUT_GENERAL,
            src_access_mask: ACCESS_2_NONE,
            dst_access_mask: ACCESS_2_COLOR_ATTACHMENT_WRITE,
            src_stage_mask: PIPELINE_STAGE_2_TOP_OF_PIPE,
            dst_stage_mask: PIPELINE_STAGE_2_COLOR_ATTACHMENT_OUTPUT,
            src_queue_family_index: QUEUE_FAMILY_IGNORED,
            dst_queue_family_index: QUEUE_FAMILY_IGNORED,
            aspect_mask: IMAGE_ASPECT_COLOR,
            base_mip_level: 0,
            level_count: 1,
            base_array_layer: 0,
            layer_count: 1,
        },
        BarrierPlan {
            old_layout: IMAGE_LAYOUT_UNDEFINED,
            new_layout: IMAGE_LAYOUT_GENERAL,
            src_access_mask: ACCESS_2_NONE,
            dst_access_mask: ACCESS_2_DEPTH_STENCIL_ATTACHMENT_WRITE,
            src_stage_mask: PIPELINE_STAGE_2_TOP_OF_PIPE,
            dst_stage_mask: PIPELINE_STAGE_2_EARLY_FRAGMENT_TESTS | PIPELINE_STAGE_2_LATE_FRAGMENT_TESTS,
            src_queue_family_index: QUEUE_FAMILY_IGNORED,
            dst_queue_family_index: QUEUE_FAMILY_IGNORED,
            aspect_mask: IMAGE_ASPECT_DEPTH,
            base_mip_level: 0,
            level_count: 1,
            base_array_layer: 0,
            layer_count: 1,
        },
    )
}

/// Plans the one-time command buffer that moves the new color and depth
/// targets into the general layout (see `initial_target_barriers`).
pub fn vk_prepare_image_layouts() -> (r: (BarrierPlan, BarrierPlan))
    ensures
        r == initial_target_barriers(),
{
    let color = vk_transition_image_layout(
        IMAGE_LAYOUT_UNDEFINED,
        IMAGE_LAYOUT_GENERAL,
        ACCESS_2_NONE,
        ACCESS_2_COLOR_ATTACHMENT_WRITE,
        PIPELINE_STAGE_2_TOP_OF_PIPE,
        PIPELINE_STAGE_2_COLOR_ATTACHMENT_OUTPUT,
        IMAGE_ASPECT_COLOR,
        1,
    );
    let depth = vk_transition_image_layout(
        IMAGE_LAYOUT_UNDEFINED,
        IMAGE_LAYOUT_GENERAL,
        ACCESS_2_NONE,
        ACCESS_2_DEPTH_STENCIL_ATTACHMENT_WRITE,
        PIPELINE_STAGE_2_TOP_OF_PIPE,
        PIPELINE_STAGE_2_EARLY_FRAGMENT_TESTS | PIPELINE_STAGE_2_LATE_FRAGMENT_TESTS,
        IMAGE_ASPECT_DEPTH,
        1,
    );
    (color, depth)
}

/// The transitions of the swapchain image around the rendering of a frame:
/// from undefined to general before the color attachment is resolved into
/// it, and from general to the present layout after.
pub open spec fn frame_image_barriers() -> (BarrierPlan, BarrierPlan) {
    (
        BarrierPlan {
            old_layout: IMAGE_LAYOUT_UNDEFINED,
            new_layout: IMAGE_LAYOUT_GENERAL,
            src_access_mask: ACCESS_2_NONE,
            dst_access_mask: ACCESS_2_COLOR_ATTACHMENT_WRITE,
            src_stage_mask: PIPELINE_STAGE_2_COLOR_ATTACHMENT_OUTPUT,
            dst_stage_mask: PIPELINE_STAGE_2_COLOR_ATTACHMENT_OUTPUT,
            src_queue_family_index: QUEUE_FAMILY_IGNORED,
            dst_queue_family_index: QUEUE_FAMILY_IGNORED,
            aspect_mask: IMAGE_ASPECT_COLOR,
            base_mip_level: 0,
            level_count: 1,
            base_array_layer: 0,
            layer_count: 1,
        },
        BarrierPlan {
            old_layout: IMAGE_LAYOUT_GENERAL,
            new_layout: IMAGE_LAYOUT_PRESENT_SRC,
            src_access_mask: ACCESS_2_COLOR_ATTACHMENT_WRITE,
            dst_access_mask: ACCESS_2_NONE,
            src_stage_mask: PIPELINE_STAGE_2_COLOR_ATTACHMENT_OUTPUT,
            dst_stage_mask: PIPELINE_STAGE_2_COLOR_ATTACHMENT_OUTPUT,
            src_queue_family_index: QUEUE_FAMILY_IGNORED,
            dst_queue_family_index: QUEUE_FAMILY_IGNORED,
            aspect_mask: IMAGE_ASPECT_COLOR,
            base_mip_level: 0,
            level_count: 1,
            base_array_layer: 0,
            layer_count: 1,
        },
    )
}

/// Plans the two swapchain-image transitions that the command buffer of a
/// frame records around rendering (see `frame_image_barriers`).
pub fn vk_frame_image_barriers() -> (r: (BarrierPlan, BarrierPlan))
    ensures
        r == frame_image_barriers(),
{
    let before = vk_transition_image_layout(
        IMAGE_LAYOUT_UNDEFINED,
        IMAGE_LAYOUT_GENERAL,
        ACCESS_2_NONE,
        ACCESS_2_COLOR_ATTACHMENT_WRITE,
        PIPELINE_STAGE_2_COLOR_ATTACHMENT_OUTPUT,
        PIPELINE_STAGE_2_COLOR_ATTACHMENT_OUTPUT,
        IMAGE_ASPECT_COLOR,
        1,
    );
    let after = vk_transition_image_layout(
        IMAGE_LAYOUT_GENERAL,
        IMAGE_LAYOUT_PRESENT_SRC,
        ACCESS_2_COLOR_ATTACHMENT_WRITE,
        ACCESS_2_NONE,
        PIPELINE_STAGE_2_COLOR_ATTACHMENT_OUTPUT,
        PIPELINE_STAGE_2_COLOR_ATTACHMENT_OUTPUT,
        IMAGE_ASPECT_COLOR,
        1,
    );
    (before, after)
}

/// The layouts of a swapchain image chain up through a frame: it leaves the
/// undefined layout for the general one in which rendering resolves into
/// it, and leaves that same layout for the present layout; the render
/// targets enter the general layout in which the frame's rendering uses
/// them.
pub proof fn lemma_layouts_chain()
    ensures
        frame_image_barriers().0.old_layout == IMAGE_LAYOUT_UNDEFINED,
        frame_image_barriers().0.new_layout == frame_image_barriers().1.old_layout,
        frame_image_barriers().1.new_layout == IMAGE_LAYOUT_PRESENT_SRC,
        frame_image_barriers().0.dst_access_mask == frame_image_barriers().1.src_access_mask,
        initial_target_barriers().0.new_layout == IMAGE_LAYOUT_GENERAL,
        initial_target_barriers().1.new_layout == IMAGE_LAYOUT_GENERAL,
        frame_image_barriers().0.new_layout == IMAGE_LAYOUT_GENERAL,
{
}

/// A rendering attachment (`VkRenderingAttachmentInfo`, without its views
/// and clear value): the layout it is used in, how it is resolved and into
/// which layout, and its load and store operations.
#[derive(Debug, Clone, Copy, PartialEq, Eq, Structural)]
pub struct AttachmentPlan {
    pub image_layout: i32,
    pub resolve_mode: u32,
    pub resolve_image_layout: i32,
    pub load_op: i32,
    pub store_op: i32,
}

/// The commands a frame records (without the clear colors and depth, which
/// are floats): reset and begin the command buffer, move the swapchain image
/// into the general layout, render into the multisampled color target
/// (resolved into the swapchain image) and the depth target over the whole
/// extent, bind the pipeline and the mesh, draw the indices once, and move
/// the swapchain image into the present layout.
#[derive(Debug, Clone, Copy, PartialEq, Eq, Structural)]
pub struct RecordPlan {
    pub reset_flags: u32,
    pub begin_flags: u32,
    pub before_rendering: BarrierPlan,
    pub color_attachment: AttachmentPlan,
    pub depth_attachment: AttachmentPlan,
    pub depth_clear_stencil: u32,
    pub render_area: Rect2D,
    pub layer_count: u32,
    pub bind_point: i32,
    pub vertex_buffer_offset: u64,
    pub index_buffer_offset: u64,
    pub index_type: i32,
    pub index_count: u32,
    pub instance_count: u32,
    pub first_index: u32,
    pub vertex_offset: i32,
    pub first_instance: u32,
    pub after_rendering: BarrierPlan,
}

/// The commands of a frame over the given extent that draws `index_count`
/// indices.
pub open spec fn record_plan(extent: Extent2D, index_count: u32) -> RecordPlan {
    RecordPlan {
        reset_flags: COMMAND_BUFFER_RESET_RELEASE_RESOURCES,
        begin_flags: COMMAND_BUFFER_USAGE_ONE_TIME_SUBMIT,
        before_rendering: frame_image_barriers().0,
        color_attachment: AttachmentPlan {
            image_layout: IMAGE_LAYOUT_GENERAL,
            resolve_mode: RESOLVE_MODE_AVERAGE,
            resolve_image_layout: IMAGE_LAYOUT_GENERAL,
            load_op: ATTACHMENT_LOAD_OP_CLEAR,
            store_op: ATTACHMENT_STORE_OP_DONT_CARE,
        },
        depth_attachment: AttachmentPlan {
            image_layout: IMAGE_LAYOUT_GENERAL,
            resolve_mode: RESOLVE_MODE_NONE,
            resolve_image_layout: IMAGE_LAYOUT_UNDEFINED,
            load_op: ATTACHMENT_LOAD_OP_CLEAR,
            store_op: ATTACHMENT_STORE_OP_DONT_CARE,
        },
        depth_clear_stencil: 0,
        render_area: Rect2D { x: 0, y: 0, extent },
        layer_count: 1,
        bind_point: PIPELINE_BIND_POINT_GRAPHICS,
        vertex_buffer_offset: 0,
        index_buffer_offset: 0,
        index_type: INDEX_TYPE_UINT32,
        index_count,
        instance_count: 1,
        first_index: 0,
        vertex_offset: 0,
        first_instance: 0,
        after_rendering: frame_image_barriers().1,
    }
}

/// Plans the commands of a frame (see `record_plan`).
pub fn vk_record_command_buffer(swapchain_surface_extent: &Extent2D, index_count: u32) -> (r: RecordPlan)
    ensures
        r == record_plan(*swapchain_surface_extent, index_count),
{
    let (before, after) = vk_frame_image_barriers();
    RecordPlan {
        reset_flags: COMMAND_BUFFER_RESET_RELEASE_RESOURCES,
        begin_flags: COMMAND_BUFFER_USAGE_ONE_TIME_SUBMIT,
        before_rendering: before,
        color_attachment: AttachmentPlan {
            image_layout: IMAGE_LAYOUT_GENERAL,
            resolve_mode: RESOLVE_MODE_AVERAGE,
            resolve_image_layout: IMAGE_LAYOUT_GENERAL,
            load_op: ATTACHMENT_LOAD_OP_CLEAR,
            store_op: ATTACHMENT_STORE_OP_DONT_CARE,
        },
        depth_attachment: AttachmentPlan {
            image_layout: IMAGE_LAYOUT_GENERAL,
            resolve_mode: RESOLVE_MODE_NONE,
            resolve_image_layout: IMAGE_LAYOUT_UNDEFINED,
            load_op: ATTACHMENT_LOAD_OP_CLEAR,
            store_op: ATTACHMENT_STORE_OP_DONT_CARE,
        },
        depth_clear_stencil: 0,
        render_area: Rect2D { x: 0, y: 0, extent: *swapchain_surface_extent },
        layer_count: 1,
        bind_point: PIPELINE_BIND_POINT_GRAPHICS,
        vertex_buffer_offset: 0,
        index_buffer_offset: 0,
        index_type: INDEX_TYPE_UINT32,
        index_count,
        instance_count: 1,
        first_index: 0,
        vertex_offset: 0,
        first_instance: 0,
        after_rendering: after,
    }
}

/// Within a frame, the attachments are used in the layout that the
/// swapchain image and the render targets were moved into, and the color
/// target is resolved into the swapchain image in the layout it has until
/// the final transition.
pub proof fn lemma_frame_layouts_agree(extent: Extent2D, index_count: u32)
    ensures
        record_plan(extent, index_count).color_attachment.resolve_image_layout == record_plan(
            extent,
            index_count,
        ).before_rendering.new_layout,
        record_plan(extent, index_count).color_attachment.resolve_image_layout == record_plan(
            extent,
            index_count,
        ).after_rendering.old_layout,
        record_plan(extent, index_count).color_attachment.image_layout == initial_target_barriers().0.new_layout,
        record_plan(extent, index_count).depth_attachment.image_layout == initial_target_barriers().1.new_layout,
        record_plan(extent, index_count).after_rendering.new_layout == IMAGE_LAYOUT_PRESENT_SRC,
{
}

/// The swapchain image's transitions in a frame's command buffer: the first
/// starts at the color-attachment-output stage, the stage at which the
/// frame's submission waits on the "image acquired" semaphore, so that the
/// transition out of the undefined layout waits for the image to be
/// acquired, and it makes the image ready for color attachment writes in
/// that same stage; the second waits for those writes in that stage before
/// the image goes to presentation. Both cover the image's whole color
/// subresource (one level, one layer) and transfer no queue ownership.
pub proof fn lemma_frame_barriers_follow_acquire(extent: Extent2D, index_count: u32)
    ensures
        ({
            let b = record_plan(extent, index_count).before_rendering;
            let a = record_plan(extent, index_count).after_rendering;
            &&& b.old_layout == IMAGE_LAYOUT_UNDEFINED
            &&& b.src_stage_mask == PIPELINE_STAGE_2_COLOR_ATTACHMENT_OUTPUT
            &&& b.dst_stage_mask == PIPELINE_STAGE_2_COLOR_ATTACHMENT_OUTPUT
            &&& b.src_access_mask == ACCESS_2_NONE
            &&& b.dst_access_mask == ACCESS_2_COLOR_ATTACHMENT_WRITE
            &&& a.src_stage_mask == b.dst_stage_mask
            &&& a.src_access_mask == b.dst_access_mask
            &&& a.old_layout == b.new_layout
            &&& a.new_layout == IMAGE_LAYOUT_PRESENT_SRC
            &&& b.src_queue_family_index == QUEUE_FAMILY_IGNORED && b.dst_queue_family_index == QUEUE_FAMILY_IGNORED
            &&& a.src_queue_family_index == QUEUE_FAMILY_IGNORED && a.dst_queue_family_index == QUEUE_FAMILY_IGNORED
            &&& b.aspect_mask == IMAGE_ASPECT_COLOR && a.aspect_mask == IMAGE_ASPECT_COLOR
            &&& b.base_mip_level == 0 && b.level_count == 1 && b.base_array_layer == 0 && b.layer_count == 1
            &&& a.base_mip_level == 0 && a.level_count == 1 && a.base_array_layer == 0 && a.layer_count == 1
        }),
{
}

/// A frame renders over the whole extent, from its origin, into one layer;
/// clears both attachments when it loads them; resolves the multisampled
/// color target by averaging into the swapchain image's layout after the
/// first transition; binds the graphics pipeline and both buffers from
/// their starts; and draws exactly the given number of 32-bit indices, from
/// the first index, once.
pub proof fn lemma_frame_draws_mesh_over_extent(extent: Extent2D, index_count: u32)
    ensures
        ({
            let p = record_plan(extent, index_count);
            &&& p.render_area.x == 0 && p.render_area.y == 0 && p.render_area.extent == extent
            &&& p.layer_count == 1
            &&& p.color_attachment.load_op == ATTACHMENT_LOAD_OP_CLEAR
            &&& p.depth_attachment.load_op == ATTACHMENT_LOAD_OP_CLEAR
            &&& p.color_attachment.resolve_mode == RESOLVE_MODE_AVERAGE
            &&& p.color_attachment.resolve_image_layout == p.before_rendering.new_layout
            &&& p.depth_attachment.resolve_mode == RESOLVE_MODE_NONE
            &&& p.bind_point == PIPELINE_BIND_POINT_GRAPHICS
            &&& p.vertex_buffer_offset == 0 && p.index_buffer_offset == 0
            &&& p.index_type == INDEX_TYPE_UINT32
            &&& p.index_count == index_count && p.first_index == 0 && p.vertex_offset == 0
            &&& p.instance_count == 1 && p.first_instance == 0
            &&& p.begin_flags == COMMAND_BUFFER_USAGE_ONE_TIME_SUBMIT
        }),
{
}

// ---------------------------------------------------------------------------
// The rectangle mesh
// ---------------------------------------------------------------------------

/// The number of vertices of the rectangle: its four corners.
pub const RECTANGLE_VERTEX_COUNT: usize = 4;

/// The indices of the rectangle's two triangles over its four corners.
pub open spec fn rectangle_index_seq() -> Seq<u32> {
    seq![0, 1, 2, 2, 3, 0]
}

/// The index data of the rectangle mesh (see `rectangle_index_seq`).
pub fn rectangle_indices() -> (r: Vec<u32>)
    ensures
        r@ == rectangle_index_seq(),
{
    let mut v: Vec<u32> = Vec::new();
    v.push(0);
    v.push(1);
    v.push(2);
    v.push(2);
    v.push(3);
    v.push(0);
    v
}

/// The rectangle is drawn as whole triangles, and every index names one of
/// its vertices, so an indexed draw never reads past the vertex buffer.
pub proof fn lemma_rectangle_indices_in_range()
    ensures
        rectangle_index_seq().len() % 3 == 0,
        forall|i: int|
            0 <= i < rectangle_index_seq().len() ==> (#[trigger] rectangle_index_seq()[i] as int)
                < RECTANGLE_VERTEX_COUNT,
{
}

} // verus!
