use ash_triangle::vk_flags::{
    API_VERSION_1_4, PHYSICAL_DEVICE_TYPE_DISCRETE_GPU, QUEUE_COMPUTE, QUEUE_GRAPHICS, QUEUE_TRANSFER,
    SAMPLE_COUNT_1, SAMPLE_COUNT_16, SAMPLE_COUNT_2, SAMPLE_COUNT_4, SAMPLE_COUNT_64, SAMPLE_COUNT_8,
};
use ash_triangle::vk_init_core::{
    vk_create_logical_device, vk_find_best_queue_families, vk_get_max_usable_sample_count,
    vk_is_physical_device_has_graphics_and_present_family, vk_is_physical_device_suitable,
    vk_pick_physical_device, vk_queue_families_in_range, vk_some_device_qualifies, vk_create_instance,
    APP_NAME, APP_VERSION,
};
use ash_triangle::vk_flags::{INSTANCE_CREATE_ENUMERATE_PORTABILITY, VALIDATION_FEATURE_ENABLE_BEST_PRACTICES,
    VALIDATION_FEATURE_ENABLE_SYNCHRONIZATION_VALIDATION};
use ash_triangle::vk_models::{PhysicalDeviceInfo, QueueFamily, VkQueueFamilyIndices};

fn fam(flags: u32, count: u32, present: bool) -> QueueFamily {
    QueueFamily { queue_flags: flags, queue_count: count, present_support: present }
}

fn suitable_device(families: Vec<QueueFamily>) -> PhysicalDeviceInfo {
    PhysicalDeviceInfo {
        api_version: API_VERSION_1_4,
        device_type: PHYSICAL_DEVICE_TYPE_DISCRETE_GPU,
        geometry_shader: true,
        sampler_anisotropy: true,
        shader_draw_parameters: true,
        buffer_device_address: true,
        draw_indirect_count: true,
        synchronization2: true,
        dynamic_rendering: true,
        host_image_copy: true,
        push_descriptor: true,
        unified_image_layouts: true,
        task_shader: true,
        mesh_shader: true,
        framebuffer_color_sample_counts: 0x7f,
        framebuffer_depth_sample_counts: 0x0f,
        queue_families: families,
    }
}

#[test]
fn best_queue_families_prefer_dedicated_families() {
    let families = vec![
        fam(QUEUE_GRAPHICS | QUEUE_COMPUTE | QUEUE_TRANSFER, 1, true),
        fam(QUEUE_COMPUTE, 2, false),
        fam(QUEUE_TRANSFER, 1, false),
    ];
    let r = vk_find_best_queue_families(&families);
    assert_eq!(r.graphics_family, Some(0));
    assert_eq!(r.compute_family, Some(1));
    assert_eq!(r.transfer_family, Some(2));
}

#[test]
fn best_queue_families_graphics_needs_presentation() {
    let families = vec![
        fam(QUEUE_GRAPHICS | QUEUE_COMPUTE | QUEUE_TRANSFER, 16, false),
        fam(QUEUE_GRAPHICS, 1, true),
    ];
    let r = vk_find_best_queue_families(&families);
    assert_eq!(r.graphics_family, Some(1));
    assert_eq!(r.compute_family, Some(0));
    assert_eq!(r.transfer_family, Some(0));
}

#[test]
fn best_queue_families_first_wins_ties() {
    // Equal scores: 2 + 10 + 5 for both graphics families.
    let families = vec![
        fam(QUEUE_GRAPHICS | QUEUE_COMPUTE | QUEUE_TRANSFER, 2, true),
        fam(QUEUE_GRAPHICS | QUEUE_COMPUTE | QUEUE_TRANSFER, 2, true),
        fam(QUEUE_GRAPHICS | QUEUE_COMPUTE | QUEUE_TRANSFER, 3, true),
    ];
    let r = vk_find_best_queue_families(&families);
    assert_eq!(r.graphics_family, Some(2));
    let families = vec![
        fam(QUEUE_GRAPHICS | QUEUE_COMPUTE | QUEUE_TRANSFER, 2, true),
        fam(QUEUE_GRAPHICS | QUEUE_COMPUTE | QUEUE_TRANSFER, 2, true),
    ];
    let r = vk_find_best_queue_families(&families);
    assert_eq!(r.graphics_family, Some(0));
    assert_eq!(r.compute_family, Some(0));
    assert_eq!(r.transfer_family, Some(0));
}

#[test]
fn best_queue_families_many_queues_beat_dedication() {
    // A graphics+compute family with 30 queues scores 30 for compute; a
    // compute-only family with 5 queues scores 25.
    let families = vec![fam(QUEUE_GRAPHICS | QUEUE_COMPUTE, 30, true), fam(QUEUE_COMPUTE, 5, false)];
    let r = vk_find_best_queue_families(&families);
    assert_eq!(r.compute_family, Some(0));
    assert_eq!(r.transfer_family, None);
}

#[test]
fn best_queue_families_empty() {
    let r = vk_find_best_queue_families(&vec![]);
    assert_eq!(r, VkQueueFamilyIndices::default());
    assert_eq!(r.graphics_family, None);
}

#[test]
fn graphics_and_present_family() {
    assert!(vk_is_physical_device_has_graphics_and_present_family(&vec![
        fam(QUEUE_COMPUTE, 1, true),
        fam(QUEUE_GRAPHICS, 1, true),
    ]));
    assert!(!vk_is_physical_device_has_graphics_and_present_family(&vec![
        fam(QUEUE_COMPUTE, 1, true),
        fam(QUEUE_GRAPHICS, 1, false),
    ]));
    assert!(!vk_is_physical_device_has_graphics_and_present_family(&vec![]));
}

#[test]
fn max_usable_sample_count() {
    assert_eq!(vk_get_max_usable_sample_count(0x7f, 0x0f), SAMPLE_COUNT_8);
    assert_eq!(vk_get_max_usable_sample_count(0x7f, 0x7f), SAMPLE_COUNT_64);
    assert_eq!(vk_get_max_usable_sample_count(0x15, 0x1e), SAMPLE_COUNT_16);
    assert_eq!(vk_get_max_usable_sample_count(0x05, 0x06), SAMPLE_COUNT_4);
    assert_eq!(vk_get_max_usable_sample_count(0x03, 0x02), SAMPLE_COUNT_2);
    assert_eq!(vk_get_max_usable_sample_count(0x01, 0x01), SAMPLE_COUNT_1);
    assert_eq!(vk_get_max_usable_sample_count(0, 0), SAMPLE_COUNT_1);
    // Bits above 64 samples are not sample counts.
    assert_eq!(vk_get_max_usable_sample_count(0x80, 0x80), SAMPLE_COUNT_1);
}

#[test]
fn device_suitability() {
    let d = suitable_device(vec![]);
    assert!(vk_is_physical_device_suitable(&d));
    let mut older = suitable_device(vec![]);
    older.api_version = API_VERSION_1_4 - 1;
    assert!(!vk_is_physical_device_suitable(&older));
    let mut integrated = suitable_device(vec![]);
    integrated.device_type = 1;
    assert!(!vk_is_physical_device_suitable(&integrated));
    let mut no_mesh = suitable_device(vec![]);
    no_mesh.mesh_shader = false;
    assert!(!vk_is_physical_device_suitable(&no_mesh));
    let mut no_host_copy = suitable_device(vec![]);
    no_host_copy.host_image_copy = false;
    assert!(!vk_is_physical_device_suitable(&no_host_copy));
}

#[test]
fn pick_first_qualifying_device() {
    let mut unsuitable = suitable_device(vec![fam(QUEUE_GRAPHICS, 4, true)]);
    unsuitable.geometry_shader = false;
    let no_present = suitable_device(vec![fam(QUEUE_GRAPHICS | QUEUE_COMPUTE, 4, false)]);
    let good = suitable_device(vec![fam(QUEUE_TRANSFER, 1, false), fam(QUEUE_GRAPHICS | QUEUE_COMPUTE, 4, true)]);
    let also_good = suitable_device(vec![fam(QUEUE_GRAPHICS, 1, true)]);
    let devices = vec![unsuitable, no_present, good, also_good];
    assert!(vk_some_device_qualifies(&devices));
    let c = vk_pick_physical_device(&devices);
    assert_eq!(c.device_index, 2);
    assert_eq!(c.queue_family_index, 1);
    assert_eq!(c.queue_family_indices.graphics_family, Some(1));
    assert_eq!(c.queue_family_indices.compute_family, Some(1));
    assert_eq!(c.queue_family_indices.transfer_family, Some(0));
    assert_eq!(c.msaa_samples, SAMPLE_COUNT_8);
}

#[test]
fn pick_no_device() {
    let mut unsuitable = suitable_device(vec![fam(QUEUE_GRAPHICS, 4, true)]);
    unsuitable.push_descriptor = false;
    let devices = vec![unsuitable, suitable_device(vec![fam(QUEUE_COMPUTE, 4, true)])];
    assert!(!vk_some_device_qualifies(&devices));
    assert!(!vk_some_device_qualifies(&vec![]));
}

#[test]
fn logical_device_queues() {
    let same = VkQueueFamilyIndices { graphics_family: Some(0), compute_family: Some(0), transfer_family: Some(1) };
    let p = vk_create_logical_device(&same, false);
    assert_eq!(p.queue_families, vec![0]);
    assert_eq!(p.graphics_queue_family, 0);
    assert_eq!(p.compute_queue_family, 0);
    assert_eq!(p.extensions, vec!["VK_KHR_swapchain", "VK_EXT_mesh_shader", "VK_KHR_unified_image_layouts"]);
    let f = p.features;
    assert!(f.sampler_anisotropy && f.pipeline_statistics_query && f.inherited_queries && f.shader_clip_distance);
    assert!(f.shader_draw_parameters && f.draw_indirect_count && f.timeline_semaphore && f.buffer_device_address);
    assert!(f.synchronization2 && f.dynamic_rendering && f.host_image_copy && f.push_descriptor);
    assert!(f.unified_image_layouts && f.task_shader && f.mesh_shader);

    let separate = VkQueueFamilyIndices { graphics_family: Some(0), compute_family: Some(2), transfer_family: None };
    let p = vk_create_logical_device(&separate, true);
    assert_eq!(p.queue_families, vec![0, 2]);
    assert_eq!(p.compute_queue_family, 2);
    assert_eq!(p.extensions.last(), Some(&"VK_KHR_portability_subset"));
    assert_eq!(p.extensions.len(), 4);

    let no_compute = VkQueueFamilyIndices { graphics_family: Some(3), compute_family: None, transfer_family: None };
    let p = vk_create_logical_device(&no_compute, false);
    assert_eq!(p.queue_families, vec![3]);
    assert_eq!(p.graphics_queue_family, 3);
    assert_eq!(p.compute_queue_family, 3);
}

#[test]
fn queue_family_scores_in_range() {
    assert!(vk_queue_families_in_range(&vec![fam(QUEUE_GRAPHICS | QUEUE_COMPUTE | QUEUE_TRANSFER, 16, true)]));
    assert!(vk_queue_families_in_range(&vec![fam(QUEUE_GRAPHICS | QUEUE_COMPUTE | QUEUE_TRANSFER, u32::MAX - 15, true)]));
    assert!(!vk_queue_families_in_range(&vec![fam(QUEUE_GRAPHICS | QUEUE_COMPUTE | QUEUE_TRANSFER, u32::MAX - 14, true)]));
    // Without presentation the graphics score is not computed.
    assert!(vk_queue_families_in_range(&vec![fam(QUEUE_GRAPHICS | QUEUE_COMPUTE | QUEUE_TRANSFER, u32::MAX - 14, false)]));
    assert!(!vk_queue_families_in_range(&vec![fam(QUEUE_TRANSFER, u32::MAX - 29, false)]));
    assert!(vk_queue_families_in_range(&vec![fam(QUEUE_TRANSFER, u32::MAX - 30, false)]));
    assert!(!vk_queue_families_in_range(&vec![fam(QUEUE_COMPUTE, u32::MAX - 19, false)]));
}

#[test]
fn instance_plan() {
    let p = vk_create_instance(false, true);
    assert_eq!(APP_NAME, "Ash Triangle");
    assert_eq!(p.application_name, APP_NAME);
    assert_eq!(p.engine_name, APP_NAME);
    assert_eq!(p.application_version, APP_VERSION);
    assert_eq!(APP_VERSION, ash::vk::make_api_version(0, 0, 1, 0));
    assert_eq!(p.api_version, API_VERSION_1_4);
    assert_eq!(p.extensions, vec!["VK_EXT_debug_utils"]);
    assert_eq!(p.layers, vec!["VK_LAYER_KHRONOS_validation"]);
    assert_eq!(
        p.validation_features,
        vec![VALIDATION_FEATURE_ENABLE_SYNCHRONIZATION_VALIDATION, VALIDATION_FEATURE_ENABLE_BEST_PRACTICES]
    );
    assert_eq!(p.flags, 0);
    let q = vk_create_instance(true, false);
    assert_eq!(
        q.extensions,
        vec!["VK_EXT_debug_utils", "VK_KHR_portability_enumeration", "VK_KHR_get_physical_device_properties2"]
    );
    assert!(q.layers.is_empty() && q.validation_features.is_empty());
    assert_eq!(q.flags, INSTANCE_CREATE_ENUMERATE_PORTABILITY);
}
