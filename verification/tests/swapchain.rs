use ash_triangle::vk_flags::{
    COLOR_SPACE_SRGB_NONLINEAR, COMPOSITE_ALPHA_OPAQUE, FORMAT_B8G8R8A8_SRGB, FORMAT_D24_UNORM_S8_UINT,
    FORMAT_D32_SFLOAT, FORMAT_D32_SFLOAT_S8_UINT, FORMAT_FEATURE_DEPTH_STENCIL_ATTACHMENT,
    IMAGE_TILING_LINEAR, IMAGE_TILING_OPTIMAL, IMAGE_USAGE_COLOR_ATTACHMENT, IMAGE_USAGE_TRANSFER_DST,
    IMAGE_USAGE_TRANSFER_SRC, PRESENT_MODE_FIFO, PRESENT_MODE_MAILBOX, SHARING_MODE_EXCLUSIVE,
    SURFACE_TRANSFORM_IDENTITY,
};
use ash_triangle::vk_init_rndr::{
    depth_format_candidates, vk_choose_image_count, vk_choose_present_mode, vk_choose_swap_extent,
    vk_choose_swap_surface_format, vk_create_swap_chain, vk_find_depth_format, vk_find_supported_format, vk_some_format_supported,
    vk_query_swapchain_support,
};
use ash_triangle::vk_models::{Extent2D, FormatCandidate, SurfaceCapabilities, SurfaceFormat};

fn caps(current: Extent2D, min_images: u32, max_images: u32) -> SurfaceCapabilities {
    SurfaceCapabilities {
        min_image_count: min_images,
        max_image_count: max_images,
        current_extent: current,
        min_image_extent: Extent2D { width: 100, height: 50 },
        max_image_extent: Extent2D { width: 4000, height: 3000 },
        supported_transforms: SURFACE_TRANSFORM_IDENTITY | 0x2,
        current_transform: 0x2,
    }
}

#[test]
fn surface_format_prefers_srgb_bgra() {
    let unorm = SurfaceFormat { format: 44, color_space: COLOR_SPACE_SRGB_NONLINEAR };
    let srgb = SurfaceFormat { format: FORMAT_B8G8R8A8_SRGB, color_space: COLOR_SPACE_SRGB_NONLINEAR };
    let srgb_other_space = SurfaceFormat { format: FORMAT_B8G8R8A8_SRGB, color_space: 1000104001 };
    assert_eq!(vk_choose_swap_surface_format(&vec![unorm, srgb_other_space, srgb]), srgb);
    assert_eq!(vk_choose_swap_surface_format(&vec![srgb_other_space, unorm]), srgb_other_space);
    assert_eq!(vk_choose_swap_surface_format(&vec![unorm]), unorm);
}

#[test]
fn swap_extent_current_or_clamped() {
    let fixed = caps(Extent2D { width: 800, height: 600 }, 2, 3);
    assert_eq!(vk_choose_swap_extent(&fixed, 1920, 1080), Extent2D { width: 800, height: 600 });
    let free = caps(Extent2D { width: u32::MAX, height: u32::MAX }, 2, 3);
    assert_eq!(vk_choose_swap_extent(&free, 1920, 1080), Extent2D { width: 1920, height: 1080 });
    assert_eq!(vk_choose_swap_extent(&free, 10, 5000), Extent2D { width: 100, height: 3000 });
    assert_eq!(vk_choose_swap_extent(&free, 0, 0), Extent2D { width: 100, height: 50 });
}

#[test]
fn present_mode_mailbox_or_fifo() {
    assert_eq!(vk_choose_present_mode(&vec![PRESENT_MODE_FIFO, PRESENT_MODE_MAILBOX]), PRESENT_MODE_MAILBOX);
    assert_eq!(vk_choose_present_mode(&vec![0, PRESENT_MODE_FIFO]), PRESENT_MODE_FIFO);
    assert_eq!(vk_choose_present_mode(&vec![]), PRESENT_MODE_FIFO);
}

#[test]
fn image_count_one_more_than_minimum() {
    let e = Extent2D { width: 1, height: 1 };
    assert_eq!(vk_choose_image_count(&caps(e, 2, 0)), 3);
    assert_eq!(vk_choose_image_count(&caps(e, 2, 8)), 3);
    assert_eq!(vk_choose_image_count(&caps(e, 3, 3)), 3);
    assert_eq!(vk_choose_image_count(&caps(e, 1, 2)), 2);
}

#[test]
fn query_swapchain_support() {
    let srgb = SurfaceFormat { format: FORMAT_B8G8R8A8_SRGB, color_space: COLOR_SPACE_SRGB_NONLINEAR };
    let c = caps(Extent2D { width: u32::MAX, height: u32::MAX }, 2, 0);
    let (details, format, extent, count) =
        vk_query_swapchain_support(vec![srgb], c, vec![PRESENT_MODE_MAILBOX, PRESENT_MODE_FIFO], 640, 480);
    assert_eq!(details.surface_formats, vec![srgb]);
    assert_eq!(details.surface_capabilities, c);
    assert_eq!(details.present_modes, vec![PRESENT_MODE_MAILBOX, PRESENT_MODE_FIFO]);
    assert_eq!(details.present_mode, PRESENT_MODE_MAILBOX);
    assert_eq!(format, srgb);
    assert_eq!(extent, Extent2D { width: 640, height: 480 });
    assert_eq!(count, 3);
}

#[test]
fn swap_chain_plan() {
    let srgb = SurfaceFormat { format: FORMAT_B8G8R8A8_SRGB, color_space: COLOR_SPACE_SRGB_NONLINEAR };
    let c = caps(Extent2D { width: 800, height: 600 }, 2, 0);
    let (details, format, extent, count) = vk_query_swapchain_support(vec![srgb], c, vec![PRESENT_MODE_FIFO], 1, 1);
    let p = vk_create_swap_chain(&details, &format, &extent, count);
    assert_eq!(p.min_image_count, 3);
    assert_eq!(p.image_format, FORMAT_B8G8R8A8_SRGB);
    assert_eq!(p.image_color_space, COLOR_SPACE_SRGB_NONLINEAR);
    assert_eq!(p.image_extent, Extent2D { width: 800, height: 600 });
    assert_eq!(p.image_array_layers, 1);
    assert_eq!(p.image_usage, IMAGE_USAGE_COLOR_ATTACHMENT | IMAGE_USAGE_TRANSFER_DST | IMAGE_USAGE_TRANSFER_SRC);
    assert_eq!(p.image_sharing_mode, SHARING_MODE_EXCLUSIVE);
    assert_eq!(p.pre_transform, SURFACE_TRANSFORM_IDENTITY);
    assert_eq!(p.composite_alpha, COMPOSITE_ALPHA_OPAQUE);
    assert_eq!(p.present_mode, PRESENT_MODE_FIFO);
    assert!(p.clipped);

    let mut rotated = c;
    rotated.supported_transforms = 0x2;
    let (details, format, extent, count) = vk_query_swapchain_support(vec![srgb], rotated, vec![], 1, 1);
    let p = vk_create_swap_chain(&details, &format, &extent, count);
    assert_eq!(p.pre_transform, 0x2);
}

#[test]
fn supported_format_by_tiling() {
    let a = FormatCandidate { format: 10, linear_tiling_features: 0x1, optimal_tiling_features: 0x0 };
    let b = FormatCandidate { format: 20, linear_tiling_features: 0x0, optimal_tiling_features: 0x3 };
    let cands = vec![a, b];
    assert_eq!(vk_find_supported_format(&cands, IMAGE_TILING_LINEAR, 0x1), 10);
    assert_eq!(vk_find_supported_format(&cands, IMAGE_TILING_OPTIMAL, 0x1), 20);
    assert_eq!(vk_find_supported_format(&cands, IMAGE_TILING_OPTIMAL, 0x2), 20);
    assert!(vk_some_format_supported(&cands, IMAGE_TILING_OPTIMAL, 0x1));
    assert!(!vk_some_format_supported(&cands, IMAGE_TILING_OPTIMAL, 0x4));
    assert!(!vk_some_format_supported(&cands, 1000158000, 0x1));
    assert!(!vk_some_format_supported(&vec![], IMAGE_TILING_LINEAR, 0x1));
}

#[test]
fn depth_format_preference() {
    let formats = depth_format_candidates();
    assert_eq!(formats, vec![FORMAT_D32_SFLOAT, FORMAT_D32_SFLOAT_S8_UINT, FORMAT_D24_UNORM_S8_UINT]);
    let with = |opt: [u32; 3]| -> Vec<FormatCandidate> {
        formats
            .iter()
            .zip(opt.iter())
            .map(|(f, o)| FormatCandidate { format: *f, linear_tiling_features: 0, optimal_tiling_features: *o })
            .collect()
    };
    let dsa = FORMAT_FEATURE_DEPTH_STENCIL_ATTACHMENT;
    assert_eq!(vk_find_depth_format(&with([dsa, dsa, dsa])), FORMAT_D32_SFLOAT);
    assert_eq!(vk_find_depth_format(&with([dsa, 0, 0])), FORMAT_D32_SFLOAT);
    assert_eq!(vk_find_supported_format(&with([0, 0, dsa]), IMAGE_TILING_OPTIMAL, dsa), FORMAT_D24_UNORM_S8_UINT);
    assert!(!vk_some_format_supported(&with([0, 0, 0]), IMAGE_TILING_OPTIMAL, dsa));
}

#[test]
fn swapchain_state_follows_each_query() {
    let srgb = SurfaceFormat { format: FORMAT_B8G8R8A8_SRGB, color_space: COLOR_SPACE_SRGB_NONLINEAR };
    let unorm = SurfaceFormat { format: 44, color_space: COLOR_SPACE_SRGB_NONLINEAR };
    let free = caps(Extent2D { width: u32::MAX, height: u32::MAX }, 2, 3);
    let mut st = ash_triangle::vk_init_rndr::SwapchainState::new(vec![unorm, srgb], free, vec![PRESENT_MODE_MAILBOX], 800, 600);
    assert_eq!(st.surface_format, srgb);
    assert_eq!(st.color_format, FORMAT_B8G8R8A8_SRGB);
    assert_eq!(st.extent, Extent2D { width: 800, height: 600 });
    assert_eq!(st.image_count, 3);
    assert_eq!(st.support.present_mode, PRESENT_MODE_MAILBOX);
    assert_eq!((st.scissor.x, st.scissor.y), (0, 0));
    assert_eq!(st.scissor.extent, st.extent);

    st.scissor.x = 7;
    let fixed = caps(Extent2D { width: 1024, height: 768 }, 3, 0);
    st.apply_window_size(vec![unorm], fixed, vec![PRESENT_MODE_FIFO], 1920, 1080);
    assert_eq!(st.surface_format, unorm);
    assert_eq!(st.color_format, 44);
    assert_eq!(st.extent, Extent2D { width: 1024, height: 768 });
    assert_eq!(st.image_count, 4);
    assert_eq!(st.support.present_mode, PRESENT_MODE_FIFO);
    assert_eq!(st.support.surface_formats, vec![unorm]);
    assert_eq!(st.support.surface_capabilities, fixed);
    assert_eq!((st.scissor.x, st.scissor.y), (7, 0));
    assert_eq!(st.scissor.extent, Extent2D { width: 1024, height: 768 });

    let plans = st.recreate_plans(FORMAT_D32_SFLOAT, 4);
    assert_eq!(plans.swapchain.image_extent, Extent2D { width: 1024, height: 768 });
    assert_eq!(plans.swapchain.min_image_count, 4);
    assert_eq!(plans.swapchain.image_format, 44);
    assert_eq!(plans.swapchain.present_mode, PRESENT_MODE_FIFO);
    assert_eq!(plans.image_view.format, 44);
    assert_eq!((plans.color.0.width, plans.color.0.height, plans.color.0.format), (1024, 768, 44));
    assert_eq!((plans.depth.0.width, plans.depth.0.height, plans.depth.0.format), (1024, 768, FORMAT_D32_SFLOAT));
    assert_eq!(plans.target_barriers.0.new_layout, ash_triangle::vk_flags::IMAGE_LAYOUT_GENERAL);
    assert_eq!(plans.target_barriers.1.new_layout, ash_triangle::vk_flags::IMAGE_LAYOUT_GENERAL);
}
