use deferred_engine::swapchain::{
    choose_swapchain_extent, choose_swapchain_format, choose_swapchain_present_mode,
    plan_swapchain, Extent2D, QueueSharing, SurfaceCapabilities, SurfaceFormat,
    SwapchainSupportInfo, COLOR_SPACE_SRGB_NONLINEAR, FORMAT_B8G8R8A8_SRGB, PRESENT_MODE_FIFO,
};

fn caps_with(
    min_count: u32,
    max_count: u32,
    current: Extent2D,
    min_extent: Extent2D,
    max_extent: Extent2D,
) -> SurfaceCapabilities {
    SurfaceCapabilities {
        min_image_count: min_count,
        max_image_count: max_count,
        current_extent: current,
        min_image_extent: min_extent,
        max_image_extent: max_extent,
        current_transform: 1,
    }
}

fn flexible_caps(min_count: u32, max_count: u32) -> SurfaceCapabilities {
    caps_with(
        min_count,
        max_count,
        Extent2D { width: u32::MAX, height: u32::MAX },
        Extent2D { width: 200, height: 100 },
        Extent2D { width: 2000, height: 1000 },
    )
}

#[test]
fn format_selection_prefers_bgra_srgb() {
    let formats = vec![
        SurfaceFormat { format: 37, color_space: 0 },
        SurfaceFormat {
            format: FORMAT_B8G8R8A8_SRGB,
            color_space: COLOR_SPACE_SRGB_NONLINEAR,
        },
        SurfaceFormat { format: 44, color_space: 5 },
    ];
    let chosen = choose_swapchain_format(&formats);
    assert_eq!(chosen.format, FORMAT_B8G8R8A8_SRGB);
    assert_eq!(chosen.color_space, COLOR_SPACE_SRGB_NONLINEAR);
}

#[test]
fn format_selection_falls_back_to_first() {
    let formats = vec![
        SurfaceFormat { format: 37, color_space: 0 },
        SurfaceFormat { format: 44, color_space: 5 },
    ];
    let chosen = choose_swapchain_format(&formats);
    assert_eq!(chosen, formats[0]);
}

#[test]
fn format_selection_ignores_wrong_color_space() {
    // The preferred format code with the wrong color space is not the
    // preferred pair.
    let formats = vec![
        SurfaceFormat { format: FORMAT_B8G8R8A8_SRGB, color_space: 7 },
        SurfaceFormat { format: 44, color_space: 5 },
    ];
    let chosen = choose_swapchain_format(&formats);
    assert_eq!(chosen, formats[0]);
}

#[test]
fn present_mode_is_always_fifo() {
    assert_eq!(choose_swapchain_present_mode(&vec![0, 1, 2, 3]), PRESENT_MODE_FIFO);
    assert_eq!(choose_swapchain_present_mode(&vec![1]), PRESENT_MODE_FIFO);
    assert_eq!(choose_swapchain_present_mode(&vec![]), PRESENT_MODE_FIFO);
}

#[test]
fn extent_uses_fixed_current_extent() {
    let caps = caps_with(
        1,
        0,
        Extent2D { width: 640, height: 480 },
        Extent2D { width: 1, height: 1 },
        Extent2D { width: 4096, height: 4096 },
    );
    let extent = choose_swapchain_extent(&caps, [1024, 768]);
    assert_eq!(extent, Extent2D { width: 640, height: 480 });
}

#[test]
fn extent_clamps_window_size_to_range() {
    let caps = flexible_caps(1, 0);
    // In range: the window size itself.
    assert_eq!(
        choose_swapchain_extent(&caps, [1024, 768]),
        Extent2D { width: 1024, height: 768 }
    );
    // Too large: the maximum.
    assert_eq!(
        choose_swapchain_extent(&caps, [5000, 5000]),
        Extent2D { width: 2000, height: 1000 }
    );
    // Too small: the minimum.
    assert_eq!(
        choose_swapchain_extent(&caps, [10, 10]),
        Extent2D { width: 200, height: 100 }
    );
    // Mixed per component.
    assert_eq!(
        choose_swapchain_extent(&caps, [10, 5000]),
        Extent2D { width: 200, height: 1000 }
    );
}

#[test]
fn plan_requests_one_image_over_minimum() {
    let support = SwapchainSupportInfo {
        capabilities: flexible_caps(2, 0),
        available_formats: vec![SurfaceFormat { format: 37, color_space: 0 }],
        available_present_modes: vec![2],
    };
    let config = plan_swapchain(&support, [800, 600], 0, 0);
    assert_eq!(config.image_count, 3);
}

#[test]
fn plan_clamps_image_count_to_maximum() {
    let support = SwapchainSupportInfo {
        capabilities: flexible_caps(2, 2),
        available_formats: vec![SurfaceFormat { format: 37, color_space: 0 }],
        available_present_modes: vec![2],
    };
    let config = plan_swapchain(&support, [800, 600], 0, 0);
    assert_eq!(config.image_count, 2);
}

#[test]
fn plan_selects_sharing_mode_from_families() {
    let support = SwapchainSupportInfo {
        capabilities: flexible_caps(1, 0),
        available_formats: vec![SurfaceFormat {
            format: FORMAT_B8G8R8A8_SRGB,
            color_space: COLOR_SPACE_SRGB_NONLINEAR,
        }],
        available_present_modes: vec![2],
    };
    let same = plan_swapchain(&support, [800, 600], 3, 3);
    assert_eq!(same.sharing, QueueSharing::Exclusive);
    let distinct = plan_swapchain(&support, [800, 600], 0, 2);
    assert_eq!(
        distinct.sharing,
        QueueSharing::Concurrent { graphics_family: 0, present_family: 2 }
    );
}

#[test]
fn plan_assembles_full_config() {
    let support = SwapchainSupportInfo {
        capabilities: flexible_caps(1, 0),
        available_formats: vec![
            SurfaceFormat { format: 37, color_space: 0 },
            SurfaceFormat {
                format: FORMAT_B8G8R8A8_SRGB,
                color_space: COLOR_SPACE_SRGB_NONLINEAR,
            },
        ],
        available_present_modes: vec![1, 2],
    };
    let config = plan_swapchain(&support, [1024, 768], 0, 1);
    assert_eq!(config.format, FORMAT_B8G8R8A8_SRGB);
    assert_eq!(config.color_space, COLOR_SPACE_SRGB_NONLINEAR);
    assert_eq!(config.present_mode, PRESENT_MODE_FIFO);
    assert_eq!(config.extent, Extent2D { width: 1024, height: 768 });
    assert_eq!(config.image_count, 2);
    assert_eq!(config.pre_transform, 1);
}
