use vk_bootstrap::model::{
    Extent2D, QueueFamilySupport, SurfaceCapabilities, SurfaceFormat, SwapchainSupportDetails,
    COLOR_SPACE_SRGB_NONLINEAR, FORMAT_B8G8R8_SRGB, PRESENT_MODE_FIFO, PRESENT_MODE_MAILBOX,
    UNDEFINED_EXTENT_WIDTH,
};
use vk_bootstrap::error::{BootstrapError, Violation};
use vk_bootstrap::queues::{find_queue_family, QueueFamilyIndices};
use vk_bootstrap::swapchain::{choose_sharing, plan_swapchain, SharingPlan};

fn caps(
    min_count: u32,
    max_count: u32,
    current: (u32, u32),
    min_extent: (u32, u32),
    max_extent: (u32, u32),
) -> SurfaceCapabilities {
    SurfaceCapabilities {
        min_image_count: min_count,
        max_image_count: max_count,
        current_extent: Extent2D { width: current.0, height: current.1 },
        min_image_extent: Extent2D { width: min_extent.0, height: min_extent.1 },
        max_image_extent: Extent2D { width: max_extent.0, height: max_extent.1 },
        current_transform: 0,
    }
}

#[test]
fn scan_finds_first_graphics_and_present() {
    let fams = vec![
        QueueFamilySupport { graphics: true, present: true },
        QueueFamilySupport { graphics: true, present: true },
    ];
    let r = find_queue_family(&fams);
    assert_eq!(r.graphics_family, Some(0));
    assert_eq!(r.present_family, Some(0));
    assert!(r.is_complete());
}

#[test]
fn scan_incomplete_when_capability_missing() {
    let fams = vec![
        QueueFamilySupport { graphics: true, present: false },
        QueueFamilySupport { graphics: true, present: false },
    ];
    let r = find_queue_family(&fams);
    assert_eq!(r.graphics_family, Some(0));
    assert_eq!(r.present_family, None);
    assert!(!r.is_complete());

    let empty: Vec<QueueFamilySupport> = Vec::new();
    let r = find_queue_family(&empty);
    assert!(!r.is_complete());
}

#[test]
fn scenario_split_families_concurrent_sharing() {
    // Family 0 can only present, family 1 can only run graphics.
    let fams = vec![
        QueueFamilySupport { graphics: false, present: true },
        QueueFamilySupport { graphics: true, present: false },
    ];
    let r = find_queue_family(&fams);
    assert_eq!(r.graphics_family, Some(1));
    assert_eq!(r.present_family, Some(0));
    assert!(r.is_complete());

    let sharing = choose_sharing(1, 0);
    assert_eq!(sharing, SharingPlan::Concurrent { family_indices: vec![1, 0] });
}

#[test]
fn same_family_exclusive_sharing() {
    assert_eq!(choose_sharing(2, 2), SharingPlan::Exclusive);
}

#[test]
fn format_selection_prefers_exact_pair() {
    let formats = vec![
        SurfaceFormat { format: 44, color_space: 7 },
        SurfaceFormat { format: FORMAT_B8G8R8_SRGB, color_space: COLOR_SPACE_SRGB_NONLINEAR },
        SurfaceFormat { format: 50, color_space: 0 },
    ];
    let r = SwapchainSupportDetails::choose_swap_surface_format(&formats);
    assert_eq!(
        r,
        SurfaceFormat { format: FORMAT_B8G8R8_SRGB, color_space: COLOR_SPACE_SRGB_NONLINEAR }
    );
}

#[test]
fn format_selection_falls_back_to_first() {
    // The preferred format value in the wrong color space does not count.
    let formats = vec![
        SurfaceFormat { format: 44, color_space: 7 },
        SurfaceFormat { format: FORMAT_B8G8R8_SRGB, color_space: 5 },
    ];
    let r = SwapchainSupportDetails::choose_swap_surface_format(&formats);
    assert_eq!(r, SurfaceFormat { format: 44, color_space: 7 });
}

#[test]
fn present_mode_prefers_mailbox() {
    let modes = vec![PRESENT_MODE_FIFO, PRESENT_MODE_MAILBOX];
    assert_eq!(
        SwapchainSupportDetails::choose_swap_present_mode(&modes),
        PRESENT_MODE_MAILBOX
    );
}

#[test]
fn present_mode_falls_back_to_fifo() {
    let modes = vec![PRESENT_MODE_FIFO, 0];
    assert_eq!(SwapchainSupportDetails::choose_swap_present_mode(&modes), PRESENT_MODE_FIFO);
    let empty: Vec<u32> = Vec::new();
    assert_eq!(SwapchainSupportDetails::choose_swap_present_mode(&empty), PRESENT_MODE_FIFO);
}

#[test]
fn image_count_is_min_plus_one_when_unbounded() {
    let c = caps(2, 0, (640, 480), (1, 1), (4096, 4096));
    assert_eq!(SwapchainSupportDetails::choose_image_count(&c), 3);
}

#[test]
fn image_count_clamped_to_nonzero_max() {
    let c = caps(3, 3, (640, 480), (1, 1), (4096, 4096));
    assert_eq!(SwapchainSupportDetails::choose_image_count(&c), 3);
}

#[test]
fn image_count_min_plus_one_within_max() {
    let c = caps(2, 8, (640, 480), (1, 1), (4096, 4096));
    assert_eq!(SwapchainSupportDetails::choose_image_count(&c), 3);
}

#[test]
fn extent_uses_current_when_defined() {
    let c = caps(2, 4, (640, 480), (1, 1), (4096, 4096));
    let r = SwapchainSupportDetails::choose_swap_extent(&c, 9999, 9999);
    assert_eq!(r, Ok(Extent2D { width: 640, height: 480 }));
}

#[test]
fn extent_clamps_into_bounds_when_undefined() {
    let c = caps(2, 4, (UNDEFINED_EXTENT_WIDTH, 0), (400, 300), (1920, 1080));
    // Below the minimum in both dimensions.
    let r = SwapchainSupportDetails::choose_swap_extent(&c, 100, 100).unwrap();
    assert_eq!(r, Extent2D { width: 400, height: 300 });
    // Above the maximum in both dimensions.
    let r = SwapchainSupportDetails::choose_swap_extent(&c, 5000, 5000).unwrap();
    assert_eq!(r, Extent2D { width: 1920, height: 1080 });
    // Inside the bounds: taken as is.
    let r = SwapchainSupportDetails::choose_swap_extent(&c, 800, 600).unwrap();
    assert_eq!(r, Extent2D { width: 800, height: 600 });
}

#[test]
fn scenario_undefined_extent_scaled_window() {
    // The window reports 1600x1200 physical pixels at a display scale
    // factor of 2.0; the host hands the library the logical size.
    let c = caps(2, 4, (UNDEFINED_EXTENT_WIDTH, 0), (400, 300), (1920, 1080));
    let scale: f64 = 2.0;
    let logical_width = (1600 as f64 / scale) as u32;
    let logical_height = (1200 as f64 / scale) as u32;
    let r = SwapchainSupportDetails::choose_swap_extent(&c, logical_width, logical_height);
    assert_eq!(r, Ok(Extent2D { width: 800, height: 600 }));
}

#[test]
fn extent_malformed_bounds_are_a_contract_violation() {
    let c = caps(2, 4, (UNDEFINED_EXTENT_WIDTH, 0), (1920, 300), (1920, 1080));
    let r = SwapchainSupportDetails::choose_swap_extent(&c, 800, 600);
    assert_eq!(r, Err(BootstrapError::ContractViolation(Violation::ExtentBoundsInverted)));
}

#[test]
fn swapchain_plan_combines_all_choices() {
    let support = SwapchainSupportDetails {
        capabilities: caps(2, 4, (UNDEFINED_EXTENT_WIDTH, 0), (400, 300), (1920, 1080)),
        formats: vec![
            SurfaceFormat { format: 44, color_space: 7 },
            SurfaceFormat { format: FORMAT_B8G8R8_SRGB, color_space: COLOR_SPACE_SRGB_NONLINEAR },
        ],
        present_modes: vec![PRESENT_MODE_FIFO, PRESENT_MODE_MAILBOX],
    };
    let indices = QueueFamilyIndices { graphics_family: Some(1), present_family: Some(0) };
    let config = plan_swapchain(&support, 800, 600, &indices).unwrap();
    assert_eq!(
        config.format,
        SurfaceFormat { format: FORMAT_B8G8R8_SRGB, color_space: COLOR_SPACE_SRGB_NONLINEAR }
    );
    assert_eq!(config.present_mode, PRESENT_MODE_MAILBOX);
    assert_eq!(config.extent, Extent2D { width: 800, height: 600 });
    assert_eq!(config.image_count, 3);
    assert_eq!(config.pre_transform, 0);
    assert_eq!(config.sharing, SharingPlan::Concurrent { family_indices: vec![1, 0] });
}

#[test]
fn swapchain_plan_exclusive_when_families_coincide() {
    let support = SwapchainSupportDetails {
        capabilities: caps(2, 0, (640, 480), (1, 1), (4096, 4096)),
        formats: vec![SurfaceFormat { format: 44, color_space: 7 }],
        present_modes: vec![PRESENT_MODE_FIFO],
    };
    let indices = QueueFamilyIndices { graphics_family: Some(0), present_family: Some(0) };
    let config = plan_swapchain(&support, 800, 600, &indices).unwrap();
    assert_eq!(config.sharing, SharingPlan::Exclusive);
    assert_eq!(config.extent, Extent2D { width: 640, height: 480 });
}
