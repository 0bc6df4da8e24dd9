use deferred_engine::device::{
    find_memory_type, find_queue_families, find_supported_format, has_required_extensions,
    pick_physical_device, FormatProperties, MemoryProperties, MemoryType, PhysicalDeviceInfo,
    QueueFamilyIndices, QueueFamilyInfo, IMAGE_TILING_LINEAR, IMAGE_TILING_OPTIMAL,
};
use deferred_engine::error::EngineError;
use deferred_engine::swapchain::{
    Extent2D, SurfaceCapabilities, SurfaceFormat, SwapchainSupportInfo,
};

fn memory_properties(flags: &[u32]) -> MemoryProperties {
    MemoryProperties {
        memory_types: flags.iter().map(|&f| MemoryType { property_flags: f }).collect(),
    }
}

fn family(count: u32, graphics: bool, present: bool) -> QueueFamilyInfo {
    QueueFamilyInfo {
        queue_count: count,
        supports_graphics: graphics,
        supports_present: present,
    }
}

fn working_support() -> SwapchainSupportInfo {
    SwapchainSupportInfo {
        capabilities: SurfaceCapabilities {
            min_image_count: 1,
            max_image_count: 0,
            current_extent: Extent2D { width: 800, height: 600 },
            min_image_extent: Extent2D { width: 1, height: 1 },
            max_image_extent: Extent2D { width: 4096, height: 4096 },
            current_transform: 1,
        },
        available_formats: vec![SurfaceFormat { format: 50, color_space: 0 }],
        available_present_modes: vec![2],
    }
}

fn device_with(extensions: Vec<&str>, families: Vec<QueueFamilyInfo>) -> PhysicalDeviceInfo {
    PhysicalDeviceInfo {
        extension_names: extensions.into_iter().map(|s| s.to_owned()).collect(),
        swapchain_support: working_support(),
        queue_families: families,
    }
}

const BOTH_EXTENSIONS: [&str; 2] = ["VK_KHR_swapchain", "VK_NV_ray_tracing"];

#[test]
fn memory_type_search_no_overlapping_bits_fails() {
    // Both types satisfy the property flags, but the bitmask selects
    // neither.
    let props = memory_properties(&[0b111, 0b111]);
    let r = find_memory_type(&props, 0b001, 0b100);
    assert_eq!(r, Err(EngineError::NoSuitableMemoryType));
}

#[test]
fn memory_type_search_single_qualifier_found() {
    // Only index 1 is both selected by the mask and property-sufficient.
    let props = memory_properties(&[0b0001, 0b0111, 0b0011]);
    let r = find_memory_type(&props, 0b0110, 0b0110);
    assert_eq!(r, Ok(1));
}

#[test]
fn memory_type_search_returns_first_match() {
    let props = memory_properties(&[0b11, 0b11, 0b11]);
    let r = find_memory_type(&props, 0b01, 0b110);
    assert_eq!(r, Ok(1));
}

#[test]
fn memory_type_search_requires_flag_superset() {
    // The mask selects index 0, but its flags miss a required bit.
    let props = memory_properties(&[0b0101]);
    let r = find_memory_type(&props, 0b0111, 0b1);
    assert_eq!(r, Err(EngineError::NoSuitableMemoryType));
}

#[test]
fn queue_family_search_finds_both() {
    let families = vec![
        family(1, true, false),
        family(1, false, true),
    ];
    let indices = find_queue_families(&families);
    assert_eq!(indices.graphics_family, Some(0));
    assert_eq!(indices.present_family, Some(1));
}

#[test]
fn queue_family_search_skips_empty_families() {
    let families = vec![
        family(0, true, true),
        family(2, true, true),
    ];
    let indices = find_queue_families(&families);
    assert_eq!(indices.graphics_family, Some(1));
    assert_eq!(indices.present_family, Some(1));
}

#[test]
fn queue_family_search_reports_missing_capability() {
    let families = vec![family(1, true, false)];
    let indices = find_queue_families(&families);
    assert_eq!(indices.graphics_family, Some(0));
    assert_eq!(indices.present_family, None);
}

#[test]
fn unique_families_merges_equal_indices() {
    let same = QueueFamilyIndices { graphics_family: Some(2), present_family: Some(2) };
    let set = same.unique_families();
    assert_eq!(set.len(), 1);
    assert!(set.contains(&2));

    let distinct = QueueFamilyIndices { graphics_family: Some(0), present_family: Some(1) };
    let set = distinct.unique_families();
    assert_eq!(set.len(), 2);
    assert!(set.contains(&0));
    assert!(set.contains(&1));
}

#[test]
fn extension_check_requires_both_names() {
    let both: Vec<String> = BOTH_EXTENSIONS.iter().map(|s| s.to_string()).collect();
    assert!(has_required_extensions(&both));
    let one = vec!["VK_KHR_swapchain".to_owned()];
    assert!(!has_required_extensions(&one));
    let none: Vec<String> = Vec::new();
    assert!(!has_required_extensions(&none));
}

#[test]
fn device_pick_takes_first_suitable() {
    let unsuitable = device_with(vec!["VK_KHR_swapchain"], vec![family(1, true, true)]);
    let suitable_a = device_with(BOTH_EXTENSIONS.to_vec(), vec![family(1, true, true)]);
    let suitable_b = device_with(BOTH_EXTENSIONS.to_vec(), vec![family(4, true, true)]);
    let devices = vec![unsuitable, suitable_a, suitable_b];
    let (chosen, indices) = pick_physical_device(&devices).unwrap();
    assert_eq!(chosen, 1);
    assert_eq!(indices.graphics_family, Some(0));
    assert_eq!(indices.present_family, Some(0));
}

#[test]
fn device_pick_fails_when_none_suitable() {
    // Extensions present but no present-capable family.
    let device = device_with(BOTH_EXTENSIONS.to_vec(), vec![family(1, true, false)]);
    let r = pick_physical_device(&vec![device]);
    assert_eq!(r.unwrap_err(), EngineError::NoSuitableDevice);
}

#[test]
fn device_pick_rejects_empty_swapchain_support() {
    let mut device = device_with(BOTH_EXTENSIONS.to_vec(), vec![family(1, true, true)]);
    device.swapchain_support.available_formats = Vec::new();
    let r = pick_physical_device(&vec![device]);
    assert_eq!(r.unwrap_err(), EngineError::NoSuitableDevice);
}

#[test]
fn format_search_honors_tiling() {
    let candidates = vec![
        FormatProperties { format: 126, linear_tiling_features: 0, optimal_tiling_features: 0x200 },
        FormatProperties { format: 130, linear_tiling_features: 0x200, optimal_tiling_features: 0 },
    ];
    assert_eq!(find_supported_format(&candidates, IMAGE_TILING_OPTIMAL, 0x200), Ok(126));
    assert_eq!(find_supported_format(&candidates, IMAGE_TILING_LINEAR, 0x200), Ok(130));
}

#[test]
fn format_search_fails_without_support() {
    let candidates = vec![
        FormatProperties { format: 126, linear_tiling_features: 0, optimal_tiling_features: 0x100 },
    ];
    assert_eq!(
        find_supported_format(&candidates, IMAGE_TILING_OPTIMAL, 0x200),
        Err(deferred_engine::error::EngineError::NoSuitableFormat)
    );
}
