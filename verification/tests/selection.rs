use ash::vk::{Handle, PhysicalDevice};
use vulkan_renderer::descs::Extent;
use vulkan_renderer::internal::{FormatProperties, InternalVulkan};
use vulkan_renderer::simple;
use vulkan_renderer::vkconst::{
    COMPOSITE_ALPHA_OPAQUE, FORMAT_D24_UNORM_S8_UINT, FORMAT_D32_SFLOAT, FORMAT_D32_SFLOAT_S8_UINT,
    FORMAT_FEATURE_DEPTH_STENCIL_ATTACHMENT, IMAGE_TILING_LINEAR, IMAGE_TILING_OPTIMAL,
    IMAGE_USAGE_COLOR_ATTACHMENT, PRESENT_MODE_FIFO, PRESENT_MODE_IMMEDIATE, PRESENT_MODE_MAILBOX,
    SHARING_MODE_EXCLUSIVE,
};
use vulkan_renderer::wrapper::{PhysicalDeviceInfo, SurfaceCapabilities, SurfaceFormat, VulkanWrapper};

#[test]
fn memory_type_is_first_accepted_one_with_all_properties() {
    // type 0 is device local only, types 1 and 2 are host visible and coherent
    let flags = vec![0x1, 0x6, 0x7];
    assert_eq!(InternalVulkan::find_memory_type(&flags, 0b110, 0x6), Some(1));
    // the resource does not accept type 1
    assert_eq!(InternalVulkan::find_memory_type(&flags, 0b100, 0x6), Some(2));
    // device local: type 0 first
    assert_eq!(InternalVulkan::find_memory_type(&flags, 0b111, 0x1), Some(0));
    // no properties asked: the first accepted type
    assert_eq!(InternalVulkan::find_memory_type(&flags, 0b010, 0), Some(1));
}

#[test]
fn memory_type_missing() {
    let flags = vec![0x1, 0x6];
    assert_eq!(InternalVulkan::find_memory_type(&flags, 0b01, 0x6), None);
    assert_eq!(InternalVulkan::find_memory_type(&flags, 0b100, 0x1), None);
    assert_eq!(InternalVulkan::find_memory_type(&Vec::new(), u32::MAX, 0), None);
}

#[test]
fn memory_type_uses_all_thirty_two_bits() {
    let mut flags = vec![0u32; 32];
    flags[31] = 0x2;
    assert_eq!(InternalVulkan::find_memory_type(&flags, 1 << 31, 0x2), Some(31));
}

fn props(linear: u32, optimal: u32) -> FormatProperties {
    FormatProperties { linear_tiling_features: linear, optimal_tiling_features: optimal }
}

#[test]
fn supported_format_follows_tiling() {
    let formats = vec![10, 20, 30];
    let properties = vec![props(0x200, 0), props(0, 0x200), props(0x200, 0x200)];
    assert_eq!(InternalVulkan::find_supported_format(&formats, &properties, IMAGE_TILING_LINEAR, 0x200), Some(10));
    assert_eq!(InternalVulkan::find_supported_format(&formats, &properties, IMAGE_TILING_OPTIMAL, 0x200), Some(20));
    assert_eq!(InternalVulkan::find_supported_format(&formats, &properties, IMAGE_TILING_OPTIMAL, 0x201), None);
    // a tiling that is neither linear nor optimal never matches
    assert_eq!(InternalVulkan::find_supported_format(&formats, &properties, 1000158000, 0), None);
}

#[test]
fn depth_format_prefers_candidates_in_order() {
    assert_eq!(
        InternalVulkan::depth_format_candidates(),
        vec![FORMAT_D32_SFLOAT, FORMAT_D32_SFLOAT_S8_UINT, FORMAT_D24_UNORM_S8_UINT]
    );
    let f = FORMAT_FEATURE_DEPTH_STENCIL_ATTACHMENT;
    assert_eq!(InternalVulkan::find_depth_format(&vec![props(0, f), props(0, f), props(0, f)]), Some(FORMAT_D32_SFLOAT));
    assert_eq!(InternalVulkan::find_depth_format(&vec![props(f, 0), props(0, 0), props(0, f)]), Some(FORMAT_D24_UNORM_S8_UINT));
    assert_eq!(InternalVulkan::find_depth_format(&vec![props(f, 0), props(f, 0), props(f, 0)]), None);
}

#[test]
fn queue_family_needs_graphics_and_presentation() {
    assert_eq!(InternalVulkan::get_queue_family_index(&vec![0x2, 0x1, 0x3], &vec![true, false, true]), Some(2));
    assert_eq!(InternalVulkan::get_queue_family_index(&vec![0x7, 0x1], &vec![true, true]), Some(0));
    assert_eq!(InternalVulkan::get_queue_family_index(&vec![0x2, 0x1], &vec![true, false]), None);
    assert_eq!(InternalVulkan::get_queue_family_index(&Vec::new(), &Vec::new()), None);
}

#[test]
fn device_features_must_all_be_true() {
    assert!(InternalVulkan::device_features_available(1, 1, 1));
    assert!(!InternalVulkan::device_features_available(0, 1, 1));
    assert!(!InternalVulkan::device_features_available(1, 0, 1));
    assert!(!InternalVulkan::device_features_available(1, 1, 0));
    assert!(!InternalVulkan::device_features_available(2, 1, 1));
}

fn device(raw: u64, features: u32, queue_flags: Vec<u32>, surface_support: Vec<bool>) -> PhysicalDeviceInfo {
    PhysicalDeviceInfo {
        device: PhysicalDevice::from_raw(raw),
        sampler_anisotropy: features,
        runtime_descriptor_array: features,
        shader_sampled_image_array_non_uniform_indexing: features,
        queue_flags,
        surface_support,
    }
}

#[test]
fn physical_device_needs_features_and_queue_family() {
    let devices = vec![
        device(1, 0, vec![0x1], vec![true]),
        device(2, 1, vec![0x1], vec![false]),
        device(3, 1, vec![0x2, 0x1], vec![true, true]),
        device(4, 1, vec![0x1], vec![true]),
    ];
    assert_eq!(VulkanWrapper::find_physical_device(&devices), Some((PhysicalDevice::from_raw(3), 1)));
    let unusable = vec![device(1, 0, vec![0x1], vec![true]), device(2, 1, vec![0x1], vec![false])];
    assert_eq!(VulkanWrapper::find_physical_device(&unusable), None);
    assert_eq!(VulkanWrapper::find_physical_device(&Vec::new()), None);
}

#[test]
fn clearing_window_takes_any_device_that_draws_and_presents() {
    let devices = vec![
        simple::DeviceQueues { device: PhysicalDevice::from_raw(7), queue_flags: vec![0x2], surface_support: vec![true] },
        simple::DeviceQueues {
            device: PhysicalDevice::from_raw(8),
            queue_flags: vec![0x1, 0x1],
            surface_support: vec![false, true],
        },
    ];
    assert_eq!(simple::VulkanWrapper::find_physical_device(&devices), Some((PhysicalDevice::from_raw(8), 1)));
    let none: Vec<simple::DeviceQueues> = Vec::new();
    assert_eq!(simple::VulkanWrapper::find_physical_device(&none), None);
}

fn capabilities(min: u32, max: u32) -> SurfaceCapabilities {
    SurfaceCapabilities {
        min_image_count: min,
        max_image_count: max,
        current_extent: Extent { width: 800, height: 600 },
        current_transform: 0x1,
    }
}

#[test]
fn swapchain_takes_one_more_image_than_the_minimum() {
    let formats = vec![SurfaceFormat { format: 50, color_space: 0 }, SurfaceFormat { format: 44, color_space: 0 }];
    let desc = VulkanWrapper::create_swapchain(capabilities(2, 8), &formats, &vec![PRESENT_MODE_FIFO]).unwrap();
    assert_eq!(desc.min_image_count, 3);
    assert_eq!(desc.image_format, 50);
    assert_eq!(desc.image_color_space, 0);
    assert_eq!(desc.image_extent, Extent { width: 800, height: 600 });
    assert_eq!(desc.image_array_layers, 1);
    assert_eq!(desc.image_usage, IMAGE_USAGE_COLOR_ATTACHMENT);
    assert_eq!(desc.image_sharing_mode, SHARING_MODE_EXCLUSIVE);
    assert_eq!(desc.pre_transform, 0x1);
    assert_eq!(desc.composite_alpha, COMPOSITE_ALPHA_OPAQUE);
    assert_eq!(desc.present_mode, PRESENT_MODE_FIFO);
    assert!(desc.clipped);
}

#[test]
fn swapchain_image_count_is_capped() {
    let formats = vec![SurfaceFormat { format: 50, color_space: 0 }];
    let modes = vec![PRESENT_MODE_FIFO];
    assert_eq!(VulkanWrapper::create_swapchain(capabilities(3, 3), &formats, &modes).unwrap().min_image_count, 3);
    // a maximum of zero means no limit, yet the count is capped at it
    assert_eq!(VulkanWrapper::create_swapchain(capabilities(2, 0), &formats, &modes).unwrap().min_image_count, 0);
}

#[test]
fn swapchain_prefers_mailbox() {
    let formats = vec![SurfaceFormat { format: 50, color_space: 0 }];
    let with_mailbox = vec![PRESENT_MODE_IMMEDIATE, PRESENT_MODE_FIFO, PRESENT_MODE_MAILBOX];
    let without = vec![PRESENT_MODE_IMMEDIATE];
    assert_eq!(VulkanWrapper::create_swapchain(capabilities(2, 8), &formats, &with_mailbox).unwrap().present_mode, PRESENT_MODE_MAILBOX);
    assert_eq!(VulkanWrapper::create_swapchain(capabilities(2, 8), &formats, &without).unwrap().present_mode, PRESENT_MODE_FIFO);
    assert_eq!(VulkanWrapper::create_swapchain(capabilities(2, 8), &formats, &Vec::new()).unwrap().present_mode, PRESENT_MODE_FIFO);
}

#[test]
fn swapchain_needs_a_surface_format() {
    assert!(VulkanWrapper::create_swapchain(capabilities(2, 8), &Vec::new(), &vec![PRESENT_MODE_FIFO]).is_none());
}
