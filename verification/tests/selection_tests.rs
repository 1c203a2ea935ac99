use cpyte_engine::image::ImageFormat;
use cpyte_engine::memory::{memory_type_index, MemoryType};
use cpyte_engine::physical_device::{
    device_suitable, has_extension, msaa_supported, pick_physical_device, supports_extensions,
    DeviceProfile, DeviceType,
};
use cpyte_engine::queue_family::{
    present_queue_family, queue_family_with_flags, unique_queue_families,
};
use cpyte_engine::swapchain::{
    choose_present_mode, choose_surface_format, swapchain_config, swapchain_sharing, ColorSpace,
    PresentMode, SharingMode, SurfaceFormat,
};

const GRAPHICS_BIT: u32 = 0x1;
const COMPUTE_BIT: u32 = 0x2;

#[test]
fn srgb_pair_is_chosen_when_offered() {
    let formats = vec![
        SurfaceFormat { format: ImageFormat::B8G8R8A8Unorm, color_space: ColorSpace::SrgbNonlinear },
        SurfaceFormat { format: ImageFormat::B8G8R8A8Srgb, color_space: ColorSpace::SrgbNonlinear },
    ];
    let chosen = choose_surface_format(&formats);
    assert_eq!(
        chosen,
        SurfaceFormat { format: ImageFormat::B8G8R8A8Srgb, color_space: ColorSpace::SrgbNonlinear }
    );
}

#[test]
fn unorm_fallback_when_srgb_pair_missing() {
    let formats = vec![
        SurfaceFormat { format: ImageFormat::R8G8B8A8Srgb, color_space: ColorSpace::SrgbNonlinear },
        SurfaceFormat { format: ImageFormat::B8G8R8A8Srgb, color_space: ColorSpace::Other(7) },
    ];
    let chosen = choose_surface_format(&formats);
    assert_eq!(
        chosen,
        SurfaceFormat { format: ImageFormat::B8G8R8A8Unorm, color_space: ColorSpace::SrgbNonlinear }
    );
}

#[test]
fn mailbox_chosen_when_available() {
    let modes = vec![PresentMode::Fifo, PresentMode::Mailbox, PresentMode::Immediate];
    assert_eq!(choose_present_mode(&modes), PresentMode::Mailbox);
}

#[test]
fn fifo_fallback_without_mailbox() {
    let modes = vec![PresentMode::Fifo, PresentMode::Immediate, PresentMode::FifoRelaxed];
    assert_eq!(choose_present_mode(&modes), PresentMode::Fifo);
    let none: Vec<PresentMode> = Vec::new();
    assert_eq!(choose_present_mode(&none), PresentMode::Fifo);
}

#[test]
fn sharing_is_exclusive_for_one_family() {
    let plan = swapchain_sharing(3, 3);
    assert_eq!(plan.mode, SharingMode::Exclusive);
    assert!(plan.queue_family_indices.is_empty());
}

#[test]
fn sharing_is_concurrent_for_two_families() {
    let plan = swapchain_sharing(0, 2);
    assert_eq!(plan.mode, SharingMode::Concurrent);
    assert_eq!(plan.queue_family_indices, vec![0, 2]);
}

#[test]
fn swapchain_config_collects_every_decision() {
    let formats = vec![
        SurfaceFormat { format: ImageFormat::B8G8R8A8Srgb, color_space: ColorSpace::SrgbNonlinear },
    ];
    let modes = vec![PresentMode::Mailbox];
    let config = swapchain_config(&formats, &modes, 3, 1, 1);
    assert_eq!(
        config.format,
        SurfaceFormat { format: ImageFormat::B8G8R8A8Srgb, color_space: ColorSpace::SrgbNonlinear }
    );
    assert_eq!(config.present_mode, PresentMode::Mailbox);
    assert_eq!(config.min_image_count, 3);
    assert_eq!(config.sharing.mode, SharingMode::Exclusive);
    assert_eq!(config.image_array_layers, 1);
    assert!(config.clipped);
}

#[test]
fn memory_type_selection_respects_bits_and_flags() {
    let types = vec![
        MemoryType { property_flags: 0b0001 },
        MemoryType { property_flags: 0b0110 },
        MemoryType { property_flags: 0b0110 },
    ];
    // Type bits admit indexes 1 and 2; both carry the flags; the first wins.
    assert_eq!(memory_type_index(&types, 0b110, 0b0110), Some(1));
    // Type bits admit only index 0, which lacks the flags.
    assert_eq!(memory_type_index(&types, 0b001, 0b0110), None);
    // Index 0 qualifies when only its flag is required.
    assert_eq!(memory_type_index(&types, 0b111, 0b0001), Some(0));
}

#[test]
fn graphics_family_is_first_with_the_flag() {
    let families = vec![COMPUTE_BIT, COMPUTE_BIT | GRAPHICS_BIT, GRAPHICS_BIT];
    assert_eq!(queue_family_with_flags(&families, GRAPHICS_BIT), Some(1));
    assert_eq!(queue_family_with_flags(&families, 0x8), None);
}

#[test]
fn present_family_is_first_supported() {
    assert_eq!(present_queue_family(&vec![false, false, true, true]), Some(2));
    assert_eq!(present_queue_family(&vec![false, false]), None);
}

#[test]
fn distinct_families_are_listed_once_each() {
    assert_eq!(unique_queue_families(4, 4), vec![4]);
    assert_eq!(unique_queue_families(0, 1), vec![0, 1]);
}

#[test]
fn device_selection_needs_gpu_anisotropy_and_extensions() {
    let swapchain_ext = String::from("VK_KHR_swapchain");
    let required = vec![swapchain_ext.clone()];
    let good = DeviceProfile {
        device_type: DeviceType::DiscreteGpu,
        sampler_anisotropy: true,
        extensions: vec![String::from("VK_KHR_maintenance1"), swapchain_ext.clone()],
    };
    let no_anisotropy = DeviceProfile {
        device_type: DeviceType::DiscreteGpu,
        sampler_anisotropy: false,
        extensions: vec![swapchain_ext.clone()],
    };
    let not_a_gpu = DeviceProfile {
        device_type: DeviceType::Other(4),
        sampler_anisotropy: true,
        extensions: vec![swapchain_ext.clone()],
    };
    let missing_extension = DeviceProfile {
        device_type: DeviceType::IntegratedGpu,
        sampler_anisotropy: true,
        extensions: vec![String::from("VK_KHR_maintenance1")],
    };
    assert!(device_suitable(&good, &required));
    assert!(!device_suitable(&no_anisotropy, &required));
    assert!(!device_suitable(&not_a_gpu, &required));
    assert!(!device_suitable(&missing_extension, &required));
    assert!(has_extension(&good.extensions, &swapchain_ext));
    assert!(supports_extensions(&good.extensions, &required));
    assert!(!supports_extensions(&missing_extension.extensions, &required));
    let profiles = vec![no_anisotropy, not_a_gpu, good, missing_extension];
    assert_eq!(pick_physical_device(&profiles, &required), Some(2));
    let empty: Vec<DeviceProfile> = Vec::new();
    assert_eq!(pick_physical_device(&empty, &required), None);
}

#[test]
fn msaa_support_needs_a_shared_bit() {
    assert!(msaa_supported(0b1111, 0b0100));
    assert!(msaa_supported(1, 1));
    assert!(!msaa_supported(0b1100, 0b0011));
    assert!(!msaa_supported(0, 0b1111));
}
