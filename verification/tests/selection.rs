//! Startup selection decisions: queue families, device suitability, memory
//! types, formats, and swapchain parameters.

use framepace::device::{
    bytes_eq, check_layer_support, check_physical_device, choose_sample_count, get_depth_format,
    get_memory_type_index, get_supported_format, pick_physical_device, FormatProperties,
    PhysicalDeviceInfo, QueueFamily, QueueFamilyIndices, Tiling,
};
use framepace::error::{Capability, EngineError};
use framepace::factory::{
    plan_buffer, plan_image_upload, plan_upload, required_flags, texture_dimensions_ok,
    MemoryKind, UploadStep,
};
use framepace::surface::{
    choose_extent, choose_image_count, choose_present_mode, choose_surface_format,
    plan_swapchain, PresentMode, SurfaceCapabilities, SurfaceFormat, SwapchainSupport,
};

fn family(graphics: bool, present: bool) -> QueueFamily {
    QueueFamily { supports_graphics: graphics, supports_present: present }
}

fn caps() -> SurfaceCapabilities {
    SurfaceCapabilities {
        min_image_count: 2,
        max_image_count: 8,
        current_width: 640,
        current_height: 480,
        min_width: 1,
        min_height: 1,
        max_width: 4096,
        max_height: 4096,
    }
}

#[test]
fn queue_families_first_indices_win() {
    let families = vec![
        family(false, false),
        family(true, false),
        family(true, true),
        family(false, true),
    ];
    let ix = QueueFamilyIndices::get(&families).unwrap();
    assert_eq!(ix.graphics, 1);
    assert_eq!(ix.present, 2);
}

#[test]
fn queue_families_missing_graphics() {
    let families = vec![family(false, true)];
    let e = QueueFamilyIndices::get(&families).unwrap_err();
    assert_eq!(e, EngineError::MissingCapability { what: Capability::GraphicsQueue });
}

#[test]
fn queue_families_missing_present() {
    let families = vec![family(true, false)];
    let e = QueueFamilyIndices::get(&families).unwrap_err();
    assert_eq!(e, EngineError::MissingCapability { what: Capability::PresentQueue });
}

#[test]
fn queue_families_empty() {
    let families: Vec<QueueFamily> = Vec::new();
    let e = QueueFamilyIndices::get(&families).unwrap_err();
    assert_eq!(e, EngineError::MissingCapability { what: Capability::GraphicsQueue });
}

fn device(ok: bool) -> PhysicalDeviceInfo {
    PhysicalDeviceInfo {
        families: vec![family(true, true)],
        has_required_extensions: ok,
        format_count: if ok { 2 } else { 0 },
        present_mode_count: 1,
    }
}

#[test]
fn physical_device_check_names_missing_capability() {
    assert!(check_physical_device(&device(true)).is_ok());
    let no_ext = PhysicalDeviceInfo { has_required_extensions: false, ..device(true) };
    assert_eq!(
        check_physical_device(&no_ext).unwrap_err(),
        EngineError::MissingCapability { what: Capability::DeviceExtensions }
    );
    let no_fmt = PhysicalDeviceInfo { format_count: 0, ..device(true) };
    assert_eq!(
        check_physical_device(&no_fmt).unwrap_err(),
        EngineError::MissingCapability { what: Capability::SurfaceFormat }
    );
    let no_mode = PhysicalDeviceInfo { present_mode_count: 0, ..device(true) };
    assert_eq!(
        check_physical_device(&no_mode).unwrap_err(),
        EngineError::MissingCapability { what: Capability::PresentMode }
    );
}

#[test]
fn first_suitable_device_is_picked() {
    let devices = vec![device(false), device(true), device(true)];
    assert_eq!(pick_physical_device(&devices).unwrap(), 1);
}

#[test]
fn no_suitable_device_is_reported() {
    let devices = vec![device(false), device(false)];
    assert_eq!(
        pick_physical_device(&devices).unwrap_err(),
        EngineError::MissingCapability { what: Capability::SuitableDevice }
    );
}

#[test]
fn memory_type_respects_admission_bits_and_flags() {
    // type 0 admitted but lacks flags; type 1 not admitted; type 2 fits.
    let flags = vec![0x1, 0x7, 0x6];
    let r = get_memory_type_index(0b101, 0x6, &flags).unwrap();
    assert_eq!(r, 2);
}

#[test]
fn memory_type_first_fit_wins() {
    let flags = vec![0x6, 0x6];
    assert_eq!(get_memory_type_index(0b11, 0x6, &flags).unwrap(), 0);
}

#[test]
fn memory_type_none_fits() {
    let flags = vec![0x2, 0x4];
    assert_eq!(
        get_memory_type_index(0b11, 0x6, &flags).unwrap_err(),
        EngineError::UnsupportedMemoryType
    );
}

#[test]
fn depth_format_first_supported_candidate() {
    let candidates = vec![
        FormatProperties { linear_features: 0x200, optimal_features: 0 },
        FormatProperties { linear_features: 0, optimal_features: 0x200 },
        FormatProperties { linear_features: 0, optimal_features: 0x200 },
    ];
    assert_eq!(get_depth_format(&candidates).unwrap(), 1);
}

#[test]
fn depth_format_missing() {
    let candidates = vec![FormatProperties { linear_features: 0x200, optimal_features: 0 }];
    assert_eq!(
        get_depth_format(&candidates).unwrap_err(),
        EngineError::MissingCapability { what: Capability::DepthFormat }
    );
}

#[test]
fn linear_tiling_reads_linear_features() {
    let candidates = vec![FormatProperties { linear_features: 0x200, optimal_features: 0 }];
    assert_eq!(get_supported_format(&candidates, Tiling::Linear, 0x200).unwrap(), 0);
}

#[test]
fn layer_check_only_binds_when_enabled() {
    let available = vec![b"VK_LAYER_KHRONOS_validation".to_vec(), b"other".to_vec()];
    let wanted = b"VK_LAYER_KHRONOS_validation".to_vec();
    let missing = b"VK_LAYER_missing".to_vec();
    assert!(check_layer_support(true, &available, &wanted).is_ok());
    assert_eq!(
        check_layer_support(true, &available, &missing).unwrap_err(),
        EngineError::MissingCapability { what: Capability::ValidationLayer }
    );
    assert!(check_layer_support(false, &available, &missing).is_ok());
}

#[test]
fn extension_check_wants_every_required_name() {
    let available = vec![b"VK_KHR_swapchain".to_vec(), b"VK_KHR_maintenance1".to_vec()];
    let required = vec![b"VK_KHR_swapchain".to_vec()];
    assert!(framepace::device::check_physical_device_extensions(&available, &required));
    let more = vec![b"VK_KHR_swapchain".to_vec(), b"VK_KHR_other".to_vec()];
    assert!(!framepace::device::check_physical_device_extensions(&available, &more));
    let none: Vec<Vec<u8>> = Vec::new();
    assert!(framepace::device::check_physical_device_extensions(&available, &none));
}

#[test]
fn byte_names_compare_exactly() {
    assert!(bytes_eq(&b"abc".to_vec(), &b"abc".to_vec()));
    assert!(!bytes_eq(&b"abc".to_vec(), &b"abd".to_vec()));
    assert!(!bytes_eq(&b"abc".to_vec(), &b"ab".to_vec()));
}

#[test]
fn preferred_surface_format_wins() {
    let formats = vec![
        SurfaceFormat { format: 44, color_space: 0 },
        SurfaceFormat { format: 50, color_space: 0 },
    ];
    let f = choose_surface_format(&formats);
    assert_eq!(f, SurfaceFormat { format: 50, color_space: 0 });
}

#[test]
fn fallback_surface_format_is_first() {
    let formats = vec![
        SurfaceFormat { format: 44, color_space: 0 },
        SurfaceFormat { format: 37, color_space: 0 },
    ];
    assert_eq!(choose_surface_format(&formats), SurfaceFormat { format: 44, color_space: 0 });
}

#[test]
fn mailbox_preferred_else_fifo() {
    let with = vec![PresentMode::Fifo, PresentMode::Mailbox];
    assert_eq!(choose_present_mode(&with), PresentMode::Mailbox);
    let without = vec![PresentMode::Fifo, PresentMode::Immediate];
    assert_eq!(choose_present_mode(&without), PresentMode::Fifo);
}

#[test]
fn image_count_is_min_plus_one_clamped() {
    let c = caps();
    assert_eq!(choose_image_count(&c), 3);
    let tight = SurfaceCapabilities { min_image_count: 2, max_image_count: 2, ..caps() };
    assert_eq!(choose_image_count(&tight), 2);
    let unbounded = SurfaceCapabilities { min_image_count: 4, max_image_count: 0, ..caps() };
    assert_eq!(choose_image_count(&unbounded), 5);
}

#[test]
fn extent_uses_current_when_defined_else_clamps_hint() {
    let c = caps();
    assert_eq!(choose_extent(&c, 9999, 9999), (640, 480));
    let free = SurfaceCapabilities {
        current_width: u32::MAX,
        current_height: u32::MAX,
        min_width: 100,
        min_height: 100,
        max_width: 800,
        max_height: 600,
        ..caps()
    };
    assert_eq!(choose_extent(&free, 9999, 50), (800, 100));
    assert_eq!(choose_extent(&free, 500, 400), (500, 400));
}

#[test]
fn swapchain_plan_combines_the_choices() {
    let support = SwapchainSupport {
        capabilities: caps(),
        formats: vec![SurfaceFormat { format: 50, color_space: 0 }],
        present_modes: vec![PresentMode::Fifo, PresentMode::Mailbox],
    };
    let cfg = plan_swapchain(&support, 640, 480).unwrap();
    assert_eq!(cfg.format, SurfaceFormat { format: 50, color_space: 0 });
    assert_eq!(cfg.present_mode, PresentMode::Mailbox);
    assert_eq!(cfg.image_count, 3);
    assert_eq!((cfg.width, cfg.height), (640, 480));
}

#[test]
fn swapchain_plan_reports_empty_support() {
    let no_formats = SwapchainSupport {
        capabilities: caps(),
        formats: Vec::new(),
        present_modes: vec![PresentMode::Fifo],
    };
    assert_eq!(
        plan_swapchain(&no_formats, 1, 1).unwrap_err(),
        EngineError::MissingCapability { what: Capability::SurfaceFormat }
    );
    let no_modes = SwapchainSupport {
        capabilities: caps(),
        formats: vec![SurfaceFormat { format: 50, color_space: 0 }],
        present_modes: Vec::new(),
    };
    assert_eq!(
        plan_swapchain(&no_modes, 1, 1).unwrap_err(),
        EngineError::MissingCapability { what: Capability::PresentMode }
    );
}

#[test]
fn image_upload_sequences_the_transitions_around_the_copy() {
    assert_eq!(
        plan_image_upload(4096),
        vec![
            UploadStep::CreateStaging { size: 4096 },
            UploadStep::CopyIntoStaging,
            UploadStep::TransitionToTransferDst,
            UploadStep::CopyToImage,
            UploadStep::TransitionToShaderRead,
            UploadStep::DestroyStaging,
        ]
    );
}

#[test]
fn sample_count_prefers_the_largest_supported() {
    assert_eq!(choose_sample_count(0x7f), 0x40);
    assert_eq!(choose_sample_count(0x0f), 0x08);
    assert_eq!(choose_sample_count(0x01), 0x01);
    assert_eq!(choose_sample_count(0), 0x01);
}

#[test]
fn upload_policy_two_paths() {
    let direct = plan_upload(MemoryKind::HostVisible, 64);
    assert_eq!(direct, vec![UploadStep::MapCopyUnmap]);
    let staged = plan_upload(MemoryKind::DeviceLocal, 64);
    assert_eq!(
        staged,
        vec![
            UploadStep::CreateStaging { size: 64 },
            UploadStep::CopyIntoStaging,
            UploadStep::IssueTransfer,
            UploadStep::WaitTransfer,
            UploadStep::DestroyStaging,
        ]
    );
}

#[test]
fn buffer_plan_uses_kind_flags() {
    assert_eq!(required_flags(MemoryKind::HostVisible), 0x6);
    assert_eq!(required_flags(MemoryKind::DeviceLocal), 0x1);
    let memory_flags = vec![0x6, 0x1];
    let host = plan_buffer(MemoryKind::HostVisible, 0b11, &memory_flags).unwrap();
    assert_eq!(host.memory_type_index, 0);
    let local = plan_buffer(MemoryKind::DeviceLocal, 0b11, &memory_flags).unwrap();
    assert_eq!(local.memory_type_index, 1);
    let none = plan_buffer(MemoryKind::DeviceLocal, 0b01, &memory_flags);
    assert_eq!(none.unwrap_err(), EngineError::UnsupportedMemoryType);
}

#[test]
fn texture_dimensions_are_checked() {
    assert!(texture_dimensions_ok(1024, 1024, true));
    assert!(!texture_dimensions_ok(1024, 512, true));
    assert!(!texture_dimensions_ok(1024, 1024, false));
}

#[test]
fn error_messages_name_the_capability() {
    let e = EngineError::MissingCapability { what: Capability::SuitableDevice };
    assert_eq!(e.message(), "failed to find suitable physical device");
    assert_eq!(EngineError::UnsupportedMemoryType.message(), "no suitable memory type");
}
