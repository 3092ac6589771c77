use wgpu_interop::callbacks::{DeviceLostCallback, HalInteropCallbacks};
use wgpu_interop::device::{
    plan_device_from_vulkan, DeviceImport, DeviceImportAction, LimitsPreset, MemoryHints,
    INTEROP_CONTEXT_NAME, INTEROP_DEVICE_LABEL,
};
use wgpu_interop::format::{vk_format_from_c, vk_format_to_wgpu, TextureFormat};
use wgpu_interop::metal::{metal_label_is_present, plan_metal_texture};
use wgpu_interop::sequence::{SequenceStatus, StepOutcome, StepSequence};
use wgpu_interop::texture::{
    plan_vulkan_image_import, texture_data, Extent3d, ImportRefusal, TextureDimension,
    TextureImport, TextureImportAction, IMPORTED_IMAGE_LABEL,
};
use wgpu_interop::usage::{imported_hal_usage, imported_texture_usage};

#[test]
fn supported_vk_formats_translate() {
    assert_eq!(vk_format_to_wgpu(43), Some(TextureFormat::Rgba8UnormSrgb));
    assert_eq!(vk_format_to_wgpu(37), Some(TextureFormat::Rgba8Unorm));
    assert_eq!(vk_format_to_wgpu(50), Some(TextureFormat::Bgra8UnormSrgb));
    assert_eq!(vk_format_to_wgpu(44), Some(TextureFormat::Bgra8Unorm));
    assert_eq!(vk_format_to_wgpu(97), Some(TextureFormat::Rgba16Float));
    assert_eq!(vk_format_to_wgpu(64), Some(TextureFormat::Rgb10a2Unorm));
    assert_eq!(vk_format_to_wgpu(129), Some(TextureFormat::Depth24PlusStencil8));
    assert_eq!(vk_format_to_wgpu(126), Some(TextureFormat::Depth32Float));
}

#[test]
fn unsupported_vk_formats_are_refused() {
    for code in [0, 1, 36, 38, 42, 45, 49, 51, 63, 65, 96, 98, 125, 127, 128, 130, -43, i32::MAX, i32::MIN] {
        assert_eq!(vk_format_to_wgpu(code), None, "code {}", code);
    }
}

#[test]
fn translation_is_injective_on_concrete_codes() {
    let codes = [43, 37, 50, 44, 97, 64, 129, 126];
    for (i, a) in codes.iter().enumerate() {
        for (j, b) in codes.iter().enumerate() {
            if i != j {
                assert_ne!(vk_format_to_wgpu(*a), vk_format_to_wgpu(*b));
            }
        }
    }
}

#[test]
fn c_format_values_are_read_bit_for_bit() {
    assert_eq!(vk_format_from_c(43), 43);
    assert_eq!(vk_format_from_c(u32::MAX), -1);
    assert_eq!(vk_format_from_c(0x8000_0000), i32::MIN);
    assert_eq!(vk_format_from_c(0x7fff_ffff), i32::MAX);
}

#[test]
fn default_device_lost_is_the_default_handler() {
    assert_eq!(HalInteropCallbacks::default_device_lost(), DeviceLostCallback::DefaultHandler);
}

#[test]
fn usage_bits_come_from_wgpu_types() {
    assert_eq!(imported_texture_usage(), 18);
    assert_eq!(
        imported_texture_usage(),
        (wgpu_types::TextureUsages::RENDER_ATTACHMENT | wgpu_types::TextureUsages::COPY_DST).bits()
    );
    assert_eq!(imported_hal_usage(), 40);
    assert_eq!(
        imported_hal_usage(),
        (wgpu_types::TextureUses::COLOR_TARGET | wgpu_types::TextureUses::COPY_DST).bits()
    );
}

#[test]
fn device_plan_ignores_requested_queue_index() {
    let plan = plan_device_from_vulkan(0x10, 0x20, 0x30, 2, 7);
    assert_eq!(plan.vk_instance, 0x10);
    assert_eq!(plan.vk_physical_device, 0x20);
    assert_eq!(plan.vk_device, 0x30);
    assert_eq!(plan.queue_family_index, 2);
    assert_eq!(plan.queue_index, 0);
    assert_eq!(plan.api_version, ash::vk::API_VERSION_1_1);
    assert_eq!(plan.api_version, 4198400);
    assert_eq!(plan.android_sdk_version, 0);
    assert!(!plan.has_nv_optimus);
    assert!(!plan.debug_messenger);
    assert_eq!(plan.instance_extension_count, 0);
    assert_eq!(plan.instance_flags, 0);
    assert_eq!(wgpu_types::InstanceFlags::from_bits_truncate(plan.instance_flags), wgpu_types::InstanceFlags::empty());
    assert_eq!(plan.budget_for_resource_creation, None);
    assert_eq!(plan.budget_for_device_loss, None);
    assert!(plan.instance_drop_callback);
    assert!(plan.device_drop_callback);
    assert_eq!(plan.device_extension_count, 0);
    assert_eq!(plan.device_features, [0, 0]);
    assert_eq!(wgpu_types::Features::from_bits_truncate(wgpu_types::FeatureBits(plan.device_features)), wgpu_types::Features::empty());
    assert_eq!(plan.device_memory_hints, MemoryHints::Performance);
    assert_eq!(plan.required_features, [0, 0]);
    assert_eq!(plan.required_limits, LimitsPreset::Default);
    assert_eq!(plan.memory_hints, MemoryHints::Performance);
    assert!(!plan.experimental_features);
    assert!(!plan.trace);
    assert_eq!(plan.context_name, "wgpu-vk-interop");
    assert_eq!(plan.device_label, "vk-interop-device");
    assert_eq!(INTEROP_CONTEXT_NAME, "wgpu-vk-interop");
    assert_eq!(INTEROP_DEVICE_LABEL, "vk-interop-device");
    assert_eq!(plan.device_lost, DeviceLostCallback::DefaultHandler);
}

#[test]
fn device_import_runs_all_steps_in_order() {
    let mut import = DeviceImport::start(plan_device_from_vulkan(1, 2, 3, 0, 0));
    assert_eq!(import.next_action(), DeviceImportAction::LoadVulkanEntry);
    let expected = [
        DeviceImportAction::CreateHalInstance,
        DeviceImportAction::ExposeAdapter,
        DeviceImportAction::OpenHalAdapter,
        DeviceImportAction::OpenDevice,
        DeviceImportAction::CreateDevice,
        DeviceImportAction::Finish,
    ];
    for action in expected {
        assert_eq!(import.report(StepOutcome::Succeeded), action);
    }
    assert_eq!(import.report(StepOutcome::Failed), DeviceImportAction::Finish);
    assert_eq!(import.plan_ref().vk_device, 3);
}

#[test]
fn device_import_stops_at_first_failure() {
    for failing_step in 0..6 {
        for outcome in [StepOutcome::Failed, StepOutcome::Panicked] {
            let mut import = DeviceImport::start(plan_device_from_vulkan(1, 2, 3, 0, 0));
            for _ in 0..failing_step {
                assert_ne!(import.report(StepOutcome::Succeeded), DeviceImportAction::ReturnNull);
            }
            assert_eq!(import.report(outcome), DeviceImportAction::ReturnNull);
            assert_eq!(import.report(StepOutcome::Succeeded), DeviceImportAction::ReturnNull);
            assert_eq!(import.next_action(), DeviceImportAction::ReturnNull);
        }
    }
}

#[test]
fn image_plan_describes_a_2d_render_target() {
    let plan = plan_vulkan_image_import(false, 0xabc, 44, 1920, 1080, 2, 3, 4).unwrap();
    assert_eq!(plan.vk_image, 0xabc);
    assert_eq!(plan.label, "imported_vk_image");
    assert_eq!(IMPORTED_IMAGE_LABEL, "imported_vk_image");
    assert_eq!(plan.size, Extent3d { width: 1920, height: 1080, depth_or_array_layers: 2 });
    assert_eq!(plan.mip_level_count, 3);
    assert_eq!(plan.sample_count, 4);
    assert_eq!(plan.dimension, TextureDimension::D2);
    assert_eq!(plan.format, TextureFormat::Bgra8Unorm);
    assert_eq!(plan.hal_usage, 40);
    assert_eq!(plan.usage, 18);
    assert!(plan.image_drop_callback);
    assert_eq!(plan.hal_memory_flags, 0);
    assert!(plan.hal_view_formats.is_empty());
    assert!(plan.view_formats.is_empty());
    let data = texture_data(&plan);
    assert_eq!(data.usage, 18u64);
    assert_eq!(data.dimension, TextureDimension::D2);
    assert_eq!(data.size, plan.size);
    assert_eq!(data.format, TextureFormat::Bgra8Unorm);
    assert_eq!(data.mip_level_count, 3);
    assert_eq!(data.sample_count, 4);
    assert!(!data.has_surface);
    assert!(!data.surface_presented);
}

#[test]
fn image_import_refusals() {
    assert_eq!(
        plan_vulkan_image_import(true, 1, 43, 1, 1, 1, 1, 1).unwrap_err(),
        ImportRefusal::NullDevice
    );
    assert_eq!(
        plan_vulkan_image_import(true, 1, 5, 1, 1, 1, 1, 1).unwrap_err(),
        ImportRefusal::NullDevice
    );
    assert_eq!(
        plan_vulkan_image_import(false, 1, 5, 1, 1, 1, 1, 1).unwrap_err(),
        ImportRefusal::UnsupportedFormat
    );
    assert_eq!(
        plan_vulkan_image_import(false, 1, 43 + (1u32 << 31), 1, 1, 1, 1, 1).unwrap_err(),
        ImportRefusal::UnsupportedFormat
    );
}

#[test]
fn texture_import_steps() {
    let plan = plan_vulkan_image_import(false, 9, 126, 8, 8, 1, 1, 1).unwrap();
    let mut import = TextureImport::start(plan.clone());
    assert_eq!(import.next_action(), TextureImportAction::AcquireHalDevice);
    assert_eq!(import.report(StepOutcome::Succeeded), TextureImportAction::WrapImage);
    assert_eq!(import.report(StepOutcome::Succeeded), TextureImportAction::ReleaseHalDevice);
    assert_eq!(import.report(StepOutcome::Succeeded), TextureImportAction::RegisterTexture);
    assert_eq!(import.report(StepOutcome::Succeeded), TextureImportAction::Finish);
    assert_eq!(import.plan_ref().format, TextureFormat::Depth32Float);

    let mut failed = TextureImport::start(plan.clone());
    assert_eq!(failed.report(StepOutcome::Failed), TextureImportAction::ReturnNull);
    assert_eq!(failed.report(StepOutcome::Succeeded), TextureImportAction::ReturnNull);

    let mut panicked = TextureImport::start(plan);
    assert_eq!(panicked.report(StepOutcome::Succeeded), TextureImportAction::WrapImage);
    assert_eq!(panicked.report(StepOutcome::Succeeded), TextureImportAction::ReleaseHalDevice);
    assert_eq!(panicked.report(StepOutcome::Succeeded), TextureImportAction::RegisterTexture);
    assert_eq!(panicked.report(StepOutcome::Panicked), TextureImportAction::ReturnNull);
}

#[test]
fn step_sequence_counts_and_ends() {
    let mut run = StepSequence::new(3);
    assert_eq!(run.current_status(), SequenceStatus::Running);
    assert_eq!(run.record(StepOutcome::Succeeded), SequenceStatus::Running);
    assert_eq!(run.completed_steps(), 1);
    assert_eq!(run.record(StepOutcome::Succeeded), SequenceStatus::Running);
    assert_eq!(run.record(StepOutcome::Succeeded), SequenceStatus::Finished);
    assert_eq!(run.completed_steps(), 3);
    assert_eq!(run.record(StepOutcome::Succeeded), SequenceStatus::Finished);
    assert_eq!(run.completed_steps(), 3);

    let mut aborted = StepSequence::new(3);
    aborted.record(StepOutcome::Succeeded);
    assert_eq!(aborted.record(StepOutcome::Panicked), SequenceStatus::Aborted);
    assert_eq!(aborted.completed_steps(), 1);
    assert_eq!(aborted.record(StepOutcome::Succeeded), SequenceStatus::Aborted);
    assert_eq!(aborted.completed_steps(), 1);
}

#[test]
fn metal_labels() {
    assert!(metal_label_is_present(false, 5));
    assert!(!metal_label_is_present(true, 5));
    assert!(!metal_label_is_present(false, 0));
    assert!(!metal_label_is_present(true, 0));
    let plan = plan_metal_texture(false, 3, 256, 128, 6, 9, 1);
    assert!(plan.has_label);
    assert_eq!(plan.size, Extent3d { width: 256, height: 128, depth_or_array_layers: 6 });
    assert_eq!(plan.mip_level_count, 9);
    assert_eq!(plan.sample_count, 1);
    assert_eq!(plan.memory_flags, 0);
    assert!(plan.view_formats.is_empty());
    assert!(!plan_metal_texture(true, 3, 1, 1, 1, 1, 1).has_label);
}
