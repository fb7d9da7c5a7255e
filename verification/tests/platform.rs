use dyxel_render_vello::settings::{
    env_flag, max_frame_latency_from_setting, parse_unsigned_text, present_mode_from_setting,
    ring_depth_from_setting, setting_flag, surface_ready_wait_ms_from_setting, PresentModeChoice,
};
use dyxel_render_vello::vulkan::{
    custom_device_explicit_extensions, vulkan_api_at_least_1_1, vulkan_api_version_tuple,
    VulkanNativePresenterExtensionSupport, VK_EXT_AHB, VK_EXT_EXTERNAL_SEMAPHORE_FD,
    VK_EXT_QUEUE_FAMILY_FOREIGN,
};

#[test]
fn version_tuple_decodes_packed_versions() {
    let v13 = (1u32 << 22) | (3 << 12) | 250;
    assert_eq!(vulkan_api_version_tuple(v13), (1, 3, 250));
    assert_eq!(vulkan_api_version_tuple(0), (0, 0, 0));
    assert_eq!(vulkan_api_version_tuple(u32::MAX), (1023, 1023, 4095));
    assert!(vulkan_api_at_least_1_1(v13));
    assert!(vulkan_api_at_least_1_1(1 << 22 | 1 << 12));
    assert!(!vulkan_api_at_least_1_1(1 << 22));
    assert!(vulkan_api_at_least_1_1(2 << 22));
    assert!(!vulkan_api_at_least_1_1(0xfff));
}

#[test]
fn extension_support_from_names_and_promotions() {
    let enabled = [VK_EXT_AHB, VK_EXT_EXTERNAL_SEMAPHORE_FD];
    let old = VulkanNativePresenterExtensionSupport::from_enabled_extensions(&enabled, 1 << 22);
    assert!(old.android_hardware_buffer && old.external_semaphore_fd);
    assert!(!old.external_memory && !old.queue_family_foreign);
    assert_eq!(
        old.required_missing(),
        vec!["VK_KHR_external_memory/core1.1", "VK_KHR_external_semaphore/core1.1"]
    );
    assert_eq!(old.advisory_missing().len(), 5);
    let new = VulkanNativePresenterExtensionSupport::from_enabled_extensions(&enabled, 1 << 22 | 1 << 12);
    assert!(new.required_missing().is_empty());
    assert_eq!(new.advisory_missing(), vec!["VK_EXT_queue_family_foreign"]);
    let mut twice = new;
    twice.apply_core_promotions(1 << 22 | 1 << 12);
    assert_eq!(twice, new);
}

#[test]
fn extension_support_from_predicate() {
    let s = VulkanNativePresenterExtensionSupport::from_support_predicate(1 << 22, |name: &str| {
        name == VK_EXT_QUEUE_FAMILY_FOREIGN
    });
    assert!(s.queue_family_foreign);
    assert!(!s.android_hardware_buffer && !s.bind_memory2);
    assert_eq!(s.required_missing().len(), 4);
    assert_eq!(
        s.describe(),
        "AHB=false external_memory=false external_memory_fd=false external_semaphore=false \
external_semaphore_fd=false dedicated_allocation=false get_memory_requirements2=false \
bind_memory2=false queue_family_foreign=true sampler_ycbcr_conversion=false"
    );
}

#[test]
fn explicit_extensions_keep_order() {
    let all = custom_device_explicit_extensions(|_: &str| true);
    assert_eq!(all.len(), 10);
    assert_eq!(all[0], VK_EXT_AHB);
    let some = custom_device_explicit_extensions(|n: &str| n.contains("semaphore"));
    assert_eq!(some, vec!["VK_KHR_external_semaphore", "VK_KHR_external_semaphore_fd"]);
    assert!(custom_device_explicit_extensions(|_: &str| false).is_empty());
}

#[test]
fn flags_from_settings() {
    for off in ["0", "false", "FALSE", "no", "NO", ""] {
        assert!(!setting_flag(Some(off), true), "{:?}", off);
    }
    for on in ["1", "true", "yes", "False", " 0"] {
        assert!(setting_flag(Some(on), false), "{:?}", on);
    }
    assert!(setting_flag(None, true));
    assert!(!setting_flag(None, false));
    assert!(env_flag(Some("")));
    assert!(!env_flag(Some("no")));
    assert!(!env_flag(None));
}

#[test]
fn unsigned_parsing_like_std() {
    for (text, max) in [("0", u64::MAX), ("42", u64::MAX), ("+7", 10), ("007", 10), ("18446744073709551615", u64::MAX)] {
        assert_eq!(parse_unsigned_text(text, max), text.parse::<u64>().ok(), "{:?}", text);
    }
    for text in ["", "+", "-1", "1a", " 1", "18446744073709551616", "4.0"] {
        assert_eq!(parse_unsigned_text(text, u64::MAX), None, "{:?}", text);
    }
    assert_eq!(parse_unsigned_text("11", 10), None);
    assert_eq!(parse_unsigned_text("10", 10), Some(10));
}

#[test]
fn numeric_settings_with_defaults_and_clamps() {
    assert_eq!(ring_depth_from_setting(None), 3);
    assert_eq!(ring_depth_from_setting(Some("1")), 2);
    assert_eq!(ring_depth_from_setting(Some("4")), 4);
    assert_eq!(ring_depth_from_setting(Some("9")), 4);
    assert_eq!(ring_depth_from_setting(Some("x")), 3);
    assert_eq!(max_frame_latency_from_setting(None), 2);
    assert_eq!(max_frame_latency_from_setting(Some("0")), 1);
    assert_eq!(max_frame_latency_from_setting(Some("3")), 3);
    assert_eq!(max_frame_latency_from_setting(Some("5000000000")), 2);
    assert_eq!(surface_ready_wait_ms_from_setting(None), 6);
    assert_eq!(surface_ready_wait_ms_from_setting(Some("25")), 25);
    assert_eq!(surface_ready_wait_ms_from_setting(Some("-1")), 6);
}

#[test]
fn present_mode_ignores_ascii_case() {
    assert_eq!(present_mode_from_setting(Some("fifo")), PresentModeChoice::Fifo);
    assert_eq!(present_mode_from_setting(Some("FIFO")), PresentModeChoice::Fifo);
    assert_eq!(present_mode_from_setting(Some("Immediate")), PresentModeChoice::Immediate);
    assert_eq!(present_mode_from_setting(Some("mailbox")), PresentModeChoice::Mailbox);
    assert_eq!(present_mode_from_setting(Some("fif")), PresentModeChoice::Mailbox);
    assert_eq!(present_mode_from_setting(Some("fifo ")), PresentModeChoice::Mailbox);
    assert_eq!(present_mode_from_setting(None), PresentModeChoice::Mailbox);
}
