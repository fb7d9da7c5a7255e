use dyxel_render_vello::backend::{
    after_renderer_created, frame_start, init_thread_count, FrameStart, AaSupportChoice, DeviceMemoryTier, RendererFollowUp,
    RendererLoadPlan, VelloBackend,
    VelloBackendFactory, VelloDrawingBackend, VelloGraphicsFactory,
};
use dyxel_render_vello::filter::FilterError;
use dyxel_render_vello::foreign_texture::{BridgeError, ForeignTextureFormat};
use dyxel_render_vello::layer::{BlendMode, CacheHint, LayerId};
use dyxel_render_vello::offscreen::{LayerId as OffscreenLayerId, OffscreenError};
use dyxel_render_vello::texture_pool::{TextureId, TexturePoolConfig};

#[test]
fn renderer_load_happens_once() {
    let mut b = VelloBackend::new();
    assert!(!b.is_renderer_ready());
    assert!(!b.is_renderer_loading());
    // no start-up information yet
    assert_eq!(b.begin_renderer_load(), None);
    b.store_deferred_init_info(None);
    let plan = b.begin_renderer_load().unwrap();
    assert_eq!(
        plan,
        RendererLoadPlan { aa_support: AaSupportChoice::AreaOnly, needs_full_load: true, is_first_launch: true }
    );
    assert!(b.is_renderer_loading());
    assert_eq!(b.begin_renderer_load(), None);
    b.finish_renderer_load(true);
    assert!(b.is_renderer_ready());
    assert!(!b.is_renderer_loading());
    b.store_deferred_init_info(Some(2));
    assert_eq!(b.begin_renderer_load(), None);
}

#[test]
fn renderer_load_plans_by_cache_stage() {
    let mut b = VelloBackend::new();
    b.store_deferred_init_info(Some(1));
    assert_eq!(
        b.begin_renderer_load(),
        Some(RendererLoadPlan { aa_support: AaSupportChoice::All, needs_full_load: true, is_first_launch: false })
    );
    b.finish_renderer_load(false);
    assert!(!b.is_renderer_ready());
    b.store_deferred_init_info(Some(2));
    assert_eq!(
        b.begin_renderer_load(),
        Some(RendererLoadPlan { aa_support: AaSupportChoice::All, needs_full_load: false, is_first_launch: false })
    );
}

#[test]
fn init_threads_by_tier() {
    assert_eq!(init_thread_count(DeviceMemoryTier::LowEnd, Some(8)), Some(2));
    assert_eq!(init_thread_count(DeviceMemoryTier::MidRange, None), Some(4));
    assert_eq!(init_thread_count(DeviceMemoryTier::HighEnd, Some(8)), Some(8));
    assert_eq!(init_thread_count(DeviceMemoryTier::HighEnd, Some(0)), None);
    assert_eq!(init_thread_count(DeviceMemoryTier::HighEnd, None), None);
}

#[test]
fn perf_overlay_on_and_off() {
    let mut b = VelloBackend::new();
    assert!(!b.is_perf_overlay_visible());
    b.enable_perf_overlay();
    b.enable_perf_overlay();
    assert!(b.is_perf_overlay_visible());
    b.disable_perf_overlay();
    assert!(!b.is_perf_overlay_visible());
    b.disable_perf_overlay();
    assert!(!b.is_perf_overlay_visible());
}

#[test]
fn drawing_backend_holds_data_dir() {
    let d = VelloDrawingBackend::new();
    assert_eq!(d.data_dir(), "");
    assert!(!d.vello_backend().is_renderer_ready());
    let mut e = VelloDrawingBackend::with_data_dir("/data/app".to_string());
    assert_eq!(e.data_dir(), "/data/app");
    e.vello_backend_mut().enable_perf_overlay();
    assert!(e.vello_backend().is_perf_overlay_visible());
    let _ = VelloBackendFactory::new();
    let _ = VelloGraphicsFactory::new();
}

#[test]
fn error_messages() {
    assert_eq!(BridgeError::PlatformNotSupported("web".into()).message(), "Platform not supported: web");
    assert_eq!(BridgeError::InvalidHandle("null".into()).message(), "Invalid handle: null");
    assert_eq!(BridgeError::ImportFailed("x".into()).message(), "Import failed: x");
    assert_eq!(BridgeError::DeviceError("lost".into()).message(), "Device error: lost");
    assert_eq!(BridgeError::FormatNotSupported("r8".into()).message(), "Format not supported: r8");
    assert_eq!(FilterError::DeviceNotInitialized.message(), "GPU device not initialized");
    assert_eq!(FilterError::ShaderCompilationFailed("e".into()).message(), "Shader compilation failed: e");
    assert_eq!(FilterError::InvalidFilterParameters("r".into()).message(), "Invalid filter parameters: r");
    assert_eq!(FilterError::OutOfMemory.message(), "Out of GPU memory");
    assert_eq!(OffscreenError::PoolExhausted.message(), "Texture pool exhausted");
    assert_eq!(OffscreenError::DeviceNotInitialized.message(), "Device not initialized");
    assert_eq!(
        OffscreenError::from_filter(FilterError::OutOfMemory).message(),
        "Filter error: Out of GPU memory"
    );
    assert_eq!(
        OffscreenError::InvalidLayerOperation("Layer stack is empty".into()).message(),
        "Invalid layer operation: Layer stack is empty"
    );
    assert_eq!(OffscreenError::MemoryBudgetExceeded.message(), "Memory budget exceeded");
}

#[test]
fn ids_and_defaults() {
    assert_eq!(LayerId(41).next(), LayerId(42));
    assert_eq!(LayerId::default(), LayerId(0));
    assert_eq!(OffscreenLayerId(u32::MAX - 1).next(), OffscreenLayerId(u32::MAX));
    assert_eq!(BlendMode::default(), BlendMode::Normal);
    assert_eq!(CacheHint::default(), CacheHint::Auto);
    let c = TexturePoolConfig::default();
    assert_eq!((c.max_per_bucket, c.max_total_bytes), (16, 64 * 1024 * 1024));
    assert_eq!(TextureId(3), TextureId(3));
    assert_ne!(ForeignTextureFormat::Rgba8Unorm, ForeignTextureFormat::Bgra8Unorm);
}

#[test]
fn follow_up_after_renderer_creation() {
    let mut b = VelloBackend::new();
    b.store_deferred_init_info(None);
    let first = b.begin_renderer_load().unwrap();
    assert_eq!(
        after_renderer_created(&first, DeviceMemoryTier::MidRange),
        RendererFollowUp { save_stage1_cache: true, upgrade_to_full_aa: true }
    );
    assert_eq!(
        after_renderer_created(&first, DeviceMemoryTier::LowEnd),
        RendererFollowUp { save_stage1_cache: true, upgrade_to_full_aa: false }
    );
    let mut b = VelloBackend::new();
    b.store_deferred_init_info(Some(1));
    let stage1 = b.begin_renderer_load().unwrap();
    assert_eq!(
        after_renderer_created(&stage1, DeviceMemoryTier::HighEnd),
        RendererFollowUp { save_stage1_cache: true, upgrade_to_full_aa: false }
    );
    let mut b = VelloBackend::new();
    b.store_deferred_init_info(Some(2));
    let full = b.begin_renderer_load().unwrap();
    assert_eq!(
        after_renderer_created(&full, DeviceMemoryTier::HighEnd),
        RendererFollowUp { save_stage1_cache: false, upgrade_to_full_aa: false }
    );
}

#[test]
fn frame_start_clears_until_ready_and_skips_empty_viewports() {
    assert_eq!(frame_start(false, 0, 0), FrameStart::ClearSurface);
    assert_eq!(frame_start(false, 800, 600), FrameStart::ClearSurface);
    assert_eq!(frame_start(true, 0, 600), FrameStart::Skip);
    assert_eq!(frame_start(true, 800, 0), FrameStart::Skip);
    assert_eq!(frame_start(true, 800, 600), FrameStart::Render);
}

#[test]
fn factories_name_vello_and_state_capabilities() {
    let factory = VelloGraphicsFactory::new();
    assert_eq!(factory.backend_name(), "vello");
    let caps = factory.capabilities();
    assert!(caps.perf_overlay);
    assert!(caps.gpu_timing);
    assert!(caps.renderer_warmup);
    assert!(caps.main_thread_surface_creation);
    assert!(!caps.main_thread_rendering);
    assert!(caps.explicit_present);
    let backend = factory.create_backend();
    assert!(!backend.vello_backend().is_renderer_ready());
    assert_eq!(backend.data_dir(), "");
    let legacy = VelloBackendFactory::default();
    assert_eq!(legacy.name(), "vello");
    let b = legacy.create();
    assert!(!b.is_renderer_ready());
    assert!(!b.is_renderer_loading());
    let _ = VelloGraphicsFactory::default();
}
