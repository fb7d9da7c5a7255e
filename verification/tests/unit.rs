use dyxel_render_vello::foreign_texture::BridgeError;
use dyxel_render_vello::minimal_shaders::{estimate_time_savings_ms, shaders_up_to, ShaderStage};
use dyxel_render_vello::offscreen::LayerId;

#[test]
fn test_bridge_error_display() {
    let err = BridgeError::InvalidHandle("test".into());
    assert!(err.message().contains("Invalid handle"));
}

/// Pass 1 renders the scene texture in screen Y-down order, so the blur
/// source copy uses the screen Y as it is.
#[test]
fn test_blur_copy_y_uses_screen_y() {
    let src_y = 200.0f32;

    let copy_y = src_y.max(0.0) as u32;
    assert_eq!(copy_y, 200);
}

#[test]
fn test_blur_padding_calculation() {
    let blur_radius = 10.0f64;
    let padding = (blur_radius * 2.5).ceil() as u32;

    // 10.0 * 2.5 = 25.0, ceil = 25
    assert_eq!(padding, 25);

    let texture_width = (120.0f64 as u32 + padding * 2).max(1);
    let texture_height = (120.0f64 as u32 + padding * 2).max(1);

    // 120 + 25 * 2 = 170
    assert_eq!(texture_width, 170);
    assert_eq!(texture_height, 170);
}

#[test]
fn test_padding_consistency() {
    let blur_radius = 10.0;
    let node_width = 120.0;
    let node_height = 120.0;

    let padding = (blur_radius as f64 * 2.5).ceil() as u32;

    let texture_width = (node_width as u32 + padding * 2).max(1);
    let texture_height = (node_height as u32 + padding * 2).max(1);

    // Padding is applied equally on both sides.
    let inner_width = texture_width - padding * 2;
    let inner_height = texture_height - padding * 2;

    assert_eq!(inner_width, node_width as u32);
    assert_eq!(inner_height, node_height as u32);
}

#[test]
fn test_frosted_glass_color() {
    let color = (255u32, 255, 255, 180);

    // Premultiplied, as the blur composite shader does.
    let alpha = color.3 as f32 / 255.0;
    let r = (color.0 as f32 / 255.0) * alpha;
    let g = (color.1 as f32 / 255.0) * alpha;
    let b = (color.2 as f32 / 255.0) * alpha;

    assert!((r - 0.705).abs() < 0.01, "R should be ~0.705, got {}", r);
    assert!((g - 0.705).abs() < 0.01, "G should be ~0.705, got {}", g);
    assert!((b - 0.705).abs() < 0.01, "B should be ~0.705, got {}", b);
}

#[test]
fn test_minimal_shaders_count() {
    assert_eq!(ShaderStage::Minimal.shader_names().len(), 6);
}

#[test]
fn test_shaders_up_to() {
    let minimal = shaders_up_to(ShaderStage::Minimal);
    assert_eq!(minimal.len(), 6);

    let extended = shaders_up_to(ShaderStage::Extended);
    assert_eq!(extended.len(), 6 + 7); // Minimal + Extended
}

#[test]
fn test_time_savings() {
    let (time, saved) = estimate_time_savings_ms(ShaderStage::Minimal);
    let full = ShaderStage::Complete.estimated_time_ms();
    let pct = (saved as f64 / full as f64) * 100.0;
    assert_eq!(time, 400);
    assert_eq!(saved, 1400);
    assert!(pct > 70.0); // Should save >70%
}

#[test]
fn test_layer_id_generation() {
    let id = LayerId(0);
    assert_eq!(id.next(), LayerId(1));
    assert_eq!(LayerId(5).next(), LayerId(6));
}
