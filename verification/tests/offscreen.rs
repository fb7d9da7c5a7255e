use dyxel_render_vello::offscreen::{LayerId, OffscreenContext, OffscreenError};

#[test]
fn test_offscreen_context_creation() {
    let ctx: OffscreenContext<u32> = OffscreenContext::new(1920, 1080);
    assert_eq!(ctx.screen_size, (1920, 1080));
    assert_eq!(ctx.stack_depth(), 0);
    assert!(!ctx.is_initialized());
}

#[test]
fn test_offscreen_context_with_memory_limit() {
    let ctx: OffscreenContext<u32> = OffscreenContext::new_with_memory_limit(1920, 1080, 64);
    assert_eq!(ctx.screen_size, (1920, 1080));
}

#[test]
fn uninitialized_context_refuses_layers() {
    let mut ctx: OffscreenContext<u32> = OffscreenContext::new(800, 600);
    assert!(matches!(ctx.push_layer(|_| Some(1)), Err(OffscreenError::DeviceNotInitialized)));
    assert!(matches!(ctx.pop_layer(), Err(OffscreenError::DeviceNotInitialized)));
    assert_eq!(ctx.stack_depth(), 0);
}

#[test]
fn pushed_layers_pop_in_reverse_order() {
    let mut ctx: OffscreenContext<&str> = OffscreenContext::new(800, 600);
    ctx.set_initialized();
    assert!(ctx.is_initialized());
    assert_eq!(ctx.current_layer(), None);
    let a = ctx.push_layer(|_| Some("outer")).expect("pushed");
    let b = ctx.push_layer(|_| Some("inner")).expect("pushed");
    assert_eq!(a, LayerId(0));
    assert_eq!(b, LayerId(1));
    assert_eq!(ctx.stack_depth(), 2);
    assert_eq!(ctx.current_layer(), Some(b));
    assert_eq!(ctx.get_layer(a).map(|l| l.layer), Some("outer"));
    assert!(ctx.get_layer(LayerId(7)).is_none());
    assert!(ctx.mark_current_drawn().is_ok());
    let top = ctx.pop_layer().expect("popped");
    assert_eq!(top.id, b);
    assert_eq!(top.layer, "inner");
    assert!(top.has_content);
    let bottom = ctx.pop_layer().expect("popped");
    assert_eq!(bottom.id, a);
    assert!(!bottom.has_content);
    match ctx.pop_layer() {
        Err(OffscreenError::InvalidLayerOperation(m)) => assert_eq!(m, "Layer stack is empty"),
        _ => panic!("an empty stack cannot be popped"),
    }
    match ctx.mark_current_drawn() {
        Err(OffscreenError::InvalidLayerOperation(m)) => assert_eq!(m, "No active layer to render to"),
        _ => panic!("nothing to draw into"),
    }
}

#[test]
fn exhausted_pool_leaves_the_identifier_unused() {
    let mut ctx: OffscreenContext<u8> = OffscreenContext::new(64, 64);
    ctx.set_initialized();
    assert!(matches!(ctx.push_layer(|_| None), Err(OffscreenError::PoolExhausted)));
    assert_eq!(ctx.stack_depth(), 0);
    assert!(matches!(ctx.push_layer(|id| Some(id.0 as u8)), Ok(LayerId(0))));
}

#[test]
fn screen_size_updates_and_clearing_hands_back_the_layers() {
    let mut ctx: OffscreenContext<u8> = OffscreenContext::new(64, 64);
    ctx.update_screen_size(1280, 720);
    assert_eq!(ctx.screen_size, (1280, 720));
    ctx.set_initialized();
    let a = ctx.push_layer(|_| Some(1)).expect("pushed");
    let b = ctx.push_layer(|_| Some(2)).expect("pushed");
    let layers = ctx.clear_layers();
    assert_eq!(layers.iter().map(|l| l.id).collect::<Vec<_>>(), vec![a, b]);
    assert_eq!(ctx.stack_depth(), 0);
    assert_eq!(ctx.current_layer(), None);
    // identifiers keep counting after a clear
    assert!(matches!(ctx.push_layer(|_| Some(3)), Ok(LayerId(2))));
}
