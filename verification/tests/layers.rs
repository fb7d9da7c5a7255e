use dyxel_render_vello::layer::{LayerId, LayerManager};

/// A layer as a caller might hold it: its identifier and its bounds.
type TestLayer = (LayerId, (f32, f32, f32, f32));

#[test]
fn test_layer_manager() {
    let mut manager: LayerManager<TestLayer> = LayerManager::new();
    let id = manager.create_layer(|id| (id, (0.0, 0.0, 100.0, 100.0)));

    assert!(manager.get(id).is_some());
    assert_eq!(manager.dirty_layers().len(), 1);

    assert!(manager.mark_clean(id));
    assert_eq!(manager.dirty_layers().len(), 0);
}

#[test]
fn layer_ids_start_at_one_and_are_not_reused() {
    let mut m: LayerManager<TestLayer> = LayerManager::default();
    let a = m.create_layer(|id| (id, (0.0, 0.0, 1.0, 1.0)));
    let b = m.create_layer(|id| (id, (0.0, 0.0, 2.0, 2.0)));
    assert_eq!(a, LayerId(1));
    assert_eq!(b, LayerId(2));
    assert_eq!(m.get(b).map(|l| l.1 .2), Some(2.0));
    assert_eq!(m.get(a).map(|l| l.0), Some(a));
    let removed = m.remove(a).expect("layer a is there");
    assert_eq!(removed.0, a);
    assert!(m.get(a).is_none());
    assert!(m.remove(a).is_none());
    let c = m.create_layer(|id| (id, (0.0, 0.0, 3.0, 3.0)));
    assert_eq!(c, LayerId(3));
    m.clear();
    assert!(m.get(b).is_none());
    assert_eq!(m.create_layer(|id| (id, (0.0, 0.0, 4.0, 4.0))), LayerId(1));
}

#[test]
fn dirty_layers_follow_marks() {
    let mut m: LayerManager<u8> = LayerManager::new();
    let a = m.create_layer(|_| 1);
    let b = m.create_layer(|_| 2);
    let c = m.create_layer(|_| 3);
    assert_eq!(m.dirty_layers(), vec![a, b, c]);
    assert!(m.mark_clean(a));
    assert!(m.mark_clean(c));
    assert_eq!(m.dirty_layers(), vec![b]);
    assert!(!m.is_dirty(a));
    assert!(m.is_dirty(b));
    assert!(!m.mark_clean(LayerId(9)));
    assert!(!m.is_dirty(LayerId(9)));
    assert!(m.mark_dirty(c));
    assert_eq!(m.dirty_layers(), vec![b, c]);
    m.mark_all_dirty();
    assert_eq!(m.dirty_layers(), vec![a, b, c]);
}
