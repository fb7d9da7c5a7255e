use dyxel_render_vello::shadow_cache::{ShadowCache, ShadowCacheKey, ShadowCacheStats, ShadowDraw};

fn key(width: u16, color: [u8; 4]) -> ShadowCacheKey {
    ShadowCacheKey { width, height: 40, border_radius: 8, blur_radius: 12, color }
}

#[test]
fn miss_renders_then_hits_from_cache() {
    let mut cache: ShadowCache<u32> = ShadowCache::new();
    let k = key(100, [0, 0, 0, 128]);
    assert_eq!(cache.plan_draw(&k, 1), ShadowDraw::Render);
    assert_eq!(cache.cached_image(&k), None);
    cache.insert_rendered(&k, 7, 1);
    assert_eq!(cache.plan_draw(&k, 2), ShadowDraw::Cached);
    assert_eq!(cache.cached_image(&k), Some(&7));
    assert_eq!(cache.stats(), ShadowCacheStats { hits: 1, misses: 1, evictions: 0 });
}

#[test]
fn keys_differing_in_colour_are_distinct() {
    let mut cache: ShadowCache<u32> = ShadowCache::new();
    cache.insert_rendered(&key(100, [0, 0, 0, 128]), 1, 0);
    assert_eq!(cache.cached_image(&key(100, [0, 0, 0, 127])), None);
    assert_eq!(cache.cached_image(&key(101, [0, 0, 0, 128])), None);
    assert_eq!(cache.cached_image(&key(100, [0, 0, 0, 128])), Some(&1));
}

#[test]
fn only_five_misses_per_frame_render() {
    let mut cache: ShadowCache<u32> = ShadowCache::new();
    let draws: Vec<ShadowDraw> = (0..7).map(|i| cache.plan_draw(&key(i, [1, 2, 3, 4]), 0)).collect();
    assert_eq!(
        draws,
        vec![
            ShadowDraw::Render,
            ShadowDraw::Render,
            ShadowDraw::Render,
            ShadowDraw::Render,
            ShadowDraw::Render,
            ShadowDraw::Direct,
            ShadowDraw::Direct,
        ]
    );
    cache.reset_frame_budget();
    assert_eq!(cache.plan_draw(&key(50, [1, 2, 3, 4]), 1), ShadowDraw::Render);
    assert_eq!(cache.stats().misses, 8);
}

#[test]
fn entries_unused_for_more_than_300_frames_are_evicted() {
    let mut cache: ShadowCache<u32> = ShadowCache::new();
    cache.insert_rendered(&key(1, [0; 4]), 10, 0);
    cache.insert_rendered(&key(2, [0; 4]), 20, 100);
    cache.insert_rendered(&key(3, [0; 4]), 30, 0);
    // A hit refreshes the entry.
    assert_eq!(cache.plan_draw(&key(3, [0; 4]), 200), ShadowDraw::Cached);
    let mut evicted = cache.evict_stale(300);
    assert!(evicted.is_empty());
    evicted = cache.evict_stale(301);
    assert_eq!(evicted, vec![10]);
    assert_eq!(cache.cached_image(&key(1, [0; 4])), None);
    assert_eq!(cache.cached_image(&key(2, [0; 4])), Some(&20));
    let mut later = cache.evict_stale(600);
    later.sort();
    assert_eq!(later, vec![20, 30]);
    assert_eq!(cache.stats().evictions, 3);
}

#[test]
fn entries_from_the_future_are_kept() {
    let mut cache: ShadowCache<u32> = ShadowCache::new();
    cache.insert_rendered(&key(1, [0; 4]), 10, 1000);
    assert!(cache.evict_stale(5).is_empty());
    assert_eq!(cache.cached_image(&key(1, [0; 4])), Some(&10));
}

#[test]
fn replacing_the_renderer_drops_the_cache() {
    let mut cache: ShadowCache<u32> = ShadowCache::new();
    cache.insert_rendered(&key(1, [0; 4]), 10, 0);
    // The first renderer is just recorded.
    assert!(cache.sync_renderer_id(5).is_empty());
    assert!(cache.sync_renderer_id(5).is_empty());
    assert_eq!(cache.cached_image(&key(1, [0; 4])), Some(&10));
    cache.insert_rendered(&key(2, [0; 4]), 20, 0);
    let mut dropped = cache.sync_renderer_id(6);
    dropped.sort();
    assert_eq!(dropped, vec![10, 20]);
    assert_eq!(cache.cached_image(&key(1, [0; 4])), None);
}
