use dyxel_render_vello::texture_pool::{
    bucket_key, format_index, size_fits, texture_bytes, GpuTexturePool, PoolTextureFormat, TextureId,
    TexturePool, TexturePoolConfig,
};

#[test]
fn test_bucket_key() {
    assert_eq!(bucket_key(64, 64, PoolTextureFormat::Rgba8Unorm), (64, 64, 0));
    assert_eq!(bucket_key(65, 128, PoolTextureFormat::Rgba16Float), (65, 128, 1));
    assert_eq!(bucket_key(256, 256, PoolTextureFormat::Bgra8Unorm), (256, 256, 2));
}

#[test]
fn unknown_format_gets_index_255() {
    assert_eq!(format_index(PoolTextureFormat::Other), 255);
    assert_eq!(bucket_key(3, 4, PoolTextureFormat::Other), (3, 4, 255));
}

#[test]
fn texture_bytes_by_format() {
    assert_eq!(texture_bytes(64, 64, PoolTextureFormat::Rgba8Unorm), 16384);
    assert_eq!(texture_bytes(64, 64, PoolTextureFormat::Bgra8Unorm), 16384);
    assert_eq!(texture_bytes(10, 10, PoolTextureFormat::Rgba16Float), 800);
    assert_eq!(texture_bytes(10, 10, PoolTextureFormat::Other), 400);
}

#[test]
fn default_config() {
    let c = TexturePoolConfig::default();
    assert_eq!(c.max_per_bucket, 16);
    assert_eq!(c.max_total_bytes, 64 * 1024 * 1024);
}

#[test]
fn handed_back_texture_is_reused() {
    let mut pool: TexturePool<u32> = TexturePool::new(TexturePoolConfig::default());
    assert_eq!(pool.current_bytes(), 0);
    let t = pool.acquire(64, 64, PoolTextureFormat::Rgba8Unorm, |_, _, _| 7);
    assert_eq!(t, 7);
    assert_eq!(pool.current_bytes(), 16384);
    pool.collect_return(t, 64, 64, PoolTextureFormat::Rgba8Unorm);
    assert_eq!(pool.idle_count(64, 64, PoolTextureFormat::Rgba8Unorm), 1);
    let again = pool.acquire(64, 64, PoolTextureFormat::Rgba8Unorm, |_, _, _| 99);
    assert_eq!(again, 7);
    assert_eq!(pool.current_bytes(), 16384);
    assert_eq!(pool.idle_count(64, 64, PoolTextureFormat::Rgba8Unorm), 0);
}

#[test]
fn other_size_or_format_is_not_reused() {
    let mut pool: TexturePool<u32> = TexturePool::new(TexturePoolConfig::default());
    let t = pool.acquire(64, 64, PoolTextureFormat::Rgba8Unorm, |_, _, _| 1);
    pool.collect_return(t, 64, 64, PoolTextureFormat::Rgba8Unorm);
    let u = pool.acquire(64, 64, PoolTextureFormat::Rgba16Float, |_, _, _| 2);
    assert_eq!(u, 2);
    let v = pool.acquire(65, 64, PoolTextureFormat::Rgba8Unorm, |_, _, _| 3);
    assert_eq!(v, 3);
    assert_eq!(pool.current_bytes(), 16384 + 32768 + 65 * 64 * 4);
}

#[test]
fn latest_returned_texture_comes_out_first() {
    let mut pool: TexturePool<u32> = TexturePool::new(TexturePoolConfig::default());
    pool.collect_return(1, 8, 8, PoolTextureFormat::Rgba8Unorm);
    pool.collect_return(2, 8, 8, PoolTextureFormat::Rgba8Unorm);
    assert_eq!(pool.acquire(8, 8, PoolTextureFormat::Rgba8Unorm, |_, _, _| 0), 2);
    assert_eq!(pool.acquire(8, 8, PoolTextureFormat::Rgba8Unorm, |_, _, _| 0), 1);
}

#[test]
fn full_bucket_drops_the_texture_and_its_bytes() {
    let config = TexturePoolConfig { max_per_bucket: 1, max_total_bytes: 1 << 20 };
    let mut pool: TexturePool<u32> = TexturePool::new(config);
    let a = pool.acquire(4, 4, PoolTextureFormat::Rgba8Unorm, |_, _, _| 1);
    let b = pool.acquire(4, 4, PoolTextureFormat::Rgba8Unorm, |_, _, _| 2);
    assert_eq!(pool.current_bytes(), 128);
    pool.collect_return(a, 4, 4, PoolTextureFormat::Rgba8Unorm);
    pool.collect_return(b, 4, 4, PoolTextureFormat::Rgba8Unorm);
    assert_eq!(pool.idle_count(4, 4, PoolTextureFormat::Rgba8Unorm), 1);
    assert_eq!(pool.current_bytes(), 64);
    assert_eq!(pool.acquire(4, 4, PoolTextureFormat::Rgba8Unorm, |_, _, _| 3), 1);
}

#[test]
fn clear_drops_idle_textures_and_resets_bytes() {
    let mut pool: TexturePool<u32> = TexturePool::new(TexturePoolConfig::default());
    let t = pool.acquire(16, 16, PoolTextureFormat::Rgba16Float, |_, _, _| 5);
    pool.collect_return(t, 16, 16, PoolTextureFormat::Rgba16Float);
    pool.clear();
    assert_eq!(pool.current_bytes(), 0);
    assert_eq!(pool.idle_count(16, 16, PoolTextureFormat::Rgba16Float), 0);
    assert_eq!(pool.acquire(16, 16, PoolTextureFormat::Rgba16Float, |_, _, _| 6), 6);
}

#[test]
fn kawase_set_sizes() {
    let mut pool: TexturePool<(u32, u32, PoolTextureFormat)> =
        TexturePool::new(TexturePoolConfig::default());
    let set = pool.acquire_kawase_set(100, 80, |w, h, f| (w, h, f));
    assert_eq!(set.ds_half, (50, 40, PoolTextureFormat::Rgba16Float));
    assert_eq!(set.ds_quarter, (12, 10, PoolTextureFormat::Rgba16Float));
    assert_eq!(set.ping, (12, 10, PoolTextureFormat::Rgba16Float));
    assert_eq!(set.pong, (12, 10, PoolTextureFormat::Rgba16Float));
    assert_eq!(pool.current_bytes(), 50 * 40 * 8 + 3 * 12 * 10 * 8);
}

#[test]
fn kawase_set_of_tiny_input_is_one_pixel() {
    let mut pool: TexturePool<(u32, u32)> = TexturePool::new(TexturePoolConfig::default());
    let set = pool.acquire_kawase_set(1, 7, |w, h, _| (w, h));
    assert_eq!(set.ds_half, (1, 3));
    assert_eq!(set.pong, (1, 1));
}

#[test]
fn gpu_pool_ids_start_at_one_and_count_up() {
    let mut pool: GpuTexturePool<u32> = GpuTexturePool::new(TexturePoolConfig::default());
    let a = pool.acquire(8, 8, PoolTextureFormat::Rgba8Unorm, |_, _, _| 10);
    let b = pool.acquire(8, 8, PoolTextureFormat::Rgba8Unorm, |_, _, _| 11);
    assert_eq!(a, TextureId(1));
    assert_eq!(b, TextureId(2));
    let t = pool.get_texture(b).expect("texture recorded");
    assert_eq!(t.texture, 11);
    assert_eq!(t.size, (8, 8));
    assert_eq!(t.format, PoolTextureFormat::Rgba8Unorm);
}

#[test]
fn gpu_pool_reuses_released_texture_after_collect() {
    let mut pool: GpuTexturePool<u32> = GpuTexturePool::new(TexturePoolConfig::default());
    let a = pool.acquire(8, 8, PoolTextureFormat::Rgba8Unorm, |_, _, _| 10);
    pool.release(a);
    assert!(pool.get_texture(a).is_none());
    // Not yet collected: a new texture is made.
    let b = pool.acquire(8, 8, PoolTextureFormat::Rgba8Unorm, |_, _, _| 20);
    assert_eq!(pool.get_texture(b).unwrap().texture, 20);
    pool.collect_returns();
    let c = pool.acquire(8, 8, PoolTextureFormat::Rgba8Unorm, |_, _, _| 30);
    assert_eq!(pool.get_texture(c).unwrap().texture, 10);
}

#[test]
fn gpu_pool_release_of_unknown_id_does_nothing() {
    let mut pool: GpuTexturePool<u32> = GpuTexturePool::new(TexturePoolConfig::default());
    let a = pool.acquire(8, 8, PoolTextureFormat::Rgba8Unorm, |_, _, _| 10);
    pool.release(TextureId(42));
    assert_eq!(pool.get_texture(a).unwrap().texture, 10);
}

#[test]
fn acquisition_checks_follow_the_pool_arithmetic() {
    assert!(!size_fits(65536, 65536, PoolTextureFormat::Rgba8Unorm));
    assert!(size_fits(65535, 65535, PoolTextureFormat::Rgba16Float));
    let mut pool: TexturePool<u32> = TexturePool::new(TexturePoolConfig::default());
    assert!(pool.can_acquire(64, 64, PoolTextureFormat::Rgba8Unorm));
    assert!(!pool.can_acquire(70000, 70000, PoolTextureFormat::Rgba8Unorm));
    assert!(pool.can_acquire_kawase_set(100, 80));
    assert!(!pool.can_acquire_kawase_set(u32::MAX, u32::MAX));
    // an idle texture of the size is reused, whatever its size
    pool.collect_return(7, 70000, 70000, PoolTextureFormat::Rgba8Unorm);
    assert!(pool.can_acquire(70000, 70000, PoolTextureFormat::Rgba8Unorm));
}
