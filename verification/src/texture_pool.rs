//! Texture pool bookkeeping for blur textures.
//!
//! Idle textures are kept in buckets keyed by exact size and format, so a
//! texture handed back is reused by the next request for the same size and
//! format instead of allocating a new one. The pool counts the approximate
//! bytes of the textures it created and keeps at most `max_per_bucket` idle
//! textures per bucket. The pool is generic over the texture handle; creating
//! a texture is left to the closure the caller hands to `acquire`.

use vstd::prelude::*;
use std::collections::HashMap;
use crate::sums::{lemma_sum_bounds, lemma_sum_congruent, lemma_sum_empty, lemma_sum_insert, lemma_sum_remove, sum_over};

verus! {

broadcast use vstd::std_specs::hash::group_hash_axioms;

/// Pool configuration.
#[derive(Clone, Copy, Debug)]
pub struct TexturePoolConfig {
    /// Maximum textures kept per (size, format) bucket.
    pub max_per_bucket: usize,
    /// Maximum total pool size in bytes (approximate).
    pub max_total_bytes: usize,
}

impl TexturePoolConfig {
    /// The default: 16 textures per bucket, 64 MiB in all.
    pub fn new_default() -> (r: Self)
        ensures
            r.max_per_bucket == 16,
            r.max_total_bytes == 64 * 1024 * 1024,
    {
        TexturePoolConfig { max_per_bucket: 16, max_total_bytes: 64 * 1024 * 1024 }
    }
}

impl Default for TexturePoolConfig {
    fn default() -> (r: Self)
        ensures
            r.max_per_bucket == 16,
            r.max_total_bytes == 64 * 1024 * 1024,
    {
        Self::new_default()
    }
}

/// Texture formats the pool tells apart.
#[derive(Debug, Clone, Copy, PartialEq, Eq, Structural)]
pub enum PoolTextureFormat {
    Rgba8Unorm,
    Rgba16Float,
    Bgra8Unorm,
    /// Any other format.
    Other,
}

/// Index of a format in a bucket key: 0, 1 and 2 for the known formats,
/// 255 for any other.
pub open spec fn spec_format_index(format: PoolTextureFormat) -> u8 {
    match format {
        PoolTextureFormat::Rgba8Unorm => 0,
        PoolTextureFormat::Rgba16Float => 1,
        PoolTextureFormat::Bgra8Unorm => 2,
        PoolTextureFormat::Other => 255,
    }
}

/// Index of a format in a bucket key.
pub fn format_index(format: PoolTextureFormat) -> (r: u8)
    ensures
        r == spec_format_index(format),
{
    match format {
        PoolTextureFormat::Rgba8Unorm => 0,
        PoolTextureFormat::Rgba16Float => 1,
        PoolTextureFormat::Bgra8Unorm => 2,
        PoolTextureFormat::Other => 255,
    }
}

/// Bucket key of a texture: its exact width and height and its format index.
pub open spec fn spec_bucket_key(width: u32, height: u32, format: PoolTextureFormat) -> (u32, u32, u8) {
    (width, height, spec_format_index(format))
}

/// Bucket key of a texture, from its exact dimensions, so that a pooled
/// texture always has the size that is asked for.
pub fn bucket_key(width: u32, height: u32, format: PoolTextureFormat) -> (r: (u32, u32, u8))
    ensures
        r == spec_bucket_key(width, height, format),
{
    (width, height, format_index(format))
}

/// Bytes per pixel: 8 for `Rgba16Float`, 4 for the others.
pub open spec fn bytes_per_pixel(format: PoolTextureFormat) -> nat {
    match format {
        PoolTextureFormat::Rgba16Float => 8,
        _ => 4,
    }
}

/// Approximate size of a texture in bytes.
pub open spec fn spec_texture_bytes(width: u32, height: u32, format: PoolTextureFormat) -> int {
    width * height * bytes_per_pixel(format)
}

/// Whether the size of a texture fits the arithmetic the pool does on it:
/// the pixel count in 32 bits and the byte count in a `usize`.
pub open spec fn texture_size_fits(width: u32, height: u32, format: PoolTextureFormat) -> bool {
    width * height <= u32::MAX && spec_texture_bytes(width, height, format) <= usize::MAX
}

/// Approximate size of a texture in bytes.
pub fn texture_bytes(width: u32, height: u32, format: PoolTextureFormat) -> (r: usize)
    requires
        texture_size_fits(width, height, format),
    ensures
        r == spec_texture_bytes(width, height, format),
{
    let bpp: usize = match format {
        PoolTextureFormat::Rgba8Unorm | PoolTextureFormat::Bgra8Unorm => 4,
        PoolTextureFormat::Rgba16Float => 8,
        PoolTextureFormat::Other => 4,
    };
    let pixels: u32 = width * height;
    assert(pixels as int * bpp as int == spec_texture_bytes(width, height, format)) by (nonlinear_arith)
        requires
            pixels == width * height,
            bpp == bytes_per_pixel(format),
    ;
    (pixels as usize) * bpp
}

/// Tells whether a texture's size fits the pool's arithmetic.
pub fn size_fits(width: u32, height: u32, format: PoolTextureFormat) -> (r: bool)
    ensures
        r == texture_size_fits(width, height, format),
{
    let w: u64 = width as u64;
    let h: u64 = height as u64;
    assert(w * h <= 0xFFFF_FFFFu64 * 0xFFFF_FFFFu64) by (nonlinear_arith)
        requires
            w <= 0xFFFF_FFFFu64,
            h <= 0xFFFF_FFFFu64,
    ;
    let pixels: u64 = w * h;
    if pixels > 0xFFFF_FFFFu64 {
        return false;
    }
    let bpp: u64 = match format {
        PoolTextureFormat::Rgba16Float => 8,
        _ => 4,
    };
    assert(pixels as int * bpp as int == spec_texture_bytes(width, height, format)) by (nonlinear_arith)
        requires
            pixels == width * height,
            bpp == bytes_per_pixel(format),
    ;
    assert(pixels * bpp <= 0xFFFF_FFFFu64 * 8) by (nonlinear_arith)
        requires
            pixels <= 0xFFFF_FFFFu64,
            bpp <= 8,
    ;
    pixels * bpp <= usize::MAX as u64
}

/// One acquisition counted on a bucket of `idle` textures with `bytes`
/// counted: `None` when it is not allowed; otherwise the idle count and the
/// byte count afterwards.
fn count_acquire(idle: usize, bytes: usize, width: u32, height: u32, format: PoolTextureFormat) -> (r:
    Option<(usize, usize)>)
    ensures
        r is Some <==> (idle > 0 || (texture_size_fits(width, height, format) && bytes
            + spec_texture_bytes(width, height, format) <= usize::MAX)),
        r is Some ==> r.unwrap() == (if idle > 0 {
            ((idle - 1) as usize, bytes)
        } else {
            (idle, (bytes + spec_texture_bytes(width, height, format)) as usize)
        }),
{
    if idle > 0 {
        return Some((idle - 1, bytes));
    }
    if !size_fits(width, height, format) {
        return None;
    }
    let added = texture_bytes(width, height, format);
    if added > usize::MAX - bytes {
        None
    } else {
        Some((idle, bytes + added))
    }
}

/// The idle textures of bucket `key`: none when the bucket does not exist.
pub open spec fn bucket_of<T>(idle: Map<(u32, u32, u8), Seq<T>>, key: (u32, u32, u8)) -> Seq<T> {
    if idle.contains_key(key) {
        idle[key]
    } else {
        Seq::empty()
    }
}

/// The idle textures after taking one from bucket `key`: the last texture
/// put there leaves; an empty or missing bucket stays as it is.
pub open spec fn idle_after_take<T>(
    idle: Map<(u32, u32, u8), Seq<T>>,
    key: (u32, u32, u8),
) -> Map<(u32, u32, u8), Seq<T>> {
    if bucket_of(idle, key).len() > 0 {
        idle.insert(key, bucket_of(idle, key).drop_last())
    } else {
        idle
    }
}

/// The texture that taking from bucket `key` gives, if the bucket has one.
pub open spec fn taken<T>(idle: Map<(u32, u32, u8), Seq<T>>, key: (u32, u32, u8)) -> Option<T> {
    if bucket_of(idle, key).len() > 0 {
        Some(bucket_of(idle, key).last())
    } else {
        None
    }
}

/// Whether a texture of `width` x `height` in `format` can be acquired with
/// `bytes` counted: either the bucket has an idle texture, or a new
/// texture's size fits the pool's arithmetic and its bytes can be counted.
pub open spec fn acquire_allowed<T>(
    idle: Map<(u32, u32, u8), Seq<T>>,
    bytes: int,
    width: u32,
    height: u32,
    format: PoolTextureFormat,
) -> bool {
    bucket_of(idle, spec_bucket_key(width, height, format)).len() > 0 || (texture_size_fits(
        width,
        height,
        format,
    ) && bytes + spec_texture_bytes(width, height, format) <= usize::MAX)
}

/// The byte count after acquiring a texture of `width` x `height` in
/// `format`: unchanged when an idle one is reused, grown by the new
/// texture's size otherwise.
pub open spec fn bytes_after_take<T>(
    idle: Map<(u32, u32, u8), Seq<T>>,
    bytes: int,
    width: u32,
    height: u32,
    format: PoolTextureFormat,
) -> int {
    if bucket_of(idle, spec_bucket_key(width, height, format)).len() > 0 {
        bytes
    } else {
        bytes + spec_texture_bytes(width, height, format)
    }
}

/// The idle textures after `texture` is handed back to bucket `key`: kept
/// while the bucket holds fewer than `max` textures, dropped otherwise. The
/// bucket exists afterwards either way.
pub open spec fn idle_after_return<T>(
    idle: Map<(u32, u32, u8), Seq<T>>,
    key: (u32, u32, u8),
    texture: T,
    max: usize,
) -> Map<(u32, u32, u8), Seq<T>> {
    if bucket_of(idle, key).len() < max {
        idle.insert(key, bucket_of(idle, key).push(texture))
    } else {
        idle.insert(key, bucket_of(idle, key))
    }
}

/// The number that encodes a bucket key as a hash-map key.
pub open spec fn spec_key_code(key: (u32, u32, u8)) -> u128 {
    ((key.0 as u128) << 40u128) | ((key.1 as u128) << 8u128) | (key.2 as u128)
}

proof fn lemma_key_code_parts(a0: u32, a1: u32, a2: u8, b0: u32, b1: u32, b2: u8)
    ensures
        (((a0 as u128) << 40u128) | ((a1 as u128) << 8u128) | (a2 as u128)) == (((b0 as u128)
            << 40u128) | ((b1 as u128) << 8u128) | (b2 as u128)) ==> a0 == b0 && a1 == b1 && a2
            == b2,
{
    assert((((a0 as u128) << 40u128) | ((a1 as u128) << 8u128) | (a2 as u128)) == (((b0 as u128)
        << 40u128) | ((b1 as u128) << 8u128) | (b2 as u128)) ==> a0 == b0 && a1 == b1 && a2 == b2)
        by (bit_vector);
}

proof fn lemma_key_code_injective(a: (u32, u32, u8), b: (u32, u32, u8))
    ensures
        spec_key_code(a) == spec_key_code(b) ==> a == b,
{
    lemma_key_code_parts(a.0, a.1, a.2, b.0, b.1, b.2);
}

fn key_code(key: (u32, u32, u8)) -> (r: u128)
    ensures
        r == spec_key_code(key),
{
    ((key.0 as u128) << 40u128) | ((key.1 as u128) << 8u128) | (key.2 as u128)
}

/// Texture pool over texture handles of type `T`.
pub struct TexturePool<T> {
    config: TexturePoolConfig,
    buckets: HashMap<u128, Vec<T>>,
    current_bytes: usize,
}

impl<T> TexturePool<T> {
    /// The configuration the pool was made with.
    pub closed spec fn spec_config(&self) -> TexturePoolConfig {
        self.config
    }

    /// The idle textures, bucket by bucket, in the order they were handed back.
    pub closed spec fn spec_idle(&self) -> Map<(u32, u32, u8), Seq<T>> {
        Map::new(
            |k: (u32, u32, u8)| self.buckets@.contains_key(spec_key_code(k)),
            |k: (u32, u32, u8)| self.buckets@[spec_key_code(k)]@,
        )
    }

    /// The approximate bytes of the textures the pool created and has not dropped.
    pub closed spec fn spec_bytes(&self) -> usize {
        self.current_bytes
    }

    /// No bucket holds more than `max_per_bucket` idle textures, and there
    /// are finitely many buckets.
    pub open spec fn wf(&self) -> bool {
        &&& forall|k: (u32, u32, u8)| #[trigger]
            bucket_of(self.spec_idle(), k).len() <= self.spec_config().max_per_bucket
        &&& self.spec_idle().dom().finite()
    }

    proof fn lemma_idle_insert(&self, old_buckets: Map<u128, Vec<T>>, key: (u32, u32, u8), v: Seq<T>)
        requires
            exists|w: Vec<T>| w@ == v && self.buckets@ == old_buckets.insert(spec_key_code(key), w),
        ensures
            self.spec_idle() == Map::new(
                |k: (u32, u32, u8)| old_buckets.contains_key(spec_key_code(k)),
                |k: (u32, u32, u8)| old_buckets[spec_key_code(k)]@,
            ).insert(key, v),
    {
        let old_idle = Map::new(
            |k: (u32, u32, u8)| old_buckets.contains_key(spec_key_code(k)),
            |k: (u32, u32, u8)| old_buckets[spec_key_code(k)]@,
        );
        assert forall|k: (u32, u32, u8)| #[trigger] self.spec_idle().contains_key(k)
            == old_idle.insert(key, v).contains_key(k) by {
            lemma_key_code_injective(k, key);
        }
        assert forall|k: (u32, u32, u8)| #[trigger] self.spec_idle().contains_key(k) implies
            self.spec_idle()[k] == old_idle.insert(key, v)[k] by {
            lemma_key_code_injective(k, key);
        }
        assert(self.spec_idle() =~= old_idle.insert(key, v));
    }

    /// An empty pool.
    pub fn new(config: TexturePoolConfig) -> (r: Self)
        ensures
            r.spec_config() == config,
            r.spec_idle() == Map::<(u32, u32, u8), Seq<T>>::empty(),
            r.spec_bytes() == 0,
            r.wf(),
    {
        let r = TexturePool { config, buckets: HashMap::new(), current_bytes: 0 };
        assert(r.spec_idle() =~= Map::<(u32, u32, u8), Seq<T>>::empty());
        r
    }

    /// A texture of `width` x `height` in `format`: the one most recently
    /// handed back to that bucket, or, when the bucket has none, a new one
    /// made by `create`, whose bytes are then counted.
    pub fn acquire<F>(&mut self, width: u32, height: u32, format: PoolTextureFormat, create: F) -> (r: T)
        where
            F: FnOnce(u32, u32, PoolTextureFormat) -> T,
        requires
            old(self).wf(),
            call_requires(create, (width, height, format)),
            acquire_allowed(old(self).spec_idle(), old(self).spec_bytes() as int, width, height, format),
        ensures
            final(self).wf(),
            final(self).spec_config() == old(self).spec_config(),
            final(self).spec_idle() == idle_after_take(
                old(self).spec_idle(),
                spec_bucket_key(width, height, format),
            ),
            final(self).spec_bytes() == bytes_after_take(
                old(self).spec_idle(),
                old(self).spec_bytes() as int,
                width,
                height,
                format,
            ),
            match taken(old(self).spec_idle(), spec_bucket_key(width, height, format)) {
                Some(t) => r == t,
                None => call_ensures(create, (width, height, format), r),
            },
    {
        let key = bucket_key(width, height, format);
        let code = key_code(key);
        let ghost old_buckets = self.buckets@;
        let ghost old_idle = self.spec_idle();
        assert(old_idle == Map::new(
            |k: (u32, u32, u8)| old_buckets.contains_key(spec_key_code(k)),
            |k: (u32, u32, u8)| old_buckets[spec_key_code(k)]@,
        ));
        match self.buckets.remove(&code) {
            Some(mut bucket) => {
                assert(bucket@ == bucket_of(old_idle, key));
                let popped = bucket.pop();
                let ghost rest = bucket@;
                self.buckets.insert(code, bucket);
                assert(self.buckets@ == old_buckets.insert(code, bucket)) by {
                    assert(old_buckets.remove(code).insert(code, bucket) =~= old_buckets.insert(
                        code,
                        bucket,
                    ));
                }
                proof {
                    self.lemma_idle_insert(old_buckets, key, rest);
                }
                match popped {
                    Some(texture) => {
                        assert forall|k: (u32, u32, u8)| #[trigger]
                            bucket_of(self.spec_idle(), k).len()
                                <= self.spec_config().max_per_bucket by {
                            assert(bucket_of(old_idle, k).len() <= self.config.max_per_bucket);
                        }
                        texture
                    },
                    None => {
                        assert(rest =~= bucket_of(old_idle, key));
                        assert(self.spec_idle() =~= old_idle);
                        let bytes = texture_bytes(width, height, format);
                        self.current_bytes = self.current_bytes + bytes;
                        create(width, height, format)
                    },
                }
            },
            None => {
                assert(self.buckets@ =~= old_buckets);
                assert(self.spec_idle() =~= old_idle);
                let bytes = texture_bytes(width, height, format);
                self.current_bytes = self.current_bytes + bytes;
                create(width, height, format)
            },
        }
    }

    /// Takes back `texture`, whose actual size is `width` x `height` in
    /// `format`: it is kept in its bucket while the bucket holds fewer than
    /// `max_per_bucket` textures, and dropped otherwise, its bytes no longer counted.
    pub fn collect_return(&mut self, texture: T, width: u32, height: u32, format: PoolTextureFormat)
        requires
            old(self).wf(),
            bucket_of(old(self).spec_idle(), spec_bucket_key(width, height, format)).len()
                >= old(self).spec_config().max_per_bucket ==> texture_size_fits(
                width,
                height,
                format,
            ) && old(self).spec_bytes() >= spec_texture_bytes(width, height, format),
        ensures
            final(self).wf(),
            final(self).spec_config() == old(self).spec_config(),
            final(self).spec_idle() == idle_after_return(
                old(self).spec_idle(),
                spec_bucket_key(width, height, format),
                texture,
                old(self).spec_config().max_per_bucket,
            ),
            final(self).spec_bytes() == (if bucket_of(
                old(self).spec_idle(),
                spec_bucket_key(width, height, format),
            ).len() < old(self).spec_config().max_per_bucket {
                old(self).spec_bytes() as int
            } else {
                old(self).spec_bytes() - spec_texture_bytes(width, height, format)
            }),
    {
        let key = bucket_key(width, height, format);
        let kept = self.return_to_bucket(texture, key);
        if !kept {
            let bytes = texture_bytes(width, height, format);
            self.current_bytes = self.current_bytes - bytes;
        }
    }

    /// Puts `texture` into bucket `key` unless the bucket already holds
    /// `max_per_bucket` textures, in which case it is dropped; the result
    /// tells whether it was kept. The bucket exists afterwards either way.
    fn return_to_bucket(&mut self, texture: T, key: (u32, u32, u8)) -> (kept: bool)
        requires
            old(self).wf(),
        ensures
            final(self).wf(),
            final(self).spec_config() == old(self).spec_config(),
            final(self).spec_bytes() == old(self).spec_bytes(),
            kept == (bucket_of(old(self).spec_idle(), key).len() < old(self).spec_config().max_per_bucket),
            final(self).spec_idle() == idle_after_return(
                old(self).spec_idle(),
                key,
                texture,
                old(self).spec_config().max_per_bucket,
            ),
    {
        let code = key_code(key);
        let ghost old_buckets = self.buckets@;
        let ghost old_idle = self.spec_idle();
        assert(old_idle == Map::new(
            |k: (u32, u32, u8)| old_buckets.contains_key(spec_key_code(k)),
            |k: (u32, u32, u8)| old_buckets[spec_key_code(k)]@,
        ));
        let mut bucket = match self.buckets.remove(&code) {
            Some(b) => b,
            None => Vec::new(),
        };
        assert(bucket@ == bucket_of(old_idle, key));
        let kept = bucket.len() < self.config.max_per_bucket;
        if kept {
            bucket.push(texture);
        }
        let ghost now = bucket@;
        self.buckets.insert(code, bucket);
        assert(self.buckets@ == old_buckets.insert(code, bucket)) by {
            assert(old_buckets.remove(code).insert(code, bucket) =~= old_buckets.insert(
                code,
                bucket,
            ));
        }
        proof {
            self.lemma_idle_insert(old_buckets, key, now);
            assert forall|k: (u32, u32, u8)| #[trigger]
                bucket_of(self.spec_idle(), k).len() <= self.spec_config().max_per_bucket by {
                assert(bucket_of(old_idle, k).len() <= self.config.max_per_bucket);
            }
        }
        kept
    }

    /// Tells whether a texture of `width` x `height` in `format` can be
    /// acquired now.
    pub fn can_acquire(&self, width: u32, height: u32, format: PoolTextureFormat) -> (r: bool)
        requires
            self.wf(),
        ensures
            r == acquire_allowed(self.spec_idle(), self.spec_bytes() as int, width, height, format),
    {
        let idle = self.idle_count(width, height, format);
        count_acquire(idle, self.current_bytes(), width, height, format).is_some()
    }

    /// Tells whether the four textures of a Dual Kawase blur over a
    /// `full_width` x `full_height` input can be acquired now.
    pub fn can_acquire_kawase_set(&self, full_width: u32, full_height: u32) -> (r: bool)
        requires
            self.wf(),
        ensures
            r == kawase_set_allowed(self.spec_idle(), self.spec_bytes() as int, full_width, full_height),
    {
        let f = PoolTextureFormat::Rgba16Float;
        let hw = half_extent_of(full_width);
        let hh = half_extent_of(full_height);
        let qw = eighth_extent_of(full_width);
        let qh = eighth_extent_of(full_height);
        let same = hw == qw && hh == qh;
        let ghost kh = spec_bucket_key(hw, hh, f);
        let ghost kq = spec_bucket_key(qw, qh, f);
        assert(same <==> kh == kq);
        let half_idle = self.idle_count(hw, hh, f);
        let quarter_idle = self.idle_count(qw, qh, f);
        let ghost i0 = self.spec_idle();
        let ghost i1 = idle_after_take(i0, kh);
        let ghost i2 = idle_after_take(i1, kq);
        let ghost i3 = idle_after_take(i2, kq);
        let (half_left, b1) = match count_acquire(half_idle, self.current_bytes(), hw, hh, f) {
            Some(v) => v,
            None => return false,
        };
        let q1: usize = if same {
            half_left
        } else {
            quarter_idle
        };
        assert(bucket_of(i1, kq).len() == q1);
        let (q2, b2) = match count_acquire(q1, b1, qw, qh, f) {
            Some(v) => v,
            None => return false,
        };
        assert(bucket_of(i2, kq).len() == q2);
        let (q3, b3) = match count_acquire(q2, b2, qw, qh, f) {
            Some(v) => v,
            None => return false,
        };
        assert(bucket_of(i3, kq).len() == q3);
        count_acquire(q3, b3, qw, qh, f).is_some()
    }

    /// Acquires the four textures of a Dual Kawase blur over a
    /// `full_width` x `full_height` input, all in `Rgba16Float`: the
    /// half-resolution one, then the eighth-resolution downsample and the
    /// two eighth-resolution ping-pong textures, in that order.
    pub fn acquire_kawase_set<F>(&mut self, full_width: u32, full_height: u32, create: F) -> (r:
        KawaseTextureSet<T>)
        where
            F: Fn(u32, u32, PoolTextureFormat) -> T + Copy,
        requires
            old(self).wf(),
            forall|w: u32, h: u32, f: PoolTextureFormat| call_requires(create, (w, h, f)),
            kawase_set_allowed(old(self).spec_idle(), old(self).spec_bytes() as int, full_width, full_height),
        ensures
            final(self).wf(),
            final(self).spec_config() == old(self).spec_config(),
            ({
                let f = PoolTextureFormat::Rgba16Float;
                let hw = half_extent(full_width);
                let hh = half_extent(full_height);
                let qw = eighth_extent(full_width);
                let qh = eighth_extent(full_height);
                let i0 = old(self).spec_idle();
                let b0 = old(self).spec_bytes() as int;
                let i1 = idle_after_take(i0, spec_bucket_key(hw, hh, f));
                let b1 = bytes_after_take(i0, b0, hw, hh, f);
                let i2 = idle_after_take(i1, spec_bucket_key(qw, qh, f));
                let b2 = bytes_after_take(i1, b1, qw, qh, f);
                let i3 = idle_after_take(i2, spec_bucket_key(qw, qh, f));
                let b3 = bytes_after_take(i2, b2, qw, qh, f);
                &&& final(self).spec_idle() == idle_after_take(i3, spec_bucket_key(qw, qh, f))
                &&& final(self).spec_bytes() == bytes_after_take(i3, b3, qw, qh, f)
                &&& reused_or_created(create, taken(i0, spec_bucket_key(hw, hh, f)), hw, hh, f, r.ds_half)
                &&& reused_or_created(create, taken(i1, spec_bucket_key(qw, qh, f)), qw, qh, f, r.ds_quarter)
                &&& reused_or_created(create, taken(i2, spec_bucket_key(qw, qh, f)), qw, qh, f, r.ping)
                &&& reused_or_created(create, taken(i3, spec_bucket_key(qw, qh, f)), qw, qh, f, r.pong)
            }),
    {
        let half_w = half_extent_of(full_width);
        let half_h = half_extent_of(full_height);
        let quarter_w = eighth_extent_of(full_width);
        let quarter_h = eighth_extent_of(full_height);
        let ds_half = self.acquire(half_w, half_h, PoolTextureFormat::Rgba16Float, create);
        let ds_quarter = self.acquire(quarter_w, quarter_h, PoolTextureFormat::Rgba16Float, create);
        let ping = self.acquire(quarter_w, quarter_h, PoolTextureFormat::Rgba16Float, create);
        let pong = self.acquire(quarter_w, quarter_h, PoolTextureFormat::Rgba16Float, create);
        KawaseTextureSet { ds_half, ds_quarter, ping, pong }
    }

    /// The configuration the pool was made with.
    pub fn config(&self) -> (r: TexturePoolConfig)
        ensures
            r == self.spec_config(),
    {
        self.config
    }

    /// The approximate bytes of the textures the pool created and has not dropped.
    pub fn current_bytes(&self) -> (r: usize)
        ensures
            r == self.spec_bytes(),
    {
        self.current_bytes
    }

    /// The number of idle textures in the bucket of `width` x `height` in `format`.
    pub fn idle_count(&self, width: u32, height: u32, format: PoolTextureFormat) -> (r: usize)
        ensures
            r == bucket_of(self.spec_idle(), spec_bucket_key(width, height, format)).len(),
    {
        let key = bucket_key(width, height, format);
        match self.buckets.get(&key_code(key)) {
            Some(b) => b.len(),
            None => 0,
        }
    }

    /// Drops every idle texture and resets the byte count (for low memory).
    pub fn clear(&mut self)
        ensures
            final(self).wf(),
            final(self).spec_config() == old(self).spec_config(),
            final(self).spec_idle() == Map::<(u32, u32, u8), Seq<T>>::empty(),
            final(self).spec_bytes() == 0,
    {
        self.buckets.clear();
        self.current_bytes = 0;
        assert(self.spec_idle() =~= Map::<(u32, u32, u8), Seq<T>>::empty());
    }
}

/// The four textures of a Dual Kawase blur.
pub struct KawaseTextureSet<T> {
    /// Downsample to 1/2 resolution.
    pub ds_half: T,
    /// Downsample to 1/8 resolution (to cut fill rate).
    pub ds_quarter: T,
    /// Ping-pong texture A (1/8 resolution).
    pub ping: T,
    /// Ping-pong texture B (1/8 resolution).
    pub pong: T,
}

/// Whether the four textures of a Dual Kawase blur over a `full_width` x
/// `full_height` input can be acquired in turn from `idle` with `bytes`
/// counted: the half-resolution one, then three eighth-resolution ones.
pub open spec fn kawase_set_allowed<T>(
    idle: Map<(u32, u32, u8), Seq<T>>,
    bytes: int,
    full_width: u32,
    full_height: u32,
) -> bool {
    let f = PoolTextureFormat::Rgba16Float;
    let hw = half_extent(full_width);
    let hh = half_extent(full_height);
    let qw = eighth_extent(full_width);
    let qh = eighth_extent(full_height);
    let i1 = idle_after_take(idle, spec_bucket_key(hw, hh, f));
    let b1 = bytes_after_take(idle, bytes, hw, hh, f);
    let i2 = idle_after_take(i1, spec_bucket_key(qw, qh, f));
    let b2 = bytes_after_take(i1, b1, qw, qh, f);
    let i3 = idle_after_take(i2, spec_bucket_key(qw, qh, f));
    let b3 = bytes_after_take(i2, b2, qw, qh, f);
    &&& acquire_allowed(idle, bytes, hw, hh, f)
    &&& acquire_allowed(i1, b1, qw, qh, f)
    &&& acquire_allowed(i2, b2, qw, qh, f)
    &&& acquire_allowed(i3, b3, qw, qh, f)
}

/// Half of an extent, at least 1.
pub open spec fn half_extent(n: u32) -> u32 {
    if n / 2 == 0 {
        1
    } else {
        (n / 2) as u32
    }
}

/// An eighth of an extent, at least 1.
pub open spec fn eighth_extent(n: u32) -> u32 {
    if n / 8 == 0 {
        1
    } else {
        (n / 8) as u32
    }
}

pub(crate) fn half_extent_of(n: u32) -> (r: u32)
    ensures
        r == half_extent(n),
{
    let h = n / 2;
    if h == 0 {
        1
    } else {
        h
    }
}

fn eighth_extent_of(n: u32) -> (r: u32)
    ensures
        r == eighth_extent(n),
{
    let e = n / 8;
    if e == 0 {
        1
    } else {
        e
    }
}

/// A texture acquired from a bucket whose take gives `reused`: that texture
/// when there was one, and a texture made by `create` for the size otherwise.
pub open spec fn reused_or_created<T, F: Fn(u32, u32, PoolTextureFormat) -> T>(
    create: F,
    reused: Option<T>,
    width: u32,
    height: u32,
    format: PoolTextureFormat,
    texture: T,
) -> bool {
    match reused {
        Some(t) => texture == t,
        None => call_ensures(create, (width, height, format), texture),
    }
}

/// Opaque identifier of a pooled GPU texture.
#[derive(Debug, Clone, Copy, PartialEq, Eq, Hash, Structural)]
pub struct TextureId(pub u32);

/// A texture handed back to a bucket that is not full is the one the next
/// request for that size and format gets, without counting new bytes; after
/// that request the bucket is as it was before the hand-back.
pub proof fn lemma_returned_texture_is_reused<T>(
    idle: Map<(u32, u32, u8), Seq<T>>,
    bytes: int,
    width: u32,
    height: u32,
    format: PoolTextureFormat,
    texture: T,
    max: usize,
)
    requires
        bucket_of(idle, spec_bucket_key(width, height, format)).len() < max,
    ensures
        ({
            let key = spec_bucket_key(width, height, format);
            let after = idle_after_return(idle, key, texture, max);
            &&& taken(after, key) == Some(texture)
            &&& bytes_after_take(after, bytes, width, height, format) == bytes
            &&& bucket_of(idle_after_take(after, key), key) == bucket_of(idle, key)
            &&& forall|k: (u32, u32, u8)| #[trigger]
                bucket_of(idle_after_take(after, key), k) == bucket_of(idle, k)
        }),
{
    let key = spec_bucket_key(width, height, format);
    let after = idle_after_return(idle, key, texture, max);
    assert(bucket_of(after, key) == bucket_of(idle, key).push(texture));
    assert(bucket_of(idle, key).push(texture).drop_last() =~= bucket_of(idle, key));
}

/// A texture handed out by `GpuTexturePool`, with the size and format it
/// was asked for.
pub struct PooledTexture<T> {
    pub texture: T,
    pub size: (u32, u32),
    pub format: PoolTextureFormat,
}

/// The identifier that follows `id`: one more, wrapping past the largest
/// value to 1, so that 0 is never used.
pub open spec fn id_after(id: u32) -> u32 {
    if id == u32::MAX {
        1
    } else {
        (id + 1) as u32
    }
}

/// Bytes of one texture of bucket `key`.
pub open spec fn key_bytes(key: (u32, u32, u8)) -> int {
    key.0 * key.1 * (if key.2 == 1 {
        8int
    } else {
        4int
    })
}

/// Bytes of a handed-out texture.
pub open spec fn entry_bytes<T>(e: PooledTexture<T>) -> int {
    spec_texture_bytes(e.size.0, e.size.1, e.format)
}

/// The pixel count of a handed-out texture fits in 32 bits.
pub open spec fn entry_fits<T>(e: PooledTexture<T>) -> bool {
    e.size.0 * e.size.1 <= u32::MAX
}

/// Bytes of the idle textures.
pub open spec fn idle_bytes<T>(idle: Map<(u32, u32, u8), Seq<T>>) -> int {
    sum_over(idle.dom(), |k: (u32, u32, u8)| bucket_of(idle, k).len() * key_bytes(k))
}

/// Bytes of the handed-out textures.
pub open spec fn handed_out_bytes<T>(textures: Map<u32, PooledTexture<T>>) -> int {
    sum_over(textures.dom(), |id: u32| entry_bytes(textures[id]))
}

/// Bytes of the released textures not yet taken back.
pub open spec fn returned_bytes<T>(returned: Seq<PooledTexture<T>>) -> int
    decreases returned.len(),
{
    if returned.len() == 0 {
        0
    } else {
        entry_bytes(returned[0]) + returned_bytes(returned.subrange(1, returned.len() as int))
    }
}

/// The idle textures and byte count after the released textures `returned`
/// are taken back into a pool in order, each as `TexturePool::collect_return` does.
pub open spec fn after_returns<T>(
    idle: Map<(u32, u32, u8), Seq<T>>,
    bytes: int,
    returned: Seq<PooledTexture<T>>,
    max: usize,
) -> (Map<(u32, u32, u8), Seq<T>>, int)
    decreases returned.len(),
{
    if returned.len() == 0 {
        (idle, bytes)
    } else {
        let e = returned[0];
        let key = spec_bucket_key(e.size.0, e.size.1, e.format);
        after_returns(
            idle_after_return(idle, key, e.texture, max),
            if bucket_of(idle, key).len() < max {
                bytes
            } else {
                bytes - entry_bytes(e)
            },
            returned.subrange(1, returned.len() as int),
            max,
        )
    }
}

proof fn lemma_key_bytes(width: u32, height: u32, format: PoolTextureFormat)
    ensures
        key_bytes(spec_bucket_key(width, height, format)) == spec_texture_bytes(width, height, format),
        spec_texture_bytes(width, height, format) >= 0,
{
    assert(width * height >= 0) by (nonlinear_arith);
    assert(width * height * bytes_per_pixel(format) >= 0) by (nonlinear_arith)
        requires
            width * height >= 0,
    ;
}

proof fn lemma_map_sum_insert<K, V>(m: Map<K, V>, g: spec_fn(K, V) -> int, k: K, v: V)
    requires
        m.dom().finite(),
    ensures
        sum_over(m.insert(k, v).dom(), |x: K| g(x, m.insert(k, v)[x])) == sum_over(
            m.dom(),
            |x: K| g(x, m[x]),
        ) - (if m.dom().contains(k) {
            g(k, m[k])
        } else {
            0
        }) + g(k, v),
{
    let m2 = m.insert(k, v);
    let h1 = |x: K| g(x, m[x]);
    let h2 = |x: K| g(x, m2[x]);
    let rest = m.dom().remove(k);
    assert(m2.dom() =~= rest.insert(k));
    lemma_sum_insert(rest, h2, k);
    lemma_sum_congruent(rest, h1, h2);
    if m.dom().contains(k) {
        lemma_sum_remove(m.dom(), h1, k);
    } else {
        assert(rest =~= m.dom());
    }
}

proof fn lemma_map_sum_remove<K, V>(m: Map<K, V>, g: spec_fn(K, V) -> int, k: K)
    requires
        m.dom().finite(),
        m.dom().contains(k),
    ensures
        sum_over(m.remove(k).dom(), |x: K| g(x, m.remove(k)[x])) == sum_over(
            m.dom(),
            |x: K| g(x, m[x]),
        ) - g(k, m[k]),
{
    let m2 = m.remove(k);
    let h1 = |x: K| g(x, m[x]);
    let h2 = |x: K| g(x, m2[x]);
    assert(m2.dom() =~= m.dom().remove(k));
    lemma_sum_congruent(m.dom().remove(k), h1, h2);
    lemma_sum_remove(m.dom(), h1, k);
}

proof fn lemma_idle_bytes_insert<T>(idle: Map<(u32, u32, u8), Seq<T>>, k: (u32, u32, u8), v: Seq<T>)
    requires
        idle.dom().finite(),
    ensures
        idle_bytes(idle.insert(k, v)) == idle_bytes(idle) - bucket_of(idle, k).len() * key_bytes(k)
            + v.len() * key_bytes(k),
{
    let g = |x: (u32, u32, u8), b: Seq<T>| b.len() * key_bytes(x);
    lemma_map_sum_insert(idle, g, k, v);
    let m2 = idle.insert(k, v);
    lemma_sum_congruent(
        m2.dom(),
        |x: (u32, u32, u8)| g(x, m2[x]),
        |x: (u32, u32, u8)| bucket_of(m2, x).len() * key_bytes(x),
    );
    lemma_sum_congruent(
        idle.dom(),
        |x: (u32, u32, u8)| g(x, idle[x]),
        |x: (u32, u32, u8)| bucket_of(idle, x).len() * key_bytes(x),
    );
}

proof fn lemma_handed_out_insert<T>(m: Map<u32, PooledTexture<T>>, id: u32, e: PooledTexture<T>)
    requires
        m.dom().finite(),
    ensures
        handed_out_bytes(m.insert(id, e)) == handed_out_bytes(m) - (if m.dom().contains(id) {
            entry_bytes(m[id])
        } else {
            0
        }) + entry_bytes(e),
{
    let g = |x: u32, t: PooledTexture<T>| entry_bytes(t);
    lemma_map_sum_insert(m, g, id, e);
    let m2 = m.insert(id, e);
    lemma_sum_congruent(m2.dom(), |x: u32| g(x, m2[x]), |x: u32| entry_bytes(m2[x]));
    lemma_sum_congruent(m.dom(), |x: u32| g(x, m[x]), |x: u32| entry_bytes(m[x]));
}

proof fn lemma_handed_out_remove<T>(m: Map<u32, PooledTexture<T>>, id: u32)
    requires
        m.dom().finite(),
        m.dom().contains(id),
    ensures
        handed_out_bytes(m.remove(id)) == handed_out_bytes(m) - entry_bytes(m[id]),
{
    let g = |x: u32, t: PooledTexture<T>| entry_bytes(t);
    lemma_map_sum_remove(m, g, id);
    let m2 = m.remove(id);
    lemma_sum_congruent(m2.dom(), |x: u32| g(x, m2[x]), |x: u32| entry_bytes(m2[x]));
    lemma_sum_congruent(m.dom(), |x: u32| g(x, m[x]), |x: u32| entry_bytes(m[x]));
}

proof fn lemma_returned_push<T>(s: Seq<PooledTexture<T>>, e: PooledTexture<T>)
    ensures
        returned_bytes(s.push(e)) == returned_bytes(s) + entry_bytes(e),
    decreases s.len(),
{
    reveal_with_fuel(returned_bytes, 2);
    if s.len() > 0 {
        assert(s.push(e).subrange(1, s.push(e).len() as int) =~= s.subrange(1, s.len() as int).push(e));
        lemma_returned_push(s.subrange(1, s.len() as int), e);
    } else {
        assert(s.push(e).subrange(1, 1) =~= Seq::<PooledTexture<T>>::empty());
    }
}

proof fn lemma_returned_nonneg<T>(s: Seq<PooledTexture<T>>)
    ensures
        returned_bytes(s) >= 0,
    decreases s.len(),
{
    if s.len() > 0 {
        lemma_key_bytes(s[0].size.0, s[0].size.1, s[0].format);
        lemma_returned_nonneg(s.subrange(1, s.len() as int));
    }
}

proof fn lemma_sums_nonneg<T>(idle: Map<(u32, u32, u8), Seq<T>>, m: Map<u32, PooledTexture<T>>)
    requires
        idle.dom().finite(),
        m.dom().finite(),
    ensures
        idle_bytes(idle) >= 0,
        handed_out_bytes(m) >= 0,
{
    assert forall|k: (u32, u32, u8)| idle.dom().contains(k) implies bucket_of(idle, k).len()
        * key_bytes(k) >= 0 by {
        assert(k.0 * k.1 >= 0) by (nonlinear_arith);
        assert(bucket_of(idle, k).len() * key_bytes(k) >= 0) by (nonlinear_arith)
            requires
                key_bytes(k) >= 0,
        ;
    }
    lemma_sum_bounds(idle.dom(), |k: (u32, u32, u8)| bucket_of(idle, k).len() * key_bytes(k));
    assert forall|id: u32| m.dom().contains(id) implies entry_bytes(m[id]) >= 0 by {
        lemma_key_bytes(m[id].size.0, m[id].size.1, m[id].format);
    }
    lemma_sum_bounds(m.dom(), |id: u32| entry_bytes(m[id]));
}

/// A pool that hands out textures under stable `TextureId` handles.
/// Released textures go back to the underlying pool at the next `collect_returns`.
pub struct GpuTexturePool<T> {
    inner: TexturePool<T>,
    next_id: u32,
    textures: HashMap<u32, PooledTexture<T>>,
    returned: Vec<PooledTexture<T>>,
}

impl<T> GpuTexturePool<T> {
    /// The underlying pool.
    pub closed spec fn spec_inner(&self) -> TexturePool<T> {
        self.inner
    }

    /// The identifier the next texture gets.
    pub closed spec fn spec_next_id(&self) -> u32 {
        self.next_id
    }

    /// The textures handed out, by identifier.
    pub closed spec fn spec_textures(&self) -> Map<u32, PooledTexture<T>> {
        self.textures@
    }

    /// The released textures not yet taken back into the pool, in release order.
    pub closed spec fn spec_returned(&self) -> Seq<PooledTexture<T>> {
        self.returned@
    }

    /// The byte count of the pool is the bytes of every texture it created
    /// and still holds: idle, handed out, or released and not yet taken
    /// back; and the pixel count of each of them fits in 32 bits.
    pub open spec fn bytes_accounted(&self) -> bool {
        &&& self.spec_inner().spec_bytes() == idle_bytes(self.spec_inner().spec_idle())
            + handed_out_bytes(self.spec_textures()) + returned_bytes(self.spec_returned())
        &&& forall|k: (u32, u32, u8)| #[trigger]
            bucket_of(self.spec_inner().spec_idle(), k).len() > 0 ==> k.0 * k.1 <= u32::MAX
        &&& forall|id: u32| #[trigger]
            self.spec_textures().contains_key(id) ==> entry_fits(self.spec_textures()[id])
        &&& forall|i: int|
            0 <= i < self.spec_returned().len() ==> entry_fits(#[trigger] self.spec_returned()[i])
    }

    /// The underlying pool is well formed, identifiers start at 1, and the
    /// bytes are accounted for.
    pub open spec fn wf(&self) -> bool {
        &&& self.spec_inner().wf()
        &&& self.spec_next_id() >= 1
        &&& self.spec_textures().dom().finite()
        &&& self.bytes_accounted()
    }

    /// An empty pool whose first identifier is 1.
    pub fn new(config: TexturePoolConfig) -> (r: Self)
        ensures
            r.wf(),
            r.spec_inner().spec_config() == config,
            r.spec_inner().spec_idle() == Map::<(u32, u32, u8), Seq<T>>::empty(),
            r.spec_inner().spec_bytes() == 0,
            r.spec_next_id() == 1,
            r.spec_textures() == Map::<u32, PooledTexture<T>>::empty(),
            r.spec_returned() == Seq::<PooledTexture<T>>::empty(),
    {
        let r = GpuTexturePool {
            inner: TexturePool::new(config),
            next_id: 1,
            textures: HashMap::new(),
            returned: Vec::new(),
        };
        proof {
            lemma_sum_empty(
                |k: (u32, u32, u8)| bucket_of(r.inner.spec_idle(), k).len() * key_bytes(k),
            );
            lemma_sum_empty(|id: u32| entry_bytes(r.textures@[id]));
            assert(r.inner.spec_idle().dom() =~= Set::<(u32, u32, u8)>::empty());
            assert(r.textures@.dom() =~= Set::<u32>::empty());
        }
        r
    }

    /// Acquires a texture from the pool as `TexturePool::acquire` does and
    /// records it under the next identifier, which is returned. A texture
    /// still recorded under that identifier (after the identifiers wrapped
    /// around) is released.
    pub fn acquire<F>(&mut self, width: u32, height: u32, format: PoolTextureFormat, create: F) -> (r:
        TextureId)
        where
            F: FnOnce(u32, u32, PoolTextureFormat) -> T,
        requires
            old(self).wf(),
            call_requires(create, (width, height, format)),
            acquire_allowed(
                old(self).spec_inner().spec_idle(),
                old(self).spec_inner().spec_bytes() as int,
                width,
                height,
                format,
            ),
        ensures
            final(self).wf(),
            r.0 == old(self).spec_next_id(),
            final(self).spec_next_id() == id_after(old(self).spec_next_id()),
            final(self).spec_inner().spec_config() == old(self).spec_inner().spec_config(),
            final(self).spec_inner().spec_idle() == idle_after_take(
                old(self).spec_inner().spec_idle(),
                spec_bucket_key(width, height, format),
            ),
            final(self).spec_inner().spec_bytes() == bytes_after_take(
                old(self).spec_inner().spec_idle(),
                old(self).spec_inner().spec_bytes() as int,
                width,
                height,
                format,
            ),
            final(self).spec_textures().contains_key(r.0),
            final(self).spec_textures().remove(r.0) == old(self).spec_textures().remove(r.0),
            final(self).spec_textures()[r.0].size == (width, height),
            final(self).spec_textures()[r.0].format == format,
            match taken(old(self).spec_inner().spec_idle(), spec_bucket_key(width, height, format)) {
                Some(t) => final(self).spec_textures()[r.0].texture == t,
                None => call_ensures(create, (width, height, format), final(self).spec_textures()[r.0].texture),
            },
            final(self).spec_returned() == (if old(self).spec_textures().contains_key(r.0) {
                old(self).spec_returned().push(old(self).spec_textures()[r.0])
            } else {
                old(self).spec_returned()
            }),
    {
        let ghost old_idle = self.inner.spec_idle();
        let ghost old_textures = self.textures@;
        let ghost old_returned = self.returned@;
        let ghost key = spec_bucket_key(width, height, format);
        let id = self.next_id;
        let bumped = self.next_id.wrapping_add(1);
        self.next_id = if bumped < 1 { 1 } else { bumped };
        let texture = self.inner.acquire(width, height, format, create);
        let entry = PooledTexture { texture, size: (width, height), format };
        let ghost e = entry;
        match self.textures.insert(id, entry) {
            Some(previous) => {
                self.returned.push(previous);
            },
            None => {},
        }
        proof {
            lemma_key_bytes(width, height, format);
            lemma_handed_out_insert(old_textures, id, e);
            if old_textures.dom().contains(id) {
                lemma_returned_push(old_returned, old_textures[id]);
            }
            assert(self.textures@.remove(id) =~= old_textures.remove(id));
            if bucket_of(old_idle, key).len() > 0 {
                lemma_idle_bytes_insert(old_idle, key, bucket_of(old_idle, key).drop_last());
                assert(key.0 * key.1 <= u32::MAX);
                let n = bucket_of(old_idle, key).len() as int;
                assert(n * key_bytes(key) - (n - 1) * key_bytes(key) == key_bytes(key))
                    by (nonlinear_arith);
            }
            assert forall|k: (u32, u32, u8)| #[trigger]
                bucket_of(self.inner.spec_idle(), k).len() > 0 implies k.0 * k.1 <= u32::MAX by {
                if bucket_of(old_idle, k).len() > 0 {
                } else {
                    assert(bucket_of(self.inner.spec_idle(), k).len() <= bucket_of(old_idle, k).len());
                }
            }
            assert forall|i: int| 0 <= i < self.returned@.len() implies entry_fits(
                #[trigger] self.returned@[i],
            ) by {
                if i < old_returned.len() {
                    assert(self.returned@[i] == old_returned[i]);
                } else {
                    assert(old_textures.contains_key(id));
                }
            }
        }
        TextureId(id)
    }

    /// Releases the texture recorded under `id`: it leaves the handed-out
    /// textures and waits to go back to the pool. Nothing happens for an
    /// unknown identifier.
    pub fn release(&mut self, id: TextureId)
        requires
            old(self).wf(),
        ensures
            final(self).wf(),
            final(self).spec_inner() == old(self).spec_inner(),
            final(self).spec_next_id() == old(self).spec_next_id(),
            final(self).spec_textures() == old(self).spec_textures().remove(id.0),
            final(self).spec_returned() == (if old(self).spec_textures().contains_key(id.0) {
                old(self).spec_returned().push(old(self).spec_textures()[id.0])
            } else {
                old(self).spec_returned()
            }),
    {
        let ghost old_textures = self.textures@;
        let ghost old_returned = self.returned@;
        match self.textures.remove(&id.0) {
            Some(t) => {
                self.returned.push(t);
                proof {
                    assert(self.textures@ == old_textures.remove(id.0));
                    assert(self.returned@ == old_returned.push(old_textures[id.0]));
                    lemma_handed_out_remove(old_textures, id.0);
                    lemma_returned_push(old_returned, old_textures[id.0]);
                    assert(handed_out_bytes(self.textures@) == handed_out_bytes(old_textures)
                        - entry_bytes(old_textures[id.0]));
                    assert(returned_bytes(self.returned@) == returned_bytes(old_returned)
                        + entry_bytes(old_textures[id.0]));
                    assert forall|i: int| 0 <= i < self.returned@.len() implies entry_fits(
                        #[trigger] self.returned@[i],
                    ) by {
                        if i < old_returned.len() {
                            assert(self.returned@[i] == old_returned[i]);
                        }
                    }
                }
            },
            None => {
                assert(self.textures@ =~= old_textures.remove(id.0));
                assert(self.textures@ =~= old_textures);
            },
        }
    }

    /// The texture recorded under `id`, if any.
    pub fn get_texture(&self, id: TextureId) -> (r: Option<&PooledTexture<T>>)
        ensures
            match r {
                Some(t) => self.spec_textures().contains_key(id.0) && *t == self.spec_textures()[id.0],
                None => !self.spec_textures().contains_key(id.0),
            },
    {
        self.textures.get(&id.0)
    }

    /// Takes the released textures back into the pool, in release order, as
    /// `TexturePool::collect_return` does.
    pub fn collect_returns(&mut self)
        requires
            old(self).wf(),
        ensures
            final(self).wf(),
            final(self).spec_next_id() == old(self).spec_next_id(),
            final(self).spec_textures() == old(self).spec_textures(),
            final(self).spec_returned() == Seq::<PooledTexture<T>>::empty(),
            final(self).spec_inner().spec_config() == old(self).spec_inner().spec_config(),
            (final(self).spec_inner().spec_idle(), final(self).spec_inner().spec_bytes() as int)
                == after_returns(
                old(self).spec_inner().spec_idle(),
                old(self).spec_inner().spec_bytes() as int,
                old(self).spec_returned(),
                old(self).spec_inner().spec_config().max_per_bucket,
            ),
    {
        let mut pending: Vec<PooledTexture<T>> = Vec::new();
        std::mem::swap(&mut pending, &mut self.returned);
        let ghost max = self.inner.config.max_per_bucket;
        let ghost target = after_returns(
            self.inner.spec_idle(),
            self.inner.spec_bytes() as int,
            pending@,
            max,
        );
        proof {
            lemma_sum_empty(|k: (u32, u32, u8)| 0int);
        }
        while pending.len() > 0
            invariant
                self.inner.wf(),
                self.inner.config == old(self).inner.config,
                self.inner.config.max_per_bucket == max,
                self.next_id == old(self).next_id,
                self.next_id >= 1,
                self.textures@ == old(self).textures@,
                self.textures@.dom().finite(),
                self.returned@ == Seq::<PooledTexture<T>>::empty(),
                after_returns(self.inner.spec_idle(), self.inner.spec_bytes() as int, pending@, max)
                    == target,
                self.inner.spec_bytes() == idle_bytes(self.inner.spec_idle()) + handed_out_bytes(
                    self.textures@,
                ) + returned_bytes(pending@),
                forall|k: (u32, u32, u8)| #[trigger]
                    bucket_of(self.inner.spec_idle(), k).len() > 0 ==> k.0 * k.1 <= u32::MAX,
                forall|id: u32| #[trigger]
                    self.textures@.contains_key(id) ==> entry_fits(self.textures@[id]),
                forall|i: int| 0 <= i < pending@.len() ==> entry_fits(#[trigger] pending@[i]),
            decreases pending.len(),
        {
            let ghost before = pending@;
            let ghost idle0 = self.inner.spec_idle();
            let e = pending.remove(0);
            let PooledTexture { texture, size, format } = e;
            let ghost key = spec_bucket_key(size.0, size.1, format);
            proof {
                assert(pending@ =~= before.subrange(1, before.len() as int));
                assert(entry_fits(before[0]));
                lemma_key_bytes(size.0, size.1, format);
                lemma_returned_nonneg(pending@);
                lemma_sums_nonneg(idle0, self.textures@);
                lemma_idle_bytes_insert(
                    idle0,
                    key,
                    if bucket_of(idle0, key).len() < max {
                        bucket_of(idle0, key).push(texture)
                    } else {
                        bucket_of(idle0, key)
                    },
                );
                assert(spec_texture_bytes(size.0, size.1, format) <= self.inner.spec_bytes());
                let n = bucket_of(idle0, key).len() as int;
                assert((n + 1) * key_bytes(key) - n * key_bytes(key) == key_bytes(key))
                    by (nonlinear_arith);
                assert(returned_bytes(before) == entry_bytes(before[0]) + returned_bytes(pending@));
            }
            self.inner.collect_return(texture, size.0, size.1, format);
            proof {
                assert forall|k: (u32, u32, u8)| #[trigger]
                    bucket_of(self.inner.spec_idle(), k).len() > 0 implies k.0 * k.1 <= u32::MAX by {
                    if k != key {
                        assert(bucket_of(self.inner.spec_idle(), k) == bucket_of(idle0, k));
                    }
                }
                assert forall|i: int| 0 <= i < pending@.len() implies entry_fits(
                    #[trigger] pending@[i],
                ) by {
                    assert(pending@[i] == before[i + 1]);
                }
            }
        }
        proof {
            assert(pending@ =~= Seq::<PooledTexture<T>>::empty());
        }
    }
}

} // verus!
