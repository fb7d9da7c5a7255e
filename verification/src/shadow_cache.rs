//! The cache of pre-rendered shadow textures.
//!
//! Shadows with the same size, corner radius, blur radius and colour share
//! one cached texture. A shadow drawn from the cache refreshes the entry's
//! last-used frame; a shadow missing from the cache is rendered into a new
//! entry, but only for the first few misses of a frame, after which it is
//! drawn directly. Entries unused for more than 300 frames are evicted, and
//! the whole cache is dropped when the renderer is replaced. Rendering the
//! shadow textures is left to the caller; the cache holds their handles.

use vstd::prelude::*;
use std::collections::HashMap;
use vstd::std_specs::iter::IteratorSpec;

verus! {

broadcast use vstd::std_specs::hash::group_hash_axioms;

/// Misses per frame that may render a new cached shadow.
pub const SHADOW_MISS_BUDGET_PER_FRAME: u64 = 5;

/// Frames an entry may go unused before it is evicted.
pub const SHADOW_CACHE_MAX_AGE_FRAMES: u64 = 300;

/// Key of a cached shadow texture: node size in pixels, corner and blur
/// radius in half pixels, and the shadow's RGBA colour.
#[derive(Clone, Copy, Debug, PartialEq, Eq, Hash)]
pub struct ShadowCacheKey {
    pub width: u16,
    pub height: u16,
    pub border_radius: u16,
    pub blur_radius: u16,
    pub color: [u8; 4],
}

/// A cached shadow: its texture handle and the last frame it was used in.
pub struct ShadowEntry<T> {
    pub image: T,
    pub last_used_frame: u64,
}

/// Counters of cache hits, misses and evictions.
#[derive(Debug, Clone, Copy, PartialEq, Eq, Structural)]
pub struct ShadowCacheStats {
    pub hits: u64,
    pub misses: u64,
    pub evictions: u64,
}

/// How a shadow is drawn.
#[derive(Debug, Clone, Copy, PartialEq, Eq, Structural)]
pub enum ShadowDraw {
    /// From its cached texture.
    Cached,
    /// Rendered into a new cached texture, then drawn from it.
    Render,
    /// Drawn directly, without caching: the frame's miss budget is spent.
    Direct,
}

/// The number that encodes a key as a hash-map key.
pub open spec fn spec_shadow_key_code(k: ShadowCacheKey) -> u128 {
    ((k.width as u128) << 80u128) | ((k.height as u128) << 64u128) | ((k.border_radius as u128)
        << 48u128) | ((k.blur_radius as u128) << 32u128) | ((k.color[0] as u128) << 24u128) | ((
    k.color[1] as u128) << 16u128) | ((k.color[2] as u128) << 8u128) | (k.color[3] as u128)
}

proof fn lemma_code_parts(
    a0: u16,
    a1: u16,
    a2: u16,
    a3: u16,
    a4: u8,
    a5: u8,
    a6: u8,
    a7: u8,
    b0: u16,
    b1: u16,
    b2: u16,
    b3: u16,
    b4: u8,
    b5: u8,
    b6: u8,
    b7: u8,
)
    requires
        ((a0 as u128) << 80u128) | ((a1 as u128) << 64u128) | ((a2 as u128) << 48u128) | ((
        a3 as u128) << 32u128) | ((a4 as u128) << 24u128) | ((a5 as u128) << 16u128) | ((
        a6 as u128) << 8u128) | (a7 as u128) == ((b0 as u128) << 80u128) | ((b1 as u128)
            << 64u128) | ((b2 as u128) << 48u128) | ((b3 as u128) << 32u128) | ((b4 as u128)
            << 24u128) | ((b5 as u128) << 16u128) | ((b6 as u128) << 8u128) | (b7 as u128),
    ensures
        a0 == b0 && a1 == b1 && a2 == b2 && a3 == b3 && a4 == b4 && a5 == b5 && a6 == b6 && a7
            == b7,
{
    assert(a0 == b0 && a1 == b1 && a2 == b2 && a3 == b3 && a4 == b4 && a5 == b5 && a6 == b6
        && a7 == b7) by (bit_vector)
        requires
            ((a0 as u128) << 80u128) | ((a1 as u128) << 64u128) | ((a2 as u128) << 48u128) | ((
            a3 as u128) << 32u128) | ((a4 as u128) << 24u128) | ((a5 as u128) << 16u128) | ((
            a6 as u128) << 8u128) | (a7 as u128) == ((b0 as u128) << 80u128) | ((b1 as u128)
                << 64u128) | ((b2 as u128) << 48u128) | ((b3 as u128) << 32u128) | ((b4 as u128)
                << 24u128) | ((b5 as u128) << 16u128) | ((b6 as u128) << 8u128) | (b7 as u128),
    ;
}

proof fn lemma_code_injective(a: ShadowCacheKey, b: ShadowCacheKey)
    ensures
        spec_shadow_key_code(a) == spec_shadow_key_code(b) ==> a == b,
{
    if spec_shadow_key_code(a) == spec_shadow_key_code(b) {
        lemma_code_parts(
            a.width,
            a.height,
            a.border_radius,
            a.blur_radius,
            a.color[0],
            a.color[1],
            a.color[2],
            a.color[3],
            b.width,
            b.height,
            b.border_radius,
            b.blur_radius,
            b.color[0],
            b.color[1],
            b.color[2],
            b.color[3],
        );
        assert(a.color =~= b.color);
    }
}

fn shadow_key_code(k: &ShadowCacheKey) -> (r: u128)
    ensures
        r == spec_shadow_key_code(*k),
{
    ((k.width as u128) << 80u128) | ((k.height as u128) << 64u128) | ((k.border_radius as u128)
        << 48u128) | ((k.blur_radius as u128) << 32u128) | ((k.color[0] as u128) << 24u128) | ((
    k.color[1] as u128) << 16u128) | ((k.color[2] as u128) << 8u128) | (k.color[3] as u128)
}

proof fn lemma_push_contains<A>(s: Seq<A>, x: A, y: A)
    ensures
        s.push(x).contains(y) == (s.contains(y) || y == x),
{
    if y == x {
        assert(s.push(x)[s.len() as int] == y);
    }
    if s.contains(y) {
        let j = choose|j: int| 0 <= j < s.len() && s[j] == y;
        assert(s.push(x)[j] == y);
    }
    if s.push(x).contains(y) {
        let j = choose|j: int| 0 <= j < s.push(x).len() && s.push(x)[j] == y;
        if j < s.len() {
            assert(s[j] == y);
        }
    }
}

/// Whether an entry last used in frame `last` is stale in frame `current`:
/// more than 300 frames have passed.
pub open spec fn is_stale(current: u64, last: u64) -> bool {
    current >= last && current - last > 300
}

/// The shadow cache over texture handles of type `T`.
pub struct ShadowCache<T> {
    entries: HashMap<u128, ShadowEntry<T>>,
    stats: ShadowCacheStats,
    misses_this_frame: u64,
    renderer_id: u64,
}

impl<T> ShadowCache<T> {
    /// The cached shadows by key.
    pub closed spec fn spec_entries(&self) -> Map<ShadowCacheKey, ShadowEntry<T>> {
        Map::new(
            |k: ShadowCacheKey| self.entries@.contains_key(spec_shadow_key_code(k)),
            |k: ShadowCacheKey| self.entries@[spec_shadow_key_code(k)],
        )
    }

    /// Hit, miss and eviction counters.
    pub closed spec fn spec_stats(&self) -> ShadowCacheStats {
        self.stats
    }

    /// Misses counted in the current frame.
    pub closed spec fn spec_misses_this_frame(&self) -> u64 {
        self.misses_this_frame
    }

    /// The renderer the cached textures belong to (0 before the first).
    pub closed spec fn spec_renderer_id(&self) -> u64 {
        self.renderer_id
    }

    /// Every hash-map key encodes a cache key.
    pub closed spec fn wf(&self) -> bool {
        forall|c: u128| #[trigger]
            self.entries@.contains_key(c) ==> exists|k: ShadowCacheKey|
                spec_shadow_key_code(k) == c
    }

    proof fn lemma_view_insert(&self, old_map: Map<u128, ShadowEntry<T>>, key: ShadowCacheKey, e: ShadowEntry<T>)
        requires
            self.entries@ == old_map.insert(spec_shadow_key_code(key), e),
        ensures
            self.spec_entries() == Map::new(
                |k: ShadowCacheKey| old_map.contains_key(spec_shadow_key_code(k)),
                |k: ShadowCacheKey| old_map[spec_shadow_key_code(k)],
            ).insert(key, e),
    {
        let old_view = Map::new(
            |k: ShadowCacheKey| old_map.contains_key(spec_shadow_key_code(k)),
            |k: ShadowCacheKey| old_map[spec_shadow_key_code(k)],
        );
        assert forall|k: ShadowCacheKey| #[trigger] self.spec_entries().contains_key(k)
            == old_view.insert(key, e).contains_key(k) by {
            lemma_code_injective(k, key);
        }
        assert forall|k: ShadowCacheKey| #[trigger] self.spec_entries().contains_key(k) implies
            self.spec_entries()[k] == old_view.insert(key, e)[k] by {
            lemma_code_injective(k, key);
        }
        assert(self.spec_entries() =~= old_view.insert(key, e));
    }

    /// An empty cache with zero counters and no renderer yet.
    pub fn new() -> (r: Self)
        ensures
            r.wf(),
            r.spec_entries() == Map::<ShadowCacheKey, ShadowEntry<T>>::empty(),
            r.spec_stats() == (ShadowCacheStats { hits: 0, misses: 0, evictions: 0 }),
            r.spec_misses_this_frame() == 0,
            r.spec_renderer_id() == 0,
    {
        let r = ShadowCache {
            entries: HashMap::new(),
            stats: ShadowCacheStats { hits: 0, misses: 0, evictions: 0 },
            misses_this_frame: 0,
            renderer_id: 0,
        };
        assert(r.spec_entries() =~= Map::<ShadowCacheKey, ShadowEntry<T>>::empty());
        r
    }

    /// Starts a frame's miss budget afresh.
    pub fn reset_frame_budget(&mut self)
        requires
            old(self).wf(),
        ensures
            final(self).wf(),
            final(self).spec_entries() == old(self).spec_entries(),
            final(self).spec_stats() == old(self).spec_stats(),
            final(self).spec_misses_this_frame() == 0,
            final(self).spec_renderer_id() == old(self).spec_renderer_id(),
    {
        self.misses_this_frame = 0;
    }

    /// Decides how to draw the shadow of `key` in frame `frame`. A cached
    /// shadow is drawn from the cache, its last-used frame set to `frame`,
    /// and counted as a hit. Otherwise the miss is counted, and the shadow
    /// is rendered into the cache while fewer than five misses were counted
    /// in this frame, and drawn directly after that.
    pub fn plan_draw(&mut self, key: &ShadowCacheKey, frame: u64) -> (r: ShadowDraw)
        requires
            old(self).wf(),
            old(self).spec_entries().contains_key(*key) ==> old(self).spec_stats().hits < u64::MAX,
            !old(self).spec_entries().contains_key(*key) ==> old(self).spec_stats().misses
                < u64::MAX,
        ensures
            final(self).wf(),
            final(self).spec_renderer_id() == old(self).spec_renderer_id(),
            old(self).spec_entries().contains_key(*key) ==> {
                &&& r == ShadowDraw::Cached
                &&& final(self).spec_entries() == old(self).spec_entries().insert(
                    *key,
                    ShadowEntry { image: old(self).spec_entries()[*key].image, last_used_frame: frame },
                )
                &&& final(self).spec_stats() == (ShadowCacheStats {
                    hits: (old(self).spec_stats().hits + 1) as u64,
                    ..old(self).spec_stats()
                })
                &&& final(self).spec_misses_this_frame() == old(self).spec_misses_this_frame()
            },
            !old(self).spec_entries().contains_key(*key) ==> {
                &&& r == (if old(self).spec_misses_this_frame() >= 5 {
                    ShadowDraw::Direct
                } else {
                    ShadowDraw::Render
                })
                &&& final(self).spec_entries() == old(self).spec_entries()
                &&& final(self).spec_stats() == (ShadowCacheStats {
                    misses: (old(self).spec_stats().misses + 1) as u64,
                    ..old(self).spec_stats()
                })
                &&& final(self).spec_misses_this_frame() == (if old(self).spec_misses_this_frame()
                    == u64::MAX {
                    0
                } else {
                    (old(self).spec_misses_this_frame() + 1) as u64
                })
            },
    {
        let code = shadow_key_code(key);
        let ghost old_map = self.entries@;
        let ghost old_view = self.spec_entries();
        match self.entries.remove(&code) {
            Some(entry) => {
                let image = entry.image;
                let ghost e = ShadowEntry { image, last_used_frame: frame };
                self.entries.insert(code, ShadowEntry { image, last_used_frame: frame });
                assert(self.entries@ == old_map.insert(code, e)) by {
                    assert(old_map.remove(code).insert(code, e) =~= old_map.insert(code, e));
                }
                proof {
                    self.lemma_view_insert(old_map, *key, e);
                    assert(old_view == Map::new(
                        |k: ShadowCacheKey| old_map.contains_key(spec_shadow_key_code(k)),
                        |k: ShadowCacheKey| old_map[spec_shadow_key_code(k)],
                    ));
                    assert forall|c: u128| #[trigger] self.entries@.contains_key(c) implies exists|
                        k: ShadowCacheKey,
                    | spec_shadow_key_code(k) == c by {
                        if c == code {
                            assert(spec_shadow_key_code(*key) == c);
                        } else {
                            assert(old_map.contains_key(c));
                        }
                    }
                }
                self.stats.hits = self.stats.hits + 1;
                ShadowDraw::Cached
            },
            None => {
                assert(self.entries@ =~= old_map);
                self.stats.misses = self.stats.misses + 1;
                let misses = self.misses_this_frame;
                self.misses_this_frame = self.misses_this_frame.wrapping_add(1);
                if misses >= SHADOW_MISS_BUDGET_PER_FRAME {
                    ShadowDraw::Direct
                } else {
                    ShadowDraw::Render
                }
            },
        }
    }

    /// The cached texture of `key`, if any.
    pub fn cached_image(&self, key: &ShadowCacheKey) -> (r: Option<&T>)
        ensures
            match r {
                Some(t) => self.spec_entries().contains_key(*key) && *t == self.spec_entries()[*key].image,
                None => !self.spec_entries().contains_key(*key),
            },
    {
        match self.entries.get(&shadow_key_code(key)) {
            Some(e) => Some(&e.image),
            None => None,
        }
    }

    /// Caches `image` as the rendered shadow of `key`, used in frame `frame`.
    pub fn insert_rendered(&mut self, key: &ShadowCacheKey, image: T, frame: u64)
        requires
            old(self).wf(),
        ensures
            final(self).wf(),
            final(self).spec_entries() == old(self).spec_entries().insert(
                *key,
                ShadowEntry { image, last_used_frame: frame },
            ),
            final(self).spec_stats() == old(self).spec_stats(),
            final(self).spec_misses_this_frame() == old(self).spec_misses_this_frame(),
            final(self).spec_renderer_id() == old(self).spec_renderer_id(),
    {
        let code = shadow_key_code(key);
        let ghost old_map = self.entries@;
        let ghost e = ShadowEntry { image, last_used_frame: frame };
        self.entries.insert(code, ShadowEntry { image, last_used_frame: frame });
        proof {
            self.lemma_view_insert(old_map, *key, e);
            assert forall|c: u128| #[trigger] self.entries@.contains_key(c) implies exists|
                k: ShadowCacheKey,
            | spec_shadow_key_code(k) == c by {
                if c == code {
                    assert(spec_shadow_key_code(*key) == c);
                } else {
                    assert(old_map.contains_key(c));
                }
            }
        }
    }

    /// The keys of the cached shadows that are stale in frame `current`.
    pub open spec fn stale_keys(&self, current: u64) -> Set<ShadowCacheKey> {
        self.spec_entries().dom().filter(
            |k: ShadowCacheKey| is_stale(current, self.spec_entries()[k].last_used_frame),
        )
    }

    /// The hash-map keys, each once.
    fn entry_codes(&self) -> (r: Vec<u128>)
        ensures
            r@.to_set() == self.entries@.dom(),
            r@.no_duplicates(),
    {
        let mut out: Vec<u128> = Vec::new();
        let ghost keys = vstd::std_specs::hash::spec_keys_iter(&self.entries).remaining();
        for c in it: self.entries.keys()
            invariant
                it.seq() == keys,
                out@ == keys.take(it.index() as int).unref(),
        {
            out.push(*c);
            assert(out@ =~= keys.take(it.index() as int + 1).unref());
        }
        assert(out@ =~= keys.unref());
        out
    }

    /// Evicts the shadows unused for more than 300 frames by frame
    /// `current_frame` and counts the evictions. The evicted textures are
    /// returned, one per evicted key, in no particular order, so that the
    /// caller can release them.
    pub fn evict_stale(&mut self, current_frame: u64) -> (r: Vec<T>)
        requires
            old(self).wf(),
            old(self).spec_stats().evictions + old(self).stale_keys(current_frame).len()
                <= u64::MAX,
        ensures
            final(self).wf(),
            forall|k: ShadowCacheKey|
                #[trigger] final(self).spec_entries().contains_key(k) == (old(self).spec_entries().contains_key(k)
                    && !is_stale(current_frame, old(self).spec_entries()[k].last_used_frame)),
            forall|k: ShadowCacheKey|
                #[trigger] final(self).spec_entries().contains_key(k) ==> final(self).spec_entries()[k]
                    == old(self).spec_entries()[k],
            exists|ks: Seq<ShadowCacheKey>|
                {
                    &&& ks.no_duplicates()
                    &&& ks.to_set() == old(self).stale_keys(current_frame)
                    &&& r@ == ks.map_values(|k: ShadowCacheKey| old(self).spec_entries()[k].image)
                },
            r@.len() == old(self).stale_keys(current_frame).len(),
            final(self).spec_stats() == (ShadowCacheStats {
                evictions: (old(self).spec_stats().evictions + r@.len()) as u64,
                ..old(self).spec_stats()
            }),
            final(self).spec_misses_this_frame() == old(self).spec_misses_this_frame(),
            final(self).spec_renderer_id() == old(self).spec_renderer_id(),
    {
        let ghost old_map = self.entries@;
        let ghost old_view = self.spec_entries();
        let ghost stale_set = self.stale_keys(current_frame);
        let codes = self.entry_codes();
        let mut evicted: Vec<T> = Vec::new();
        let ghost mut ks: Seq<ShadowCacheKey> = Seq::empty();
        let mut i: usize = 0;
        while i < codes.len()
            invariant
                0 <= i <= codes@.len(),
                codes@.no_duplicates(),
                codes@.to_set() == old_map.dom(),
                old_view == Map::new(
                    |k: ShadowCacheKey| old_map.contains_key(spec_shadow_key_code(k)),
                    |k: ShadowCacheKey| old_map[spec_shadow_key_code(k)],
                ),
                forall|c: u128| #[trigger]
                    old_map.contains_key(c) ==> exists|k: ShadowCacheKey| spec_shadow_key_code(k) == c,
                forall|c: u128|
                    #[trigger] self.entries@.contains_key(c) == (old_map.contains_key(c) && !(
                    codes@.take(i as int).contains(c) && is_stale(
                        current_frame,
                        old_map[c].last_used_frame,
                    ))),
                forall|c: u128| #[trigger]
                    self.entries@.contains_key(c) ==> self.entries@[c] == old_map[c],
                ks.no_duplicates(),
                forall|k: ShadowCacheKey|
                    #[trigger] ks.contains(k) == (codes@.take(i as int).contains(spec_shadow_key_code(k))
                        && old_map.contains_key(spec_shadow_key_code(k)) && is_stale(
                        current_frame,
                        old_map[spec_shadow_key_code(k)].last_used_frame,
                    )),
                evicted@ == ks.map_values(|k: ShadowCacheKey| old_view[k].image),
                self.stats == old(self).stats,
                self.misses_this_frame == old(self).misses_this_frame,
                self.renderer_id == old(self).renderer_id,
            decreases codes@.len() - i,
        {
            let c = codes[i];
            let ghost prev_map = self.entries@;
            let ghost prev_ks = ks;
            assert(codes@.to_set().contains(c));
            assert(old_map.contains_key(c));
            assert(!codes@.take(i as int).contains(c)) by {
                if codes@.take(i as int).contains(c) {
                    let j = choose|j: int| 0 <= j < i && codes@.take(i as int)[j] == c;
                    assert(codes@[j] == codes@[i as int]);
                }
            }
            assert(codes@.take(i as int + 1) =~= codes@.take(i as int).push(c));
            proof {
                assert forall|c2: u128| #[trigger] codes@.take(i as int + 1).contains(c2) == (codes@.take(
                    i as int,
                ).contains(c2) || c2 == c) by {
                    lemma_push_contains(codes@.take(i as int), c, c2);
                }
            }
            let stale = match self.entries.get(&c) {
                Some(e) => current_frame.saturating_sub(e.last_used_frame) > SHADOW_CACHE_MAX_AGE_FRAMES,
                None => false,
            };
            assert(stale == is_stale(current_frame, old_map[c].last_used_frame));
            if stale {
                let k_c = Ghost(choose|k: ShadowCacheKey| spec_shadow_key_code(k) == c);
                match self.entries.remove(&c) {
                    Some(e) => {
                        evicted.push(e.image);
                    },
                    None => {},
                }
                proof {
                    assert(spec_shadow_key_code(k_c@) == c);
                    assert(!prev_ks.contains(k_c@));
                    ks = prev_ks.push(k_c@);
                    assert(old_view[k_c@] == old_map[c]);
                    assert(evicted@ =~= ks.map_values(|k: ShadowCacheKey| old_view[k].image));
                    assert forall|k: ShadowCacheKey| #[trigger] ks.contains(k) == (codes@.take(
                        i as int + 1,
                    ).contains(spec_shadow_key_code(k)) && old_map.contains_key(
                        spec_shadow_key_code(k),
                    ) && is_stale(current_frame, old_map[spec_shadow_key_code(k)].last_used_frame)) by {
                        lemma_code_injective(k, k_c@);
                        lemma_push_contains(prev_ks, k_c@, k);
                    }
                }
            } else {
                proof {
                    assert forall|k: ShadowCacheKey| #[trigger] ks.contains(k) == (codes@.take(
                        i as int + 1,
                    ).contains(spec_shadow_key_code(k)) && old_map.contains_key(
                        spec_shadow_key_code(k),
                    ) && is_stale(current_frame, old_map[spec_shadow_key_code(k)].last_used_frame)) by {
                        if spec_shadow_key_code(k) == c {
                        }
                    }
                }
            }
            i = i + 1;
        }
        proof {
            assert(codes@.take(codes@.len() as int) =~= codes@);
            assert forall|k: ShadowCacheKey| #[trigger] ks.to_set().contains(k) == stale_set.contains(k) by {
                assert(codes@.to_set().contains(spec_shadow_key_code(k)) == old_map.contains_key(
                    spec_shadow_key_code(k),
                ));
            }
            assert(ks.to_set() =~= stale_set);
            ks.unique_seq_to_set();
            assert forall|c: u128| #[trigger] self.entries@.contains_key(c) implies exists|
                k: ShadowCacheKey,
            | spec_shadow_key_code(k) == c by {
                assert(old_map.contains_key(c));
            }
            assert forall|k: ShadowCacheKey| #[trigger]
                self.spec_entries().contains_key(k) == (old_view.contains_key(k) && !is_stale(
                    current_frame,
                    old_view[k].last_used_frame,
                )) by {
                assert(codes@.to_set().contains(spec_shadow_key_code(k)) == old_map.contains_key(
                    spec_shadow_key_code(k),
                ));
            }
        }
        let n = evicted.len();
        self.stats.evictions = self.stats.evictions + (n as u64);
        evicted
    }

    /// Records the renderer that draws with the cache. When a different
    /// renderer replaces an earlier one, every cached texture belonged to the
    /// old renderer: all entries are dropped and their textures returned, in
    /// no particular order, for the caller to release.
    pub fn sync_renderer_id(&mut self, current_id: u64) -> (r: Vec<T>)
        requires
            old(self).wf(),
        ensures
            final(self).wf(),
            final(self).spec_renderer_id() == current_id,
            final(self).spec_stats() == old(self).spec_stats(),
            final(self).spec_misses_this_frame() == old(self).spec_misses_this_frame(),
            old(self).spec_renderer_id() != 0 && old(self).spec_renderer_id() != current_id ==> {
                &&& final(self).spec_entries() == Map::<ShadowCacheKey, ShadowEntry<T>>::empty()
                &&& exists|ks: Seq<ShadowCacheKey>|
                    {
                        &&& ks.no_duplicates()
                        &&& ks.to_set() == old(self).spec_entries().dom()
                        &&& r@ == ks.map_values(|k: ShadowCacheKey| old(self).spec_entries()[k].image)
                    }
            },
            !(old(self).spec_renderer_id() != 0 && old(self).spec_renderer_id() != current_id) ==> {
                &&& final(self).spec_entries() == old(self).spec_entries()
                &&& r@.len() == 0
            },
    {
        let last_id = self.renderer_id;
        let mut dropped: Vec<T> = Vec::new();
        if last_id != 0 && last_id != current_id {
            let ghost old_map = self.entries@;
            let ghost old_view = self.spec_entries();
            let codes = self.entry_codes();
            let ghost mut ks: Seq<ShadowCacheKey> = Seq::empty();
            let mut i: usize = 0;
            while i < codes.len()
                invariant
                    0 <= i <= codes@.len(),
                    codes@.no_duplicates(),
                    codes@.to_set() == old_map.dom(),
                    old_view == Map::new(
                        |k: ShadowCacheKey| old_map.contains_key(spec_shadow_key_code(k)),
                        |k: ShadowCacheKey| old_map[spec_shadow_key_code(k)],
                    ),
                    forall|c: u128| #[trigger]
                        old_map.contains_key(c) ==> exists|k: ShadowCacheKey| spec_shadow_key_code(k)
                            == c,
                    forall|c: u128|
                        #[trigger] self.entries@.contains_key(c) == (old_map.contains_key(c)
                            && !codes@.take(i as int).contains(c)),
                    forall|c: u128| #[trigger]
                        self.entries@.contains_key(c) ==> self.entries@[c] == old_map[c],
                    ks.no_duplicates(),
                    forall|k: ShadowCacheKey|
                        #[trigger] ks.contains(k) == codes@.take(i as int).contains(
                            spec_shadow_key_code(k),
                        ),
                    dropped@ == ks.map_values(|k: ShadowCacheKey| old_view[k].image),
                    self.stats == old(self).stats,
                    self.misses_this_frame == old(self).misses_this_frame,
                    self.renderer_id == old(self).renderer_id,
                decreases codes@.len() - i,
            {
                let c = codes[i];
                let ghost prev_ks = ks;
                assert(codes@.to_set().contains(c));
                assert(old_map.contains_key(c));
                assert(!codes@.take(i as int).contains(c)) by {
                    if codes@.take(i as int).contains(c) {
                        let j = choose|j: int| 0 <= j < i && codes@.take(i as int)[j] == c;
                        assert(codes@[j] == codes@[i as int]);
                    }
                }
                assert(codes@.take(i as int + 1) =~= codes@.take(i as int).push(c));
                proof {
                    assert forall|c2: u128| #[trigger] codes@.take(i as int + 1).contains(c2) == (
                    codes@.take(i as int).contains(c2) || c2 == c) by {
                        lemma_push_contains(codes@.take(i as int), c, c2);
                    }
                }
                let k_c = Ghost(choose|k: ShadowCacheKey| spec_shadow_key_code(k) == c);
                match self.entries.remove(&c) {
                    Some(e) => {
                        dropped.push(e.image);
                    },
                    None => {},
                }
                proof {
                    assert(spec_shadow_key_code(k_c@) == c);
                    assert(!prev_ks.contains(k_c@));
                    ks = prev_ks.push(k_c@);
                    assert(old_view[k_c@] == old_map[c]);
                    assert(dropped@ =~= ks.map_values(|k: ShadowCacheKey| old_view[k].image));
                    assert forall|k: ShadowCacheKey| #[trigger] ks.contains(k) == codes@.take(
                        i as int + 1,
                    ).contains(spec_shadow_key_code(k)) by {
                        lemma_code_injective(k, k_c@);
                        lemma_push_contains(prev_ks, k_c@, k);
                    }
                }
                i = i + 1;
            }
            proof {
                assert(codes@.take(codes@.len() as int) =~= codes@);
                assert forall|k: ShadowCacheKey| #[trigger] ks.to_set().contains(k)
                    == old_view.dom().contains(k) by {
                    assert(codes@.to_set().contains(spec_shadow_key_code(k)) == old_map.contains_key(
                        spec_shadow_key_code(k),
                    ));
                }
                assert(ks.to_set() =~= old_view.dom());
                assert forall|c: u128| #[trigger] self.entries@.contains_key(c) implies exists|
                    k: ShadowCacheKey,
                | spec_shadow_key_code(k) == c by {
                    assert(old_map.contains_key(c));
                }
                assert(self.spec_entries() =~= Map::<ShadowCacheKey, ShadowEntry<T>>::empty()) by {
                    assert forall|k: ShadowCacheKey| !#[trigger] self.spec_entries().contains_key(k) by {
                        assert(codes@.to_set().contains(spec_shadow_key_code(k))
                            == old_map.contains_key(spec_shadow_key_code(k)));
                    }
                }
            }
        }
        self.renderer_id = current_id;
        dropped
    }

    /// The counters.
    pub fn stats(&self) -> (r: ShadowCacheStats)
        ensures
            r == self.spec_stats(),
    {
        self.stats
    }
}

} // verus!
