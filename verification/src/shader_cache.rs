//! Pipeline-cache bookkeeping: whether a cache was loaded, where it is
//! saved, and whether it was warmed in this session. Reading and writing the
//! cache file is left to the caller.

use vstd::prelude::*;

verus! {

/// Shader cache configuration.
pub struct ShaderCacheConfig {
    /// Cache file path.
    pub cache_path: String,
    /// Whether the cache is used at all.
    pub enabled: bool,
    /// Whether to warm the cache in the background.
    pub background_warm: bool,
}

impl ShaderCacheConfig {
    /// The default configuration: `vello_cache.bin`, enabled, warmed in the background.
    pub fn new_default() -> (r: Self)
        ensures
            r.cache_path@ == "vello_cache.bin"@,
            r.enabled,
            r.background_warm,
    {
        ShaderCacheConfig {
            cache_path: String::from_str("vello_cache.bin"),
            enabled: true,
            background_warm: true,
        }
    }
}

impl Default for ShaderCacheConfig {
    fn default() -> (r: Self)
        ensures
            r.cache_path@ == "vello_cache.bin"@,
            r.enabled,
            r.background_warm,
    {
        Self::new_default()
    }
}

/// Shader cache manager.
pub struct ShaderCacheManager {
    config: ShaderCacheConfig,
    cache_data: Option<Vec<u8>>,
    warmed: bool,
}

impl ShaderCacheManager {
    /// The configuration this manager was made with.
    pub closed spec fn spec_config(&self) -> &ShaderCacheConfig {
        &self.config
    }

    /// The cache bytes held, if any.
    pub closed spec fn spec_cache(&self) -> Option<Seq<u8>> {
        match self.cache_data {
            Some(v) => Some(v@),
            None => None,
        }
    }

    /// Whether the cache was warmed in this session.
    pub closed spec fn spec_warmed(&self) -> bool {
        self.warmed
    }

    /// A manager over `config`. `stored` is what the cache file held, if it
    /// could be read; it is kept only when the cache is enabled.
    pub fn new(config: ShaderCacheConfig, stored: Option<Vec<u8>>) -> (r: Self)
        ensures
            r.spec_config() == config,
            r.spec_cache() == (if config.enabled {
                match stored {
                    Some(v) => Some(v@),
                    None => None,
                }
            } else {
                None::<Seq<u8>>
            }),
            !r.spec_warmed(),
    {
        let cache_data = if config.enabled { stored } else { None };
        ShaderCacheManager { config, cache_data, warmed: false }
    }

    /// Whether a cache is available.
    pub fn has_cache(&self) -> (r: bool)
        ensures
            r == self.spec_cache() is Some,
    {
        self.cache_data.is_some()
    }

    /// The cache bytes, for the pipeline cache.
    pub fn get_cache_data(&self) -> (r: Option<&[u8]>)
        ensures
            match r {
                Some(d) => self.spec_cache() == Some(d@),
                None => self.spec_cache() is None,
            },
    {
        match &self.cache_data {
            Some(v) => Some(v.as_slice()),
            None => None,
        }
    }

    /// Where to save the cache: the configured path when the cache is
    /// enabled, and nowhere otherwise.
    pub fn save_cache_path(&self) -> (r: Option<&str>)
        ensures
            match r {
                Some(p) => self.spec_config().enabled && p@ == self.spec_config().cache_path@,
                None => !self.spec_config().enabled,
            },
    {
        if self.config.enabled {
            Some(self.config.cache_path.as_str())
        } else {
            None
        }
    }

    /// Records that the cache was warmed.
    pub fn mark_warmed(&mut self)
        ensures
            final(self).spec_warmed(),
            final(self).spec_cache() == old(self).spec_cache(),
            final(self).spec_config() == old(self).spec_config(),
    {
        self.warmed = true;
    }

    /// Whether the cache was warmed in this session.
    pub fn is_warmed(&self) -> (r: bool)
        ensures
            r == self.spec_warmed(),
    {
        self.warmed
    }
}

/// Statistics for shader loading.
#[derive(Debug, Clone, Copy)]
pub struct ShaderLoadStats {
    pub cache_hit: bool,
    pub load_time_ms: u64,
    pub shader_count: usize,
    pub cache_size_bytes: usize,
}

impl ShaderLoadStats {
    /// All counters zero, no cache hit.
    pub fn new() -> (r: Self)
        ensures
            r == (ShaderLoadStats { cache_hit: false, load_time_ms: 0, shader_count: 0, cache_size_bytes: 0 }),
    {
        ShaderLoadStats { cache_hit: false, load_time_ms: 0, shader_count: 0, cache_size_bytes: 0 }
    }

    /// The same statistics, marked as a cache hit.
    pub fn with_cache_hit(self) -> (r: Self)
        ensures
            r == (ShaderLoadStats { cache_hit: true, ..self }),
    {
        let mut s = self;
        s.cache_hit = true;
        s
    }

    /// The same statistics with the load time set to `ms`.
    pub fn with_load_time(self, ms: u64) -> (r: Self)
        ensures
            r == (ShaderLoadStats { load_time_ms: ms, ..self }),
    {
        let mut s = self;
        s.load_time_ms = ms;
        s
    }
}

impl Default for ShaderLoadStats {
    fn default() -> (r: Self)
        ensures
            r == (ShaderLoadStats { cache_hit: false, load_time_ms: 0, shader_count: 0, cache_size_bytes: 0 }),
    {
        Self::new()
    }
}

} // verus!
