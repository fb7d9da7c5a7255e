//! Two-stage initialization with a tagged pipeline-cache file.
//!
//! Stage 1 loads the minimal shaders and saves the cache at once; stage 2
//! loads the rest and saves the updated cache. The cache file starts with a
//! 12-byte header that records which stage it holds. This module builds and
//! reads that file format and decides which stages still have to run;
//! reading and writing the file and running the loaders are left to the caller.

use vstd::prelude::*;
use vstd::bytes::{
    lemma_auto_spec_u32_to_from_le_bytes, spec_u32_from_le_bytes, spec_u32_to_le_bytes,
    u32_from_le_bytes, u32_to_le_bytes,
};
use vstd::slice::{slice_subrange, slice_to_vec};

verus! {

/// Stage of initialization.
#[derive(Debug, Clone, Copy, PartialEq, Eq, Structural)]
pub enum InitStage {
    NotStarted,
    Stage1Loading,
    Stage1Complete,
    Stage2Loading,
    Stage2Complete,
}

/// Number of the stage in the order above (0 to 4).
pub open spec fn stage_level(s: InitStage) -> u8 {
    match s {
        InitStage::NotStarted => 0,
        InitStage::Stage1Loading => 1,
        InitStage::Stage1Complete => 2,
        InitStage::Stage2Loading => 3,
        InitStage::Stage2Complete => 4,
    }
}

impl InitStage {
    /// Number of this stage, as it is written into the cache header.
    pub fn level(&self) -> (r: u8)
        ensures
            r == stage_level(*self),
    {
        match self {
            InitStage::NotStarted => 0,
            InitStage::Stage1Loading => 1,
            InitStage::Stage1Complete => 2,
            InitStage::Stage2Loading => 3,
            InitStage::Stage2Complete => 4,
        }
    }
}

/// The bytes "DYXL" that open every cache file.
pub open spec fn cache_magic() -> Seq<u8> {
    seq![68u8, 89u8, 88u8, 76u8]
}

/// Version of the cache header format.
pub const CACHE_VERSION: u32 = 1;

/// Length of the header in bytes.
pub const CACHE_HEADER_LEN: usize = 12;

/// Cache header: magic, format version, the stage the cache holds, and three
/// reserved bytes.
#[derive(Debug, Clone, Copy)]
pub struct CacheHeader {
    pub magic: [u8; 4],
    pub version: u32,
    pub stage: u8,
    pub reserved: [u8; 3],
}

/// The header bytes: magic, version little-endian, stage, reserved.
pub open spec fn header_bytes(h: CacheHeader) -> Seq<u8> {
    h.magic@ + spec_u32_to_le_bytes(h.version) + seq![h.stage] + h.reserved@
}

/// What `from_bytes` reads from `bytes`: a header when there are at least 8
/// bytes, the first four are the magic and the next four encode version 1;
/// the stage is the ninth byte when there is one, 0 otherwise, and the
/// reserved bytes read as zero.
pub open spec fn parse_header(bytes: Seq<u8>) -> Option<CacheHeader> {
    if bytes.len() >= 8 && bytes.subrange(0, 4) == cache_magic()
        && spec_u32_from_le_bytes(bytes.subrange(4, 8)) == 1 {
        Some(CacheHeader {
            magic: [bytes[0], bytes[1], bytes[2], bytes[3]],
            version: 1,
            stage: if bytes.len() > 8 { bytes[8] } else { 0 },
            reserved: [0, 0, 0],
        })
    } else {
        None
    }
}

impl CacheHeader {
    /// A header for a cache that holds `stage`.
    pub fn new(stage: u8) -> (r: Self)
        ensures
            r.magic@ == cache_magic(),
            r.version == 1,
            r.stage == stage,
            r.reserved@ == seq![0u8, 0u8, 0u8],
    {
        let r = CacheHeader { magic: [68, 89, 88, 76], version: 1, stage, reserved: [0, 0, 0] };
        assert(r.magic@ =~= cache_magic());
        assert(r.reserved@ =~= seq![0u8, 0u8, 0u8]);
        r
    }

    /// Reads a header from the start of `bytes`.
    pub fn from_bytes(bytes: &[u8]) -> (r: Option<Self>)
        ensures
            match (r, parse_header(bytes@)) {
                (Some(h), Some(p)) => h.magic@ == p.magic@ && h.version == p.version
                    && h.stage == p.stage && h.reserved@ == p.reserved@,
                (None, None) => true,
                _ => false,
            },
    {
        if bytes.len() < 8 {
            return None;
        }
        let magic = [bytes[0], bytes[1], bytes[2], bytes[3]];
        if !(bytes[0] == 68 && bytes[1] == 89 && bytes[2] == 88 && bytes[3] == 76) {
            assert(bytes@.subrange(0, 4)[0] == bytes@[0]);
            assert(bytes@.subrange(0, 4)[1] == bytes@[1]);
            assert(bytes@.subrange(0, 4)[2] == bytes@[2]);
            assert(bytes@.subrange(0, 4)[3] == bytes@[3]);
            return None;
        }
        assert(bytes@.subrange(0, 4) =~= cache_magic());
        let version = u32_from_le_bytes(slice_subrange(bytes, 4, 8));
        if version != 1 {
            return None;
        }
        let stage = if bytes.len() > 8 { bytes[8] } else { 0 };
        let r = CacheHeader { magic, version, stage, reserved: [0, 0, 0] };
        assert(r.magic@ =~= parse_header(bytes@).unwrap().magic@);
        assert(r.reserved@ =~= parse_header(bytes@).unwrap().reserved@);
        Some(r)
    }

    /// The 12 header bytes.
    pub fn to_bytes(&self) -> (r: Vec<u8>)
        ensures
            r@ == header_bytes(*self),
            r@.len() == 12,
    {
        let mut bytes: Vec<u8> = Vec::with_capacity(12);
        bytes.push(self.magic[0]);
        bytes.push(self.magic[1]);
        bytes.push(self.magic[2]);
        bytes.push(self.magic[3]);
        let v = u32_to_le_bytes(self.version);
        bytes.push(v[0]);
        bytes.push(v[1]);
        bytes.push(v[2]);
        bytes.push(v[3]);
        bytes.push(self.stage);
        bytes.push(self.reserved[0]);
        bytes.push(self.reserved[1]);
        bytes.push(self.reserved[2]);
        assert(bytes@ =~= header_bytes(*self));
        bytes
    }
}

/// Reading back the bytes of a header with the magic and version 1 gives the
/// same header, with zeroed reserved bytes.
pub proof fn lemma_header_round_trip(h: CacheHeader)
    requires
        h.magic@ == cache_magic(),
        h.version == 1,
    ensures
        parse_header(header_bytes(h)) matches Some(p) && p.magic@ == h.magic@ && p.version == 1
            && p.stage == h.stage && p.reserved@ == seq![0u8, 0u8, 0u8],
{
    lemma_auto_spec_u32_to_from_le_bytes();
    let b = header_bytes(h);
    assert(spec_u32_to_le_bytes(h.version).len() == 4);
    assert(b.subrange(0, 4) =~= h.magic@);
    assert(b.subrange(4, 8) =~= spec_u32_to_le_bytes(h.version));
    assert(b[8] == h.stage);
    let p = parse_header(b).unwrap();
    assert(p.magic@ =~= h.magic@);
    assert(p.reserved@ =~= seq![0u8, 0u8, 0u8]);
}

/// The stage recorded in a cache file's contents: stage 1 or stage 2
/// complete when the file has a full header naming it, nothing otherwise.
pub open spec fn stage_in_cache(data: Option<Seq<u8>>) -> InitStage {
    match data {
        Some(d) => if d.len() >= 12 {
            match parse_header(d) {
                Some(h) => if h.stage == 2 {
                    InitStage::Stage1Complete
                } else if h.stage == 4 {
                    InitStage::Stage2Complete
                } else {
                    InitStage::NotStarted
                },
                None => InitStage::NotStarted,
            }
        } else {
            InitStage::NotStarted
        },
        None => InitStage::NotStarted,
    }
}

/// The stage recorded in the cache file, given what reading it returned.
pub fn detect_stage_from_cache(data: Option<&[u8]>) -> (r: InitStage)
    ensures
        r == stage_in_cache(match data {
            Some(d) => Some(d@),
            None => None,
        }),
{
    match data {
        Some(d) => {
            if d.len() >= 12 {
                match CacheHeader::from_bytes(d) {
                    Some(h) => {
                        if h.stage == 2 {
                            InitStage::Stage1Complete
                        } else if h.stage == 4 {
                            InitStage::Stage2Complete
                        } else {
                            InitStage::NotStarted
                        }
                    },
                    None => InitStage::NotStarted,
                }
            } else {
                InitStage::NotStarted
            }
        },
        None => InitStage::NotStarted,
    }
}

/// The contents of a cache file that holds `stage`: the header, then the
/// pipeline-cache bytes.
pub open spec fn cache_file(data: Seq<u8>, stage: u8) -> Seq<u8> {
    header_bytes(CacheHeader { magic: [68, 89, 88, 76], version: 1, stage, reserved: [0, 0, 0] })
        + data
}

/// The pipeline-cache bytes of a cache file: what follows the header, when
/// anything does.
pub open spec fn cache_payload(file: Seq<u8>) -> Option<Seq<u8>> {
    if file.len() > 12 {
        Some(file.subrange(12, file.len() as int))
    } else {
        None
    }
}

/// Builds the contents of a cache file that holds `stage`.
pub fn cache_file_bytes(wgpu_cache_data: &[u8], stage: u8) -> (r: Vec<u8>)
    ensures
        r@ == cache_file(wgpu_cache_data@, stage),
{
    let header = CacheHeader::new(stage);
    let mut data = header.to_bytes();
    let mut i: usize = 0;
    let ghost head = data@;
    while i < wgpu_cache_data.len()
        invariant
            0 <= i <= wgpu_cache_data@.len(),
            data@ == head + wgpu_cache_data@.subrange(0, i as int),
        decreases wgpu_cache_data@.len() - i,
    {
        data.push(wgpu_cache_data[i]);
        i = i + 1;
        assert(data@ =~= head + wgpu_cache_data@.subrange(0, i as int));
    }
    assert(wgpu_cache_data@.subrange(0, i as int) =~= wgpu_cache_data@);
    assert(header.magic@ =~= seq![68u8, 89u8, 88u8, 76u8]);
    assert(header_bytes(header) =~= header_bytes(
        CacheHeader { magic: [68, 89, 88, 76], version: 1, stage, reserved: [0, 0, 0] },
    )) by {
        assert(header.reserved@ =~= [0u8, 0u8, 0u8]@);
        assert([68u8, 89u8, 88u8, 76u8]@ =~= seq![68u8, 89u8, 88u8, 76u8]);
    }
    data
}

/// The pipeline-cache bytes of a cache file's contents.
pub fn cache_data_from_file(file: &[u8]) -> (r: Option<Vec<u8>>)
    ensures
        match r {
            Some(v) => cache_payload(file@) == Some(v@),
            None => cache_payload(file@) is None,
        },
{
    if file.len() > 12 {
        Some(slice_to_vec(slice_subrange(file, 12, file.len())))
    } else {
        None
    }
}

/// A cache file written for a stage reads back as that stage, and its
/// payload reads back as the bytes that were written (none when they were empty).
pub proof fn lemma_cache_file_round_trip(data: Seq<u8>, stage: u8)
    ensures
        stage_in_cache(Some(cache_file(data, stage))) == (if stage == 2 {
            InitStage::Stage1Complete
        } else if stage == 4 {
            InitStage::Stage2Complete
        } else {
            InitStage::NotStarted
        }),
        cache_payload(cache_file(data, stage)) == (if data.len() > 0 {
            Some(data)
        } else {
            None::<Seq<u8>>
        }),
{
    let h = CacheHeader { magic: [68, 89, 88, 76], version: 1, stage, reserved: [0, 0, 0] };
    assert(h.magic@ =~= cache_magic());
    lemma_header_round_trip(h);
    lemma_auto_spec_u32_to_from_le_bytes();
    let f = cache_file(data, stage);
    let b = header_bytes(h);
    assert(b.len() == 12);
    assert(f.subrange(0, 4) =~= b.subrange(0, 4));
    assert(f.subrange(4, 8) =~= b.subrange(4, 8));
    assert(f[8] == b[8]);
    assert(parse_header(f) == parse_header(b));
    assert(f.subrange(12, f.len() as int) =~= data);
}

/// How much of the two-stage load still has to run.
#[derive(Debug, Clone, Copy, PartialEq, Eq, Structural)]
pub enum ExecutePlan {
    /// Load stage 1, save its cache, then stage 2 and save again.
    BothStages,
    /// Stage 1 is cached: load stage 2 and save.
    Stage2Only,
    /// The full cache is present: nothing to do.
    Nothing,
}

/// The plan for a loader at stage `s`.
pub open spec fn plan_for(s: InitStage) -> ExecutePlan {
    match s {
        InitStage::NotStarted | InitStage::Stage1Loading => ExecutePlan::BothStages,
        InitStage::Stage1Complete => ExecutePlan::Stage2Only,
        _ => ExecutePlan::Nothing,
    }
}

/// Two-stage loader controller: the current stage and the cache path.
pub struct TwoStageLoader {
    stage: InitStage,
    cache_path: String,
}

impl TwoStageLoader {
    /// The current stage.
    pub closed spec fn spec_stage(&self) -> InitStage {
        self.stage
    }

    /// The cache file path.
    pub closed spec fn spec_cache_path(&self) -> Seq<char> {
        self.cache_path@
    }

    /// A loader whose stage is the one recorded in the cache file; `stored`
    /// is what reading the file returned, if it could be read.
    pub fn new(cache_path: String, stored: Option<Vec<u8>>) -> (r: Self)
        ensures
            r.spec_stage() == stage_in_cache(match stored {
                Some(d) => Some(d@),
                None => None,
            }),
            r.spec_cache_path() == cache_path@,
    {
        let stage = match &stored {
            Some(d) => detect_stage_from_cache(Some(d.as_slice())),
            None => detect_stage_from_cache(None),
        };
        TwoStageLoader { stage, cache_path }
    }

    /// The current stage.
    pub fn stage(&self) -> (r: InitStage)
        ensures
            r == self.spec_stage(),
    {
        self.stage
    }

    /// Whether stage 2 still has to be loaded.
    pub fn needs_stage2(&self) -> (r: bool)
        ensures
            r == (self.spec_stage() != InitStage::Stage2Complete),
    {
        self.stage.level() != 4
    }

    /// Sets the current stage.
    pub fn advance_stage(&mut self, stage: InitStage)
        ensures
            final(self).spec_stage() == stage,
            final(self).spec_cache_path() == old(self).spec_cache_path(),
    {
        self.stage = stage;
    }

    /// The cache file path.
    pub fn cache_path(&self) -> (r: &str)
        ensures
            r@ == self.spec_cache_path(),
    {
        self.cache_path.as_str()
    }

    /// Which stages the two-stage load has to run, from the current stage.
    pub fn execute_plan(&self) -> (r: ExecutePlan)
        ensures
            r == plan_for(self.spec_stage()),
    {
        match self.stage {
            InitStage::NotStarted | InitStage::Stage1Loading => ExecutePlan::BothStages,
            InitStage::Stage1Complete => ExecutePlan::Stage2Only,
            _ => ExecutePlan::Nothing,
        }
    }
}

/// Whether startup should use the minimal configuration at stage `s`: when
/// there is no cache or only the stage 1 cache.
pub open spec fn minimal_at(s: InitStage) -> bool {
    s == InitStage::NotStarted || s == InitStage::Stage1Loading || s == InitStage::Stage1Complete
}

/// Wrapper used by the backend: the loader and the startup decisions.
pub struct TwoStageInit {
    pub loader: TwoStageLoader,
}

impl TwoStageInit {
    /// A wrapper around `TwoStageLoader::new(cache_path, stored)`.
    pub fn new(cache_path: String, stored: Option<Vec<u8>>) -> (r: Self)
        ensures
            r.loader.spec_stage() == stage_in_cache(match stored {
                Some(d) => Some(d@),
                None => None,
            }),
            r.loader.spec_cache_path() == cache_path@,
    {
        TwoStageInit { loader: TwoStageLoader::new(cache_path, stored) }
    }

    /// Whether to start with the minimal configuration.
    pub fn use_minimal_for_startup(&self) -> (r: bool)
        ensures
            r == minimal_at(self.loader.spec_stage()),
    {
        match self.loader.stage() {
            InitStage::NotStarted | InitStage::Stage1Loading | InitStage::Stage1Complete => true,
            _ => false,
        }
    }

    /// Whether the full cache is ready.
    pub fn is_full_cache_ready(&self) -> (r: bool)
        ensures
            r == (self.loader.spec_stage() == InitStage::Stage2Complete),
    {
        self.loader.stage().level() == 4
    }
}

/// The minimal startup and the full cache exclude each other; a loader with
/// the full cache has nothing left to run, and one that needs stage 2 has a
/// plan that includes it.
pub proof fn lemma_startup_decisions(s: InitStage)
    ensures
        !(minimal_at(s) && s == InitStage::Stage2Complete),
        s == InitStage::Stage2Complete ==> plan_for(s) == ExecutePlan::Nothing,
        minimal_at(s) ==> plan_for(s) != ExecutePlan::Nothing,
{
}

} // verus!
