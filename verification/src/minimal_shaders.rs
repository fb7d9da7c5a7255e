//! The shader set split into loading stages, so that a first launch can
//! render with the smallest set and load the rest later.

use vstd::prelude::*;
use crate::text::{str_equal, str_views};
use crate::clock::{clock_elapsed, clock_now, duration_millis};

verus! {

/// Shader loading stage, ordered from the smallest set to the full set.
#[derive(Debug, Clone, Copy, PartialEq, Eq, PartialOrd, Ord, Hash, Structural)]
pub enum ShaderStage {
    /// Core rendering only.
    Minimal,
    /// Adds path preprocessing.
    Extended,
    /// Adds draw and clip operations.
    Full,
    /// Adds MSAA.
    Complete,
}

/// Position of a stage in the loading order (0 to 3).
pub open spec fn stage_rank(s: ShaderStage) -> int {
    match s {
        ShaderStage::Minimal => 0,
        ShaderStage::Extended => 1,
        ShaderStage::Full => 2,
        ShaderStage::Complete => 3,
    }
}

/// The shaders that each stage adds, in loading order.
pub open spec fn stage_names(s: ShaderStage) -> Seq<Seq<char>> {
    match s {
        ShaderStage::Minimal => seq![
            "fine_area"@, "coarse"@, "path_count"@, "path_count_setup"@,
            "path_tiling"@, "path_tiling_setup"@,
        ],
        ShaderStage::Extended => seq![
            "pathtag_reduce"@, "pathtag_reduce2"@, "pathtag_scan1"@, "pathtag_scan"@,
            "pathtag_scan_large"@, "bbox_clear"@, "flatten"@,
        ],
        ShaderStage::Full => seq![
            "draw_reduce"@, "draw_leaf"@, "clip_reduce"@, "clip_leaf"@, "binning"@,
            "tile_alloc"@, "backdrop"@,
        ],
        ShaderStage::Complete => seq!["fine_msaa8"@, "fine_msaa16"@],
    }
}

/// Estimated total load time up to and including a stage, in milliseconds.
pub open spec fn stage_time_ms(s: ShaderStage) -> u64 {
    match s {
        ShaderStage::Minimal => 400,
        ShaderStage::Extended => 800,
        ShaderStage::Full => 1200,
        ShaderStage::Complete => 1800,
    }
}

/// The stage after `s`, if any.
pub open spec fn stage_after(s: ShaderStage) -> Option<ShaderStage> {
    match s {
        ShaderStage::Minimal => Some(ShaderStage::Extended),
        ShaderStage::Extended => Some(ShaderStage::Full),
        ShaderStage::Full => Some(ShaderStage::Complete),
        ShaderStage::Complete => None,
    }
}

/// All shaders of the stages up to and including `s`, stage by stage.
pub open spec fn names_up_to(s: ShaderStage) -> Seq<Seq<char>> {
    stage_names(ShaderStage::Minimal)
        + (if stage_rank(s) >= 1 { stage_names(ShaderStage::Extended) } else { Seq::empty() })
        + (if stage_rank(s) >= 2 { stage_names(ShaderStage::Full) } else { Seq::empty() })
        + (if stage_rank(s) >= 3 { stage_names(ShaderStage::Complete) } else { Seq::empty() })
}

/// The first stage, in loading order, that holds the shader `name`.
pub open spec fn stage_of(name: Seq<char>) -> Option<ShaderStage> {
    if stage_names(ShaderStage::Minimal).contains(name) {
        Some(ShaderStage::Minimal)
    } else if stage_names(ShaderStage::Extended).contains(name) {
        Some(ShaderStage::Extended)
    } else if stage_names(ShaderStage::Full).contains(name) {
        Some(ShaderStage::Full)
    } else if stage_names(ShaderStage::Complete).contains(name) {
        Some(ShaderStage::Complete)
    } else {
        None
    }
}

impl ShaderStage {
    /// Position of this stage in the loading order.
    pub fn rank(&self) -> (r: u8)
        ensures
            r == stage_rank(*self),
    {
        match self {
            ShaderStage::Minimal => 0,
            ShaderStage::Extended => 1,
            ShaderStage::Full => 2,
            ShaderStage::Complete => 3,
        }
    }

    /// The shader names that this stage adds.
    pub fn shader_names(&self) -> (names: &'static [&'static str])
        ensures
            str_views(names@) == stage_names(*self),
    {
        let names: &'static [&'static str] = match self {
            ShaderStage::Minimal => &[
                "fine_area", "coarse", "path_count", "path_count_setup", "path_tiling",
                "path_tiling_setup",
            ],
            ShaderStage::Extended => &[
                "pathtag_reduce", "pathtag_reduce2", "pathtag_scan1", "pathtag_scan",
                "pathtag_scan_large", "bbox_clear", "flatten",
            ],
            ShaderStage::Full => &[
                "draw_reduce", "draw_leaf", "clip_reduce", "clip_leaf", "binning",
                "tile_alloc", "backdrop",
            ],
            ShaderStage::Complete => &["fine_msaa8", "fine_msaa16"],
        };
        assert(str_views(names@) =~= stage_names(*self));
        names
    }
}


impl ShaderStage {
    /// Whether the shader `name` is one that this stage adds.
    pub fn contains(&self, name: &str) -> (r: bool)
        ensures
            r == stage_names(*self).contains(name@),
    {
        let names = self.shader_names();
        let mut i: usize = 0;
        while i < names.len()
            invariant
                str_views(names@) == stage_names(*self),
                0 <= i <= names@.len(),
                forall|j: int| 0 <= j < i ==> names@[j]@ != name@,
            decreases names@.len() - i,
        {
            if str_equal(names[i], name) {
                assert(stage_names(*self)[i as int] == name@);
                return true;
            }
            i = i + 1;
        }
        assert forall|j: int| 0 <= j < stage_names(*self).len() implies stage_names(*self)[j] != name@ by {
            assert(stage_names(*self)[j] == names@[j]@);
        }
        false
    }

    /// The stage after this one, or `None` after the last.
    pub fn next(&self) -> (r: Option<ShaderStage>)
        ensures
            r == stage_after(*self),
    {
        match self {
            ShaderStage::Minimal => Some(ShaderStage::Extended),
            ShaderStage::Extended => Some(ShaderStage::Full),
            ShaderStage::Full => Some(ShaderStage::Complete),
            ShaderStage::Complete => None,
        }
    }

    /// Estimated total load time up to this stage, in milliseconds.
    pub fn estimated_time_ms(&self) -> (r: u64)
        ensures
            r == stage_time_ms(*self),
    {
        match self {
            ShaderStage::Minimal => 400,
            ShaderStage::Extended => 800,
            ShaderStage::Full => 1200,
            ShaderStage::Complete => 1800,
        }
    }
}

/// The four stages in loading order.
pub open spec fn all_stages() -> Seq<ShaderStage> {
    seq![ShaderStage::Minimal, ShaderStage::Extended, ShaderStage::Full, ShaderStage::Complete]
}

/// All shaders of the stages up to and including `stage`, stage by stage.
pub fn shaders_up_to(stage: ShaderStage) -> (r: Vec<&'static str>)
    ensures
        str_views(r@) == names_up_to(stage),
{
    let mut result: Vec<&'static str> = Vec::new();
    let stages = [ShaderStage::Minimal, ShaderStage::Extended, ShaderStage::Full, ShaderStage::Complete];
    let limit = stage.rank();
    let mut k: usize = 0;
    while k < 4
        invariant
            stages@ == all_stages(),
            limit == stage_rank(stage),
            0 <= k <= 4,
            str_views(result@) == names_up_to_rank(k as int, stage_rank(stage)),
        decreases 4 - k,
    {
        let s = stages[k];
        if s.rank() <= limit {
            let names = s.shader_names();
            let ghost before = result@;
            let mut i: usize = 0;
            while i < names.len()
                invariant
                    str_views(names@) == stage_names(s),
                    0 <= i <= names@.len(),
                    result@ == before + names@.subrange(0, i as int),
                decreases names@.len() - i,
            {
                result.push(names[i]);
                i = i + 1;
                assert(result@ =~= before + names@.subrange(0, i as int));
            }
            assert(names@.subrange(0, names@.len() as int) =~= names@);
            assert(str_views(before + names@) =~= str_views(before) + str_views(names@));
        }
        k = k + 1;
    }
    assert(names_up_to_rank(4, stage_rank(stage)) =~= names_up_to(stage)) by {
        reveal_with_fuel(names_up_to_rank, 5);
    }
    result
}

/// The shaders of the first `k` stages whose rank is at most `limit`.
pub open spec fn names_up_to_rank(k: int, limit: int) -> Seq<Seq<char>>
    decreases k,
{
    if k <= 0 {
        Seq::empty()
    } else {
        names_up_to_rank(k - 1, limit) + (if k - 1 <= limit {
            stage_names(all_stages()[k - 1])
        } else {
            Seq::empty()
        })
    }
}

/// Whether `name` is needed for minimal rendering.
pub fn is_minimal_shader(name: &str) -> (r: bool)
    ensures
        r == stage_names(ShaderStage::Minimal).contains(name@),
{
    ShaderStage::Minimal.contains(name)
}

/// The first stage that holds the shader `name`, if any.
pub fn shader_stage(name: &str) -> (r: Option<ShaderStage>)
    ensures
        r == stage_of(name@),
{
    if ShaderStage::Minimal.contains(name) {
        Some(ShaderStage::Minimal)
    } else if ShaderStage::Extended.contains(name) {
        Some(ShaderStage::Extended)
    } else if ShaderStage::Full.contains(name) {
        Some(ShaderStage::Full)
    } else if ShaderStage::Complete.contains(name) {
        Some(ShaderStage::Complete)
    } else {
        None
    }
}

/// Configuration for staged loading.
#[derive(Debug, Clone, Copy)]
pub struct StagedLoadingConfig {
    /// Target stage for a first launch.
    pub first_launch_target: ShaderStage,
    /// Target stage for later launches, with a cache.
    pub cached_launch_target: ShaderStage,
    /// Whether to keep loading in the background after the first stage.
    pub background_load: bool,
    /// Delay before background loading, in milliseconds.
    pub background_delay_ms: u64,
}

/// The default loading configuration: minimal first launch, complete cached
/// launch, background loading after 500 ms.
pub open spec fn default_loading_config() -> StagedLoadingConfig {
    StagedLoadingConfig {
        first_launch_target: ShaderStage::Minimal,
        cached_launch_target: ShaderStage::Complete,
        background_load: true,
        background_delay_ms: 500,
    }
}

impl StagedLoadingConfig {
    /// The default loading configuration.
    pub fn new_default() -> (r: Self)
        ensures
            r == default_loading_config(),
    {
        StagedLoadingConfig {
            first_launch_target: ShaderStage::Minimal,
            cached_launch_target: ShaderStage::Complete,
            background_load: true,
            background_delay_ms: 500,
        }
    }
}

impl Default for StagedLoadingConfig {
    fn default() -> (r: Self)
        ensures
            r == default_loading_config(),
    {
        Self::new_default()
    }
}

/// Progress of staged loading.
#[derive(Debug)]
pub struct StagedLoadProgress {
    pub current_stage: Option<ShaderStage>,
    pub stages_completed: Vec<ShaderStage>,
    pub total_shaders_loaded: usize,
    pub start_time: Option<std::time::Instant>,
}

/// Whether some completed stage reaches `target` in the loading order.
pub open spec fn reached(completed: Seq<ShaderStage>, target: ShaderStage) -> bool {
    exists|i: int| 0 <= i < completed.len() && stage_rank(completed[i]) >= stage_rank(target)
}

/// Completion only grows: progress that reaches `target` reaches every
/// earlier stage too, and once `stage` is recorded as complete, every stage
/// up to it counts as reached.
pub proof fn lemma_completion_is_monotone(
    completed: Seq<ShaderStage>,
    stage: ShaderStage,
    target: ShaderStage,
    earlier: ShaderStage,
)
    requires
        stage_rank(earlier) <= stage_rank(target),
    ensures
        reached(completed, target) ==> reached(completed, earlier),
        reached(completed, earlier) ==> reached(completed.push(stage), earlier),
        stage_rank(earlier) <= stage_rank(stage) ==> reached(completed.push(stage), earlier),
{
    if reached(completed, target) {
        let i = choose|i: int| 0 <= i < completed.len() && stage_rank(completed[i]) >= stage_rank(target);
        assert(stage_rank(completed[i]) >= stage_rank(earlier));
    }
    if reached(completed, earlier) {
        let i = choose|i: int| 0 <= i < completed.len() && stage_rank(completed[i]) >= stage_rank(earlier);
        assert(completed.push(stage)[i] == completed[i]);
    }
    if stage_rank(earlier) <= stage_rank(stage) {
        let n = completed.len() as int;
        assert(completed.push(stage)[n] == stage);
    }
}

impl Default for StagedLoadProgress {
    /// Empty progress with no start time.
    fn default() -> (r: Self)
        ensures
            r.current_stage is None,
            r.stages_completed@ == Seq::<ShaderStage>::empty(),
            r.total_shaders_loaded == 0,
            r.start_time is None,
    {
        StagedLoadProgress::empty()
    }
}

impl StagedLoadProgress {
    /// Empty progress with no start time.
    pub fn empty() -> (r: Self)
        ensures
            r.current_stage is None,
            r.stages_completed@ == Seq::<ShaderStage>::empty(),
            r.total_shaders_loaded == 0,
            r.start_time is None,
    {
        StagedLoadProgress {
            current_stage: None,
            stages_completed: Vec::new(),
            total_shaders_loaded: 0,
            start_time: None,
        }
    }

    /// Empty progress whose clock starts now.
    pub fn new() -> (r: Self)
        ensures
            r.current_stage is None,
            r.stages_completed@ == Seq::<ShaderStage>::empty(),
            r.total_shaders_loaded == 0,
            r.start_time is Some,
    {
        StagedLoadProgress {
            current_stage: None,
            stages_completed: Vec::new(),
            total_shaders_loaded: 0,
            start_time: Some(clock_now()),
        }
    }

    /// Records that `stage` finished loading.
    pub fn mark_stage_complete(&mut self, stage: ShaderStage)
        requires
            old(self).total_shaders_loaded + stage_names(stage).len() <= usize::MAX,
        ensures
            final(self).stages_completed@ == old(self).stages_completed@.push(stage),
            final(self).total_shaders_loaded == old(self).total_shaders_loaded + stage_names(stage).len(),
            final(self).current_stage == old(self).current_stage,
            final(self).start_time == old(self).start_time,
    {
        self.stages_completed.push(stage);
        let n = stage.shader_names().len();
        self.total_shaders_loaded = self.total_shaders_loaded + n;
    }

    /// Milliseconds since the start time, or 0 when there is none.
    pub fn elapsed_ms(&self) -> (r: u64)
        ensures
            self.start_time is None ==> r == 0,
    {
        match &self.start_time {
            None => 0,
            Some(t) => {
                let d = clock_elapsed(t);
                let ms = duration_millis(&d);
                #[verifier::truncate]
                (ms as u64)
            }
        }
    }

    /// Whether some completed stage is `target` or a later one.
    pub fn is_complete(&self, target: ShaderStage) -> (r: bool)
        ensures
            r == reached(self.stages_completed@, target),
    {
        let t = target.rank();
        let mut i: usize = 0;
        while i < self.stages_completed.len()
            invariant
                t == stage_rank(target),
                0 <= i <= self.stages_completed@.len(),
                forall|j: int| 0 <= j < i ==> stage_rank(#[trigger] self.stages_completed@[j]) < stage_rank(target),
            decreases self.stages_completed@.len() - i,
        {
            if self.stages_completed[i].rank() >= t {
                return true;
            }
            i = i + 1;
        }
        false
    }
}

/// Load time of `target_stage` and the time it saves against loading every
/// stage, in milliseconds.
pub fn estimate_time_savings_ms(target_stage: ShaderStage) -> (r: (u64, u64))
    ensures
        r.0 == stage_time_ms(target_stage),
        r.1 == stage_time_ms(ShaderStage::Complete) - stage_time_ms(target_stage),
{
    let full_time = ShaderStage::Complete.estimated_time_ms();
    let staged_time = target_stage.estimated_time_ms();
    (staged_time, full_time - staged_time)
}


/// A short fingerprint of a name: its length, first and last character.
spec fn name_key(n: Seq<char>) -> (int, char, char) {
    (n.len() as int, n[0], n[n.len() - 1])
}

/// The stages added by `a` and `b` share no shader when the stages differ.
proof fn lemma_stages_disjoint(a: ShaderStage, b: ShaderStage)
    requires
        a != b,
    ensures
        forall|i: int, j: int|
            0 <= i < stage_names(a).len() && 0 <= j < stage_names(b).len()
                ==> stage_names(a)[i] != stage_names(b)[j],
{
    reveal_strlit("fine_area");
    reveal_strlit("coarse");
    reveal_strlit("path_count");
    reveal_strlit("path_count_setup");
    reveal_strlit("path_tiling");
    reveal_strlit("path_tiling_setup");
    reveal_strlit("pathtag_reduce");
    reveal_strlit("pathtag_reduce2");
    reveal_strlit("pathtag_scan1");
    reveal_strlit("pathtag_scan");
    reveal_strlit("pathtag_scan_large");
    reveal_strlit("bbox_clear");
    reveal_strlit("flatten");
    reveal_strlit("draw_reduce");
    reveal_strlit("draw_leaf");
    reveal_strlit("clip_reduce");
    reveal_strlit("clip_leaf");
    reveal_strlit("binning");
    reveal_strlit("tile_alloc");
    reveal_strlit("backdrop");
    reveal_strlit("fine_msaa8");
    reveal_strlit("fine_msaa16");
    assert forall|i: int, j: int|
        0 <= i < stage_names(a).len() && 0 <= j < stage_names(b).len()
            implies stage_names(a)[i] != stage_names(b)[j] by {
        assert(name_key(stage_names(a)[i]) != name_key(stage_names(b)[j]));
    }
}

/// Every shader belongs to one stage only: the first stage that holds a
/// shader is the one that adds it, and no other stage holds it.
pub proof fn lemma_stage_of_exact(name: Seq<char>, s: ShaderStage)
    ensures
        stage_of(name) == Some(s) <==> stage_names(s).contains(name),
{
    lemma_stages_disjoint(ShaderStage::Minimal, ShaderStage::Extended);
    lemma_stages_disjoint(ShaderStage::Minimal, ShaderStage::Full);
    lemma_stages_disjoint(ShaderStage::Minimal, ShaderStage::Complete);
    lemma_stages_disjoint(ShaderStage::Extended, ShaderStage::Full);
    lemma_stages_disjoint(ShaderStage::Extended, ShaderStage::Complete);
    lemma_stages_disjoint(ShaderStage::Full, ShaderStage::Complete);
}

/// Which stage loads each shader, for every name: the minimal stage loads
/// the fine area, coarse, path count and path tiling shaders; the extended
/// stage the path-tag reduce and scan shaders, the bounding-box clear and
/// flatten; the full stage the draw and clip reduce and leaf shaders,
/// binning, tile allocation and backdrop; the complete stage the two MSAA
/// fine shaders; and no stage any other name.
pub proof fn lemma_stage_of_each_shader(name: Seq<char>)
    ensures
        stage_of(name) == Some(ShaderStage::Minimal) <==> (name == "fine_area"@ || name == "coarse"@
            || name == "path_count"@ || name == "path_count_setup"@ || name == "path_tiling"@ || name
            == "path_tiling_setup"@),
        stage_of(name) == Some(ShaderStage::Extended) <==> (name == "pathtag_reduce"@ || name
            == "pathtag_reduce2"@ || name == "pathtag_scan1"@ || name == "pathtag_scan"@ || name
            == "pathtag_scan_large"@ || name == "bbox_clear"@ || name == "flatten"@),
        stage_of(name) == Some(ShaderStage::Full) <==> (name == "draw_reduce"@ || name == "draw_leaf"@
            || name == "clip_reduce"@ || name == "clip_leaf"@ || name == "binning"@ || name
            == "tile_alloc"@ || name == "backdrop"@),
        stage_of(name) == Some(ShaderStage::Complete) <==> (name == "fine_msaa8"@ || name
            == "fine_msaa16"@),
{
    lemma_stage_of_exact(name, ShaderStage::Minimal);
    lemma_stage_of_exact(name, ShaderStage::Extended);
    lemma_stage_of_exact(name, ShaderStage::Full);
    lemma_stage_of_exact(name, ShaderStage::Complete);
    let m = stage_names(ShaderStage::Minimal);
    let e = stage_names(ShaderStage::Extended);
    let f = stage_names(ShaderStage::Full);
    let c = stage_names(ShaderStage::Complete);
    assert(m.contains(name) <==> (name == m[0] || name == m[1] || name == m[2] || name == m[3] || name
        == m[4] || name == m[5]));
    assert(e.contains(name) <==> (name == e[0] || name == e[1] || name == e[2] || name == e[3] || name
        == e[4] || name == e[5] || name == e[6]));
    assert(f.contains(name) <==> (name == f[0] || name == f[1] || name == f[2] || name == f[3] || name
        == f[4] || name == f[5] || name == f[6]));
    assert(c.contains(name) <==> (name == c[0] || name == c[1]));
}

/// Each stage follows the one before it in rank and takes longer to reach.
pub proof fn lemma_next_stage_later(s: ShaderStage)
    ensures
        stage_after(s) matches Some(t) ==> stage_rank(t) == stage_rank(s) + 1
            && stage_time_ms(s) < stage_time_ms(t),
        stage_after(s) is None <==> s == ShaderStage::Complete,
{
}

/// Reaching a later stage never takes less time than reaching an earlier one.
pub proof fn lemma_stage_time_monotone(a: ShaderStage, b: ShaderStage)
    requires
        stage_rank(a) <= stage_rank(b),
    ensures
        stage_time_ms(a) <= stage_time_ms(b),
{
}

/// The shaders up to a stage are a prefix of the shaders up to any later stage.
pub proof fn lemma_up_to_prefix(a: ShaderStage, b: ShaderStage)
    requires
        stage_rank(a) <= stage_rank(b),
    ensures
        names_up_to(a).len() <= names_up_to(b).len(),
        names_up_to(b).subrange(0, names_up_to(a).len() as int) =~= names_up_to(a),
{
}

/// A shader is loaded by the time `target` is reached exactly when the stage
/// that adds it comes no later than `target`.
pub proof fn lemma_up_to_membership(name: Seq<char>, target: ShaderStage)
    ensures
        names_up_to(target).contains(name) <==> (stage_of(name) matches Some(s)
            && stage_rank(s) <= stage_rank(target)),
{
    let m = stage_names(ShaderStage::Minimal);
    let e = if stage_rank(target) >= 1 { stage_names(ShaderStage::Extended) } else { Seq::empty() };
    let f = if stage_rank(target) >= 2 { stage_names(ShaderStage::Full) } else { Seq::empty() };
    let c = if stage_rank(target) >= 3 { stage_names(ShaderStage::Complete) } else { Seq::empty() };
    let all = names_up_to(target);
    assert(all == m + e + f + c);
    lemma_stage_of_exact(name, ShaderStage::Minimal);
    lemma_stage_of_exact(name, ShaderStage::Extended);
    lemma_stage_of_exact(name, ShaderStage::Full);
    lemma_stage_of_exact(name, ShaderStage::Complete);
    if all.contains(name) {
        let k = choose|k: int| 0 <= k < all.len() && all[k] == name;
        if k < m.len() {
            assert(m[k] == name);
        } else if k < m.len() + e.len() {
            assert(e[k - m.len()] == name);
        } else if k < m.len() + e.len() + f.len() {
            assert(f[k - m.len() - e.len()] == name);
        } else {
            assert(c[k - m.len() - e.len() - f.len()] == name);
        }
    }
    if stage_of(name) matches Some(s) && stage_rank(s) <= stage_rank(target) {
        let st = stage_of(name).unwrap();
        let k = choose|k: int| 0 <= k < stage_names(st).len() && stage_names(st)[k] == name;
        if st == ShaderStage::Minimal {
            assert(all[k] == name);
        } else if st == ShaderStage::Extended {
            assert(all[m.len() + k] == name);
        } else if st == ShaderStage::Full {
            assert(all[m.len() + e.len() + k] == name);
        } else {
            assert(all[m.len() + e.len() + f.len() + k] == name);
        }
    }
}

} // verus!
