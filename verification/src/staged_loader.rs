//! Staged shader loader: the state of progressive loading and the decision of
//! which stage to load next. Running the loads on a background thread and
//! checking for the cache file are left to the caller.

use vstd::prelude::*;
use crate::minimal_shaders::{
    all_stages, default_loading_config, stage_after, stage_names, stage_rank, stage_time_ms, ShaderStage,
    StagedLoadProgress, StagedLoadingConfig,
};

verus! {

/// State of the staged loader.
#[derive(Debug, Clone, Copy, PartialEq, Eq, PartialOrd, Ord, Structural)]
pub enum LoaderState {
    Idle,
    LoadingMinimal,
    MinimalReady,
    LoadingExtended,
    ExtendedReady,
    LoadingFull,
    FullReady,
    LoadingComplete,
    CompleteReady,
    Failed,
}

/// Number of a state in the order above (0 to 9).
pub open spec fn loader_rank(s: LoaderState) -> u8 {
    match s {
        LoaderState::Idle => 0,
        LoaderState::LoadingMinimal => 1,
        LoaderState::MinimalReady => 2,
        LoaderState::LoadingExtended => 3,
        LoaderState::ExtendedReady => 4,
        LoaderState::LoadingFull => 5,
        LoaderState::FullReady => 6,
        LoaderState::LoadingComplete => 7,
        LoaderState::CompleteReady => 8,
        LoaderState::Failed => 9,
    }
}

/// The state while `s` loads.
pub open spec fn loading_state(s: ShaderStage) -> LoaderState {
    match s {
        ShaderStage::Minimal => LoaderState::LoadingMinimal,
        ShaderStage::Extended => LoaderState::LoadingExtended,
        ShaderStage::Full => LoaderState::LoadingFull,
        ShaderStage::Complete => LoaderState::LoadingComplete,
    }
}

/// The state once `s` has loaded.
pub open spec fn ready_state(s: ShaderStage) -> LoaderState {
    match s {
        ShaderStage::Minimal => LoaderState::MinimalReady,
        ShaderStage::Extended => LoaderState::ExtendedReady,
        ShaderStage::Full => LoaderState::FullReady,
        ShaderStage::Complete => LoaderState::CompleteReady,
    }
}

impl LoaderState {
    /// Number of this state in the loading order.
    pub fn rank(&self) -> (r: u8)
        ensures
            r == loader_rank(*self),
    {
        match self {
            LoaderState::Idle => 0,
            LoaderState::LoadingMinimal => 1,
            LoaderState::MinimalReady => 2,
            LoaderState::LoadingExtended => 3,
            LoaderState::ExtendedReady => 4,
            LoaderState::LoadingFull => 5,
            LoaderState::FullReady => 6,
            LoaderState::LoadingComplete => 7,
            LoaderState::CompleteReady => 8,
            LoaderState::Failed => 9,
        }
    }
}

fn loading_state_of(s: ShaderStage) -> (r: LoaderState)
    ensures
        r == loading_state(s),
{
    match s {
        ShaderStage::Minimal => LoaderState::LoadingMinimal,
        ShaderStage::Extended => LoaderState::LoadingExtended,
        ShaderStage::Full => LoaderState::LoadingFull,
        ShaderStage::Complete => LoaderState::LoadingComplete,
    }
}

fn ready_state_of(s: ShaderStage) -> (r: LoaderState)
    ensures
        r == ready_state(s),
{
    match s {
        ShaderStage::Minimal => LoaderState::MinimalReady,
        ShaderStage::Extended => LoaderState::ExtendedReady,
        ShaderStage::Full => LoaderState::FullReady,
        ShaderStage::Complete => LoaderState::CompleteReady,
    }
}

/// The stage a new loader targets: the cached-launch target when a cache
/// file exists, the first-launch target otherwise.
pub open spec fn initial_target(config: StagedLoadingConfig, has_cache: bool) -> ShaderStage {
    if has_cache {
        config.cached_launch_target
    } else {
        config.first_launch_target
    }
}

/// A launch with a cache file goes up to the configured cached-launch
/// target, one without goes up to the first-launch target; by default a
/// first launch loads only the minimal stage and a cached launch loads
/// everything, after a pause of 500 ms with background loading on.
pub proof fn lemma_launch_targets(config: StagedLoadingConfig)
    ensures
        initial_target(config, true) == config.cached_launch_target,
        initial_target(config, false) == config.first_launch_target,
        initial_target(default_loading_config(), false) == ShaderStage::Minimal,
        initial_target(default_loading_config(), true) == ShaderStage::Complete,
        default_loading_config().background_load,
        default_loading_config().background_delay_ms == 500,
{
}

/// The stage to load after `stage` when loading goes up to `target`: the
/// next stage, unless it lies past the target.
pub open spec fn next_stage_within(stage: ShaderStage, target: ShaderStage) -> Option<ShaderStage> {
    match stage_after(stage) {
        Some(n) => if stage_rank(n) <= stage_rank(target) {
            Some(n)
        } else {
            None
        },
        None => None,
    }
}

/// The stages loaded, in order, from `s` on when every load succeeds and
/// loading goes up to `target`.
pub open spec fn stages_loaded_from(s: ShaderStage, target: ShaderStage) -> Seq<ShaderStage>
    decreases 3 - stage_rank(s),
{
    if stage_rank(s) > stage_rank(target) {
        Seq::empty()
    } else {
        seq![s] + match next_stage_within(s, target) {
            Some(n) => stages_loaded_from(n, target),
            None => Seq::empty(),
        }
    }
}

/// When every load succeeds, loading goes through every stage from the
/// minimal one up to the target, in order, and ends at the target; the
/// loader then holds all the shaders up to the target.
pub proof fn lemma_successful_loading_reaches_target(target: ShaderStage)
    ensures
        stages_loaded_from(ShaderStage::Minimal, target) == all_stages().subrange(
            0,
            stage_rank(target) + 1,
        ),
        stages_loaded_from(ShaderStage::Minimal, target).last() == target,
        forall|i: int|
            0 <= i < stages_loaded_from(ShaderStage::Minimal, target).len() - 1 ==> next_stage_within(
                #[trigger] stages_loaded_from(ShaderStage::Minimal, target)[i],
                target,
            ) == Some(stages_loaded_from(ShaderStage::Minimal, target)[i + 1]),
        next_stage_within(target, target) is None,
{
    reveal_with_fuel(stages_loaded_from, 5);
    let s = stages_loaded_from(ShaderStage::Minimal, target);
    assert(s =~= all_stages().subrange(0, stage_rank(target) + 1));
}

/// Loading never goes back: the minimal stage begins from `Idle`, each
/// stage's ready state follows its loading state, and the stage that comes
/// next begins right after the ready state of the one before, so
/// `begin_stage` accepts every stage that `stage_loaded` names. `Failed`
/// comes after every other state.
pub proof fn lemma_loading_order(stage: ShaderStage, target: ShaderStage)
    ensures
        loader_rank(LoaderState::Idle) + 1 == loader_rank(loading_state(ShaderStage::Minimal)),
        loader_rank(loading_state(stage)) + 1 == loader_rank(ready_state(stage)),
        next_stage_within(stage, target) matches Some(n) ==> loader_rank(ready_state(stage)) + 1
            == loader_rank(loading_state(n)),
        loader_rank(ready_state(stage)) < loader_rank(LoaderState::Failed),
{
}

/// Whether `state` lies within loading up to `target`: it has failed, or
/// it goes no further than the target's ready state.
pub open spec fn within_target(state: LoaderState, target: ShaderStage) -> bool {
    state == LoaderState::Failed || loader_rank(state) <= loader_rank(ready_state(target))
}

/// A loader never passes its target: within the target, the state is at
/// most the target's ready state, so a loader whose target is not the
/// complete set never becomes complete.
pub proof fn lemma_target_bounds_the_state(state: LoaderState, target: ShaderStage)
    requires
        within_target(state, target),
    ensures
        state != LoaderState::Failed ==> loader_rank(state) <= loader_rank(ready_state(target)),
        target != ShaderStage::Complete ==> state != LoaderState::CompleteReady,
        within_target(LoaderState::Idle, target),
{
}

/// Time left until `target` is reached after `elapsed_ms`, by the estimate
/// of `estimated_time_ms`.
pub open spec fn remaining_estimate(target: ShaderStage, elapsed_ms: u64) -> u64 {
    if elapsed_ms >= stage_time_ms(target) {
        0
    } else {
        (stage_time_ms(target) - elapsed_ms) as u64
    }
}

/// Staged shader loader.
pub struct StagedShaderLoader {
    config: StagedLoadingConfig,
    state: LoaderState,
    progress: StagedLoadProgress,
    target_stage: ShaderStage,
    cache_path: Option<String>,
}

impl StagedShaderLoader {
    /// The loading configuration.
    pub closed spec fn spec_config(&self) -> StagedLoadingConfig {
        self.config
    }

    /// The current state.
    pub closed spec fn spec_state(&self) -> LoaderState {
        self.state
    }

    /// The stage the loader goes up to.
    pub closed spec fn spec_target(&self) -> ShaderStage {
        self.target_stage
    }

    /// The stages completed so far, in order.
    pub closed spec fn spec_completed(&self) -> Seq<ShaderStage> {
        self.progress.stages_completed@
    }

    /// The number of shaders loaded so far.
    pub closed spec fn spec_loaded(&self) -> usize {
        self.progress.total_shaders_loaded
    }

    /// The stage the progress names as current.
    pub closed spec fn spec_current(&self) -> Option<ShaderStage> {
        self.progress.current_stage
    }

    /// Whether the progress clock was started.
    pub closed spec fn spec_clock_started(&self) -> bool {
        self.progress.start_time is Some
    }

    /// The cache path given at creation.
    pub closed spec fn spec_cache_path(&self) -> Option<String> {
        self.cache_path
    }

    /// A loader in state `Idle` with the default configuration. `cache_exists`
    /// tells whether the file at `cache_path` exists; with a cache the loader
    /// targets the cached-launch stage, otherwise the first-launch stage.
    pub fn new(cache_path: Option<String>, cache_exists: bool) -> (r: Self)
        ensures
            r.spec_config() == default_loading_config(),
            r.spec_target() == initial_target(
                default_loading_config(),
                cache_path is Some && cache_exists,
            ),
            r.spec_state() == LoaderState::Idle,
            r.spec_completed() == Seq::<ShaderStage>::empty(),
            r.spec_loaded() == 0,
            r.spec_clock_started(),
            r.spec_current() is None,
            r.spec_cache_path() == cache_path,
    {
        Self::with_config(StagedLoadingConfig::new_default(), cache_path, cache_exists)
    }

    /// A loader in state `Idle` with `config`, targeting its cached-launch
    /// stage when the cache file exists and its first-launch stage otherwise.
    fn with_config(config: StagedLoadingConfig, cache_path: Option<String>, cache_exists: bool) -> (r:
        Self)
        ensures
            r.spec_config() == config,
            r.spec_target() == initial_target(config, cache_path is Some && cache_exists),
            r.spec_state() == LoaderState::Idle,
            r.spec_completed() == Seq::<ShaderStage>::empty(),
            r.spec_loaded() == 0,
            r.spec_clock_started(),
            r.spec_current() is None,
            r.spec_cache_path() == cache_path,
    {
        let has_cache = cache_path.is_some() && cache_exists;
        let target = if has_cache {
            config.cached_launch_target
        } else {
            config.first_launch_target
        };
        StagedShaderLoader {
            config,
            state: LoaderState::Idle,
            progress: StagedLoadProgress::new(),
            target_stage: target,
            cache_path,
        }
    }

    /// The current state.
    pub fn state(&self) -> (r: LoaderState)
        ensures
            r == self.spec_state(),
    {
        self.state
    }

    /// Whether the minimal shaders are loaded and loading has not failed.
    pub fn is_minimal_ready(&self) -> (r: bool)
        ensures
            r == (loader_rank(self.spec_state()) >= 2 && self.spec_state() != LoaderState::Failed),
    {
        let rank = self.state.rank();
        rank >= 2 && rank != 9
    }

    /// Whether the complete set is loaded.
    pub fn is_complete(&self) -> (r: bool)
        ensures
            r == (self.spec_state() == LoaderState::CompleteReady),
    {
        self.state.rank() == 8
    }

    /// The stage the loader goes up to.
    pub fn target_stage(&self) -> (r: ShaderStage)
        ensures
            r == self.spec_target(),
    {
        self.target_stage
    }

    /// Whether loading has reached `stage`: the state is that stage's ready
    /// state or a later one (a failure counts as later).
    pub fn stage_reached(&self, stage: ShaderStage) -> (r: bool)
        ensures
            r == (loader_rank(self.spec_state()) >= loader_rank(ready_state(stage))),
    {
        self.state.rank() >= ready_state_of(stage).rank()
    }

    /// What waiting for `stage` would return now: `Some(true)` once the state
    /// ranks at or past the stage's ready state, and `None` while it is still
    /// worth waiting. `Failed` ranks past every ready state, so a failed
    /// loader also ends the wait with `Some(true)`; the `Some(false)` branch
    /// for a failure is never taken.
    pub fn wait_outcome(&self, stage: ShaderStage) -> (r: Option<bool>)
        ensures
            self.spec_state() == LoaderState::Failed ==> r == Some(true),
            r != Some(false),
            r == (if loader_rank(self.spec_state()) >= loader_rank(ready_state(stage)) {
                Some(true)
            } else if self.spec_state() == LoaderState::Failed {
                Some(false)
            } else {
                None::<bool>
            }),
    {
        if self.stage_reached(stage) {
            Some(true)
        } else if self.state.rank() == 9 {
            Some(false)
        } else {
            None
        }
    }

    /// Starts loading from `Idle`: the state becomes `LoadingMinimal` and the
    /// minimal stage is the one to load. A loader that has started already
    /// is left as it is, and `None` comes back.
    pub fn begin_loading(&mut self) -> (r: Option<ShaderStage>)
        ensures
            r == (if old(self).spec_state() == LoaderState::Idle {
                Some(ShaderStage::Minimal)
            } else {
                None
            }),
            final(self).spec_state() == (if old(self).spec_state() == LoaderState::Idle {
                LoaderState::LoadingMinimal
            } else {
                old(self).spec_state()
            }),
            loader_rank(final(self).spec_state()) >= loader_rank(old(self).spec_state()),
            within_target(old(self).spec_state(), old(self).spec_target()) ==> within_target(
                final(self).spec_state(),
                final(self).spec_target(),
            ),
            old(self).spec_state() == LoaderState::Failed || old(self).spec_state()
                == LoaderState::CompleteReady ==> final(self).spec_state() == old(self).spec_state(),
            final(self).spec_state() == LoaderState::Failed ==> old(self).spec_state()
                == LoaderState::Failed || old(self).spec_state() == LoaderState::LoadingMinimal,
            final(self).spec_target() == old(self).spec_target(),
            final(self).spec_config() == old(self).spec_config(),
            final(self).spec_completed() == old(self).spec_completed(),
            final(self).spec_loaded() == old(self).spec_loaded(),
            final(self).spec_clock_started() == old(self).spec_clock_started(),
            final(self).spec_current() == old(self).spec_current(),
    {
        if self.state == LoaderState::Idle {
            self.state = LoaderState::LoadingMinimal;
            Some(ShaderStage::Minimal)
        } else {
            None
        }
    }

    /// Starts loading `stage` when the stage just before it is ready and
    /// `stage` does not lie past the target: the state becomes its loading
    /// state and `true` comes back. Otherwise (out of order, past the target,
    /// after a failure, or once finished) the loader is left as it is and
    /// `false` comes back.
    pub fn begin_stage(&mut self, stage: ShaderStage) -> (r: bool)
        ensures
            r == (loader_rank(old(self).spec_state()) + 1 == loader_rank(loading_state(stage))
                && stage_rank(stage) <= stage_rank(old(self).spec_target())),
            final(self).spec_state() == (if r {
                loading_state(stage)
            } else {
                old(self).spec_state()
            }),
            loader_rank(final(self).spec_state()) >= loader_rank(old(self).spec_state()),
            within_target(old(self).spec_state(), old(self).spec_target()) ==> within_target(
                final(self).spec_state(),
                final(self).spec_target(),
            ),
            old(self).spec_state() == LoaderState::Failed || old(self).spec_state()
                == LoaderState::CompleteReady ==> final(self).spec_state() == old(self).spec_state(),
            final(self).spec_state() == LoaderState::Failed ==> old(self).spec_state()
                == LoaderState::Failed || old(self).spec_state() == LoaderState::LoadingMinimal,
            final(self).spec_target() == old(self).spec_target(),
            final(self).spec_config() == old(self).spec_config(),
            final(self).spec_completed() == old(self).spec_completed(),
            final(self).spec_loaded() == old(self).spec_loaded(),
            final(self).spec_clock_started() == old(self).spec_clock_started(),
            final(self).spec_current() == old(self).spec_current(),
    {
        let loading: LoaderState = loading_state_of(stage);
        if self.state.rank() + 1 == loading.rank() && stage.rank() <= self.target_stage.rank() {
            self.state = loading;
            true
        } else {
            false
        }
    }

    /// Records the outcome of loading `stage` and returns the next stage to
    /// load, if any.
    ///
    /// An outcome for a stage that is not loading now is ignored. A failed
    /// minimal stage makes the loader `Failed`. A failure in a later stage
    /// stops loading and leaves the state as it was. A success moves to the
    /// stage's ready state, records the stage in the progress, and names the
    /// next stage as long as it does not go past the target.
    pub fn stage_loaded(&mut self, stage: ShaderStage, ok: bool) -> (r: Option<ShaderStage>)
        requires
            old(self).spec_loaded() + stage_names(stage).len() <= usize::MAX,
        ensures
            final(self).spec_target() == old(self).spec_target(),
            final(self).spec_config() == old(self).spec_config(),
            final(self).spec_clock_started() == old(self).spec_clock_started(),
            final(self).spec_current() == old(self).spec_current(),
            loader_rank(final(self).spec_state()) >= loader_rank(old(self).spec_state()),
            within_target(old(self).spec_state(), old(self).spec_target()) ==> within_target(
                final(self).spec_state(),
                final(self).spec_target(),
            ),
            old(self).spec_state() == LoaderState::Failed || old(self).spec_state()
                == LoaderState::CompleteReady ==> final(self).spec_state() == old(self).spec_state(),
            final(self).spec_state() == LoaderState::Failed ==> old(self).spec_state()
                == LoaderState::Failed || old(self).spec_state() == LoaderState::LoadingMinimal,
            old(self).spec_state() != loading_state(stage) ==> {
                &&& r is None
                &&& final(self).spec_state() == old(self).spec_state()
                &&& final(self).spec_completed() == old(self).spec_completed()
                &&& final(self).spec_loaded() == old(self).spec_loaded()
            },
            old(self).spec_state() == loading_state(stage) && !ok ==> {
                &&& r is None
                &&& final(self).spec_state() == (if stage == ShaderStage::Minimal {
                    LoaderState::Failed
                } else {
                    old(self).spec_state()
                })
                &&& final(self).spec_completed() == old(self).spec_completed()
                &&& final(self).spec_loaded() == old(self).spec_loaded()
            },
            old(self).spec_state() == loading_state(stage) && ok ==> {
                &&& final(self).spec_state() == ready_state(stage)
                &&& final(self).spec_completed() == old(self).spec_completed().push(stage)
                &&& final(self).spec_loaded() == old(self).spec_loaded() + stage_names(stage).len()
                &&& r == next_stage_within(stage, old(self).spec_target())
            },
    {
        if self.state != loading_state_of(stage) {
            return None;
        }
        if !ok {
            if stage.rank() == 0 {
                self.state = LoaderState::Failed;
            }
            return None;
        }
        self.state = ready_state_of(stage);
        self.progress.mark_stage_complete(stage);
        match stage.next() {
            Some(n) => {
                if n.rank() <= self.target_stage.rank() {
                    Some(n)
                } else {
                    None
                }
            },
            None => None,
        }
    }

    /// How long to pause after the minimal stage before loading more, in
    /// milliseconds: the configured delay when background loading is on.
    pub fn delay_after_minimal_ms(&self) -> (r: u64)
        ensures
            r == (if self.spec_config().background_load {
                self.spec_config().background_delay_ms
            } else {
                0
            }),
    {
        if self.config.background_load && self.config.background_delay_ms > 0 {
            self.config.background_delay_ms
        } else {
            0
        }
    }

    /// A copy of the progress so far.
    pub fn progress(&self) -> (r: StagedLoadProgress)
        ensures
            r.current_stage == self.spec_current(),
            r.stages_completed@ == self.spec_completed(),
            r.total_shaders_loaded == self.spec_loaded(),
            r.start_time is Some == self.spec_clock_started(),
    {
        let mut completed: Vec<ShaderStage> = Vec::new();
        let mut i: usize = 0;
        while i < self.progress.stages_completed.len()
            invariant
                0 <= i <= self.progress.stages_completed@.len(),
                completed@ == self.progress.stages_completed@.subrange(0, i as int),
            decreases self.progress.stages_completed@.len() - i,
        {
            completed.push(self.progress.stages_completed[i]);
            i = i + 1;
            assert(completed@ =~= self.progress.stages_completed@.subrange(0, i as int));
        }
        assert(completed@ =~= self.progress.stages_completed@);
        StagedLoadProgress {
            current_stage: self.progress.current_stage,
            stages_completed: completed,
            total_shaders_loaded: self.progress.total_shaders_loaded,
            start_time: self.progress.start_time,
        }
    }

    /// Estimated time left until the target stage, from the time passed
    /// since the loader was made.
    pub fn estimated_remaining_ms(&self) -> (r: u64)
        ensures
            r <= stage_time_ms(self.spec_target()),
            exists|elapsed: u64| r == remaining_estimate(self.spec_target(), elapsed),
            !self.spec_clock_started() ==> r == stage_time_ms(self.spec_target()),
    {
        let elapsed = self.progress.elapsed_ms();
        remaining_ms(self.target_stage, elapsed)
    }

    /// The cache path given at creation.
    pub fn cache_path(&self) -> (r: &Option<String>)
        ensures
            *r == self.spec_cache_path(),
    {
        &self.cache_path
    }
}

/// Time left until `target` after `elapsed_ms`, by the estimate of
/// `estimated_time_ms`; zero once the estimate has passed.
pub fn remaining_ms(target: ShaderStage, elapsed_ms: u64) -> (r: u64)
    ensures
        r == remaining_estimate(target, elapsed_ms),
{
    let target_time = target.estimated_time_ms();
    if elapsed_ms >= target_time {
        0
    } else {
        target_time - elapsed_ms
    }
}

/// Builder for a staged loader.
pub struct StagedLoaderBuilder {
    pub config: StagedLoadingConfig,
    pub cache_path: Option<String>,
}

impl StagedLoaderBuilder {
    /// The default configuration and no cache path.
    pub fn new() -> (r: Self)
        ensures
            r.config == default_loading_config(),
            r.cache_path is None,
    {
        StagedLoaderBuilder { config: StagedLoadingConfig::new_default(), cache_path: None }
    }

    /// Sets the first-launch target.
    pub fn first_launch_target(self, stage: ShaderStage) -> (r: Self)
        ensures
            r.config == (StagedLoadingConfig { first_launch_target: stage, ..self.config }),
            r.cache_path == self.cache_path,
    {
        let mut b = self;
        b.config.first_launch_target = stage;
        b
    }

    /// Sets the cached-launch target.
    pub fn cached_launch_target(self, stage: ShaderStage) -> (r: Self)
        ensures
            r.config == (StagedLoadingConfig { cached_launch_target: stage, ..self.config }),
            r.cache_path == self.cache_path,
    {
        let mut b = self;
        b.config.cached_launch_target = stage;
        b
    }

    /// Turns background loading on or off.
    pub fn background_load(self, enabled: bool) -> (r: Self)
        ensures
            r.config == (StagedLoadingConfig { background_load: enabled, ..self.config }),
            r.cache_path == self.cache_path,
    {
        let mut b = self;
        b.config.background_load = enabled;
        b
    }

    /// Sets the background delay.
    pub fn background_delay(self, ms: u64) -> (r: Self)
        ensures
            r.config == (StagedLoadingConfig { background_delay_ms: ms, ..self.config }),
            r.cache_path == self.cache_path,
    {
        let mut b = self;
        b.config.background_delay_ms = ms;
        b
    }

    /// Sets the cache path.
    pub fn cache_path(self, path: String) -> (r: Self)
        ensures
            r.config == self.config,
            r.cache_path == Some(path),
    {
        let mut b = self;
        b.cache_path = Some(path);
        b
    }

    /// Builds the loader with the configured targets, background loading and
    /// delay, and the cache path; `cache_exists` tells whether the file at
    /// that path exists.
    pub fn build(self, cache_exists: bool) -> (r: StagedShaderLoader)
        ensures
            r.spec_config() == self.config,
            r.spec_target() == initial_target(self.config, self.cache_path is Some && cache_exists),
            r.spec_state() == LoaderState::Idle,
            r.spec_completed() == Seq::<ShaderStage>::empty(),
            r.spec_loaded() == 0,
            r.spec_clock_started(),
            r.spec_current() is None,
            r.spec_cache_path() == self.cache_path,
    {
        StagedShaderLoader::with_config(self.config, self.cache_path, cache_exists)
    }
}

impl Default for StagedLoaderBuilder {
    fn default() -> (r: Self)
        ensures
            r.config == default_loading_config(),
            r.cache_path is None,
    {
        Self::new()
    }
}

} // verus!
