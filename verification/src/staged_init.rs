//! Staged initialization: the renderer first loads its core shaders, then
//! the full set in the background. This module holds the stage counter and
//! the decisions around it; spawning and joining the background work is the
//! caller's.

use vstd::prelude::*;
use crate::clock::{clock_elapsed, clock_now};

verus! {

/// Initialization stage.
#[derive(Debug, Clone, Copy, PartialEq, Eq, Structural)]
pub enum InitStage {
    /// Not started.
    NotStarted,
    /// Core shaders loading.
    CoreLoading,
    /// Core shaders loaded: basic rendering is available.
    CoreReady,
    /// Full shaders loading in the background.
    FullLoading,
    /// Everything loaded.
    FullReady,
}

/// The stage stored as `level` (0 to 4); any other value reads as `NotStarted`.
pub open spec fn init_stage_of(level: u8) -> InitStage {
    if level == 1 {
        InitStage::CoreLoading
    } else if level == 2 {
        InitStage::CoreReady
    } else if level == 3 {
        InitStage::FullLoading
    } else if level == 4 {
        InitStage::FullReady
    } else {
        InitStage::NotStarted
    }
}

/// Number of the stage in the order above.
pub open spec fn init_level(s: InitStage) -> u8 {
    match s {
        InitStage::NotStarted => 0,
        InitStage::CoreLoading => 1,
        InitStage::CoreReady => 2,
        InitStage::FullLoading => 3,
        InitStage::FullReady => 4,
    }
}

/// The level after one advance from `level`: one more, up to full readiness.
pub open spec fn advanced_level(level: u8) -> u8 {
    if level < 4 { (level + 1) as u8 } else { level }
}

/// Staged initialization controller.
pub struct StagedInit {
    stage: u8,
    start_time: std::time::Instant,
}

impl StagedInit {
    /// The stage counter, 0 to 4.
    pub closed spec fn level(&self) -> u8 {
        self.stage
    }

    /// The stage counter never passes full readiness.
    #[verifier::type_invariant]
    spec fn level_in_range(&self) -> bool {
        self.stage <= 4
    }

    /// A controller at stage `NotStarted`, its clock started now.
    pub fn new() -> (r: Self)
        ensures
            r.level() == 0,
    {
        StagedInit { stage: 0, start_time: clock_now() }
    }

    /// The current stage.
    pub fn stage(&self) -> (r: InitStage)
        ensures
            r == init_stage_of(self.level()),
            init_level(r) == self.level(),
    {
        proof {
            use_type_invariant(self);
        }
        match self.stage {
            1 => InitStage::CoreLoading,
            2 => InitStage::CoreReady,
            3 => InitStage::FullLoading,
            4 => InitStage::FullReady,
            _ => InitStage::NotStarted,
        }
    }

    /// Whether the core shaders are ready: the stage is `CoreReady` or later.
    pub fn is_core_ready(&self) -> (r: bool)
        ensures
            r == (self.level() >= 2),
            r == (init_stage_of(self.level()) == InitStage::CoreReady || init_stage_of(self.level())
                == InitStage::FullLoading || init_stage_of(self.level()) == InitStage::FullReady),
    {
        proof {
            use_type_invariant(self);
        }
        self.stage >= 2
    }

    /// Whether everything is loaded: the stage is `FullReady`.
    pub fn is_full_ready(&self) -> (r: bool)
        ensures
            r == (self.level() >= 4),
            r == (init_stage_of(self.level()) == InitStage::FullReady),
    {
        proof {
            use_type_invariant(self);
        }
        self.stage >= 4
    }

    /// Moves to the next stage; at full readiness it stays there.
    pub fn advance(&mut self)
        ensures
            final(self).level() == advanced_level(old(self).level()),
            old(self).level() <= 4,
            final(self).level() <= 4,
    {
        proof {
            use_type_invariant(&*self);
        }
        if self.stage < 4 {
            self.stage = self.stage + 1;
        }
    }

    /// Time since the controller was made.
    pub fn elapsed(&self) -> std::time::Duration {
        clock_elapsed(&self.start_time)
    }
}

impl Default for StagedInit {
    fn default() -> (r: Self)
        ensures
            r.level() == 0,
    {
        Self::new()
    }
}

/// Advancing never goes back, and from any level it reaches full readiness
/// after at most four steps and stays there.
pub proof fn lemma_advance_monotone(level: u8)
    requires
        level <= 4,
    ensures
        advanced_level(level) >= level,
        advanced_level(level) <= 4,
        level == 4 ==> advanced_level(level) == 4,
        advanced_level(advanced_level(advanced_level(advanced_level(level)))) == 4,
{
}

/// Full readiness implies core readiness, and the stage read back from a
/// stored level is the stage of that level.
pub proof fn lemma_ready_levels(level: u8)
    requires
        level <= 4,
    ensures
        level >= 4 ==> level >= 2,
        init_level(init_stage_of(level)) == level,
{
}

/// Configuration for staged initialization.
#[derive(Debug, Clone, Copy)]
pub struct StagedInitConfig {
    /// Whether staged initialization is used.
    pub enabled: bool,
    /// Delay before the background stage starts, in milliseconds.
    pub stage2_delay_ms: u64,
    /// Whether the background stage runs at all.
    pub enable_full: bool,
}

impl StagedInitConfig {
    /// The default: enabled, 100 ms delay, background stage on.
    pub fn new_default() -> (r: Self)
        ensures
            r.enabled,
            r.stage2_delay_ms == 100,
            r.enable_full,
    {
        StagedInitConfig { enabled: true, stage2_delay_ms: 100, enable_full: true }
    }
}

impl Default for StagedInitConfig {
    fn default() -> (r: Self)
        ensures
            r.enabled,
            r.stage2_delay_ms == 100,
            r.enable_full,
    {
        Self::new_default()
    }
}

/// Timings of staged initialization.
#[derive(Debug, Clone, Copy)]
pub struct StagedInitMetrics {
    pub core_load_time_ms: u64,
    pub full_load_time_ms: u64,
    pub total_time_ms: u64,
}

impl StagedInitMetrics {
    /// All timings zero.
    pub fn zero() -> (r: Self)
        ensures
            r == (StagedInitMetrics { core_load_time_ms: 0, full_load_time_ms: 0, total_time_ms: 0 }),
    {
        StagedInitMetrics { core_load_time_ms: 0, full_load_time_ms: 0, total_time_ms: 0 }
    }
}

impl Default for StagedInitMetrics {
    fn default() -> (r: Self)
        ensures
            r == (StagedInitMetrics { core_load_time_ms: 0, full_load_time_ms: 0, total_time_ms: 0 }),
    {
        Self::zero()
    }
}

/// The level once the core shaders are loaded: `CoreReady`, unless the stage
/// is already later.
pub open spec fn core_ready_level(level: u8) -> u8 {
    if level < 2 {
        2
    } else {
        level
    }
}

/// From start-up, the core load makes the core ready, starting the full
/// load moves to `FullLoading`, and its end makes everything ready; the
/// stage never goes back on the way.
pub proof fn lemma_staged_startup_reaches_full(level: u8)
    requires
        level <= 2,
    ensures
        core_ready_level(level) == 2,
        core_ready_level(level) >= level,
        advanced_level(core_ready_level(level)) == 3,
        advanced_level(advanced_level(core_ready_level(level))) == 4,
        init_stage_of(core_ready_level(level)) == InitStage::CoreReady,
        init_stage_of(advanced_level(advanced_level(core_ready_level(level)))) == InitStage::FullReady,
{
}

/// Staged initialization for the Vello backend: the stage controller, its
/// configuration and its timings. The caller loads the core shaders, reports
/// it with `core_loaded`, asks `start_full_load` whether to run the full load
/// in the background, and reports its end with `full_load_finished`.
pub struct StagedVelloInit {
    pub staged: StagedInit,
    pub config: StagedInitConfig,
    pub metrics: StagedInitMetrics,
}

impl StagedVelloInit {
    /// A controller at stage `NotStarted` with zero timings.
    pub fn new(config: StagedInitConfig) -> (r: Self)
        ensures
            r.staged.level() == 0,
            r.config == config,
            r.metrics == StagedInitMetrics::zero_spec(),
    {
        StagedVelloInit { staged: StagedInit::new(), config, metrics: StagedInitMetrics::zero() }
    }

    /// Records that the core load finished after `elapsed_ms`: the stage is
    /// `CoreReady` (or stays where it is when it is already later), and the
    /// core load time is recorded.
    pub fn core_loaded(&mut self, elapsed_ms: u64)
        ensures
            final(self).staged.level() == core_ready_level(old(self).staged.level()),
            final(self).metrics == (StagedInitMetrics {
                core_load_time_ms: elapsed_ms,
                ..old(self).metrics
            }),
            final(self).config == old(self).config,
    {
        if !self.staged.is_core_ready() {
            self.staged.advance();
            if !self.staged.is_core_ready() {
                self.staged.advance();
            }
        }
        self.metrics.core_load_time_ms = elapsed_ms;
    }

    /// Starts the background stage when the configuration allows it: then the
    /// stage moves on and the result is true, and the caller runs the full
    /// load after `config.stage2_delay_ms`. Otherwise nothing changes.
    pub fn start_full_load(&mut self) -> (r: bool)
        ensures
            r == (old(self).config.enabled && old(self).config.enable_full),
            final(self).staged.level() == (if r {
                advanced_level(old(self).staged.level())
            } else {
                old(self).staged.level()
            }),
            final(self).metrics == old(self).metrics,
            final(self).config == old(self).config,
    {
        if !self.config.enabled || !self.config.enable_full {
            return false;
        }
        self.staged.advance();
        true
    }

    /// Records that the background load finished: one stage on.
    pub fn full_load_finished(&mut self)
        ensures
            final(self).staged.level() == advanced_level(old(self).staged.level()),
            final(self).metrics == old(self).metrics,
            final(self).config == old(self).config,
    {
        self.staged.advance();
    }

    /// Whether the core shaders are ready.
    pub fn is_core_ready(&self) -> (r: bool)
        ensures
            r == (self.staged.level() >= 2),
    {
        self.staged.is_core_ready()
    }

    /// Whether everything is loaded.
    pub fn is_full_ready(&self) -> (r: bool)
        ensures
            r == (self.staged.level() >= 4),
    {
        self.staged.is_full_ready()
    }

    /// The current stage.
    pub fn stage(&self) -> (r: InitStage)
        ensures
            r == init_stage_of(self.staged.level()),
    {
        self.staged.stage()
    }

    /// The timings recorded so far.
    pub fn metrics(&self) -> (r: StagedInitMetrics)
        ensures
            r == self.metrics,
    {
        self.metrics
    }
}

impl StagedInitMetrics {
    /// All timings zero.
    pub open spec fn zero_spec() -> StagedInitMetrics {
        StagedInitMetrics { core_load_time_ms: 0, full_load_time_ms: 0, total_time_ms: 0 }
    }
}

impl Default for StagedVelloInit {
    fn default() -> (r: Self)
        ensures
            r.staged.level() == 0,
            r.config == StagedInitConfig::default_spec(),
            r.metrics == StagedInitMetrics::zero_spec(),
    {
        Self::new(StagedInitConfig::new_default())
    }
}

impl StagedInitConfig {
    /// The default configuration: enabled, 100 ms delay, background stage on.
    pub open spec fn default_spec() -> StagedInitConfig {
        StagedInitConfig { enabled: true, stage2_delay_ms: 100, enable_full: true }
    }
}

} // verus!
