use dyxel_render_vello::minimal_shaders::{ShaderStage, StagedLoadProgress};
use dyxel_render_vello::staged_init::{InitStage, StagedInit, StagedInitConfig, StagedVelloInit};
use dyxel_render_vello::staged_loader::{remaining_ms, LoaderState, StagedLoaderBuilder, StagedShaderLoader};

#[test]
fn staged_init_advances_to_full_and_stays() {
    let mut s = StagedInit::new();
    assert_eq!(s.stage(), InitStage::NotStarted);
    assert!(!s.is_core_ready());
    let expected = [
        InitStage::CoreLoading,
        InitStage::CoreReady,
        InitStage::FullLoading,
        InitStage::FullReady,
        InitStage::FullReady,
    ];
    for e in expected {
        s.advance();
        assert_eq!(s.stage(), e);
    }
    assert!(s.is_core_ready());
    assert!(s.is_full_ready());
    let _ = s.elapsed();
}

#[test]
fn staged_init_core_ready_before_full() {
    let mut s = StagedInit::new();
    s.advance();
    s.advance();
    assert!(s.is_core_ready());
    assert!(!s.is_full_ready());
}

#[test]
fn staged_init_config_default() {
    let c = StagedInitConfig::default();
    assert!(c.enabled);
    assert_eq!(c.stage2_delay_ms, 100);
    assert!(c.enable_full);
}

#[test]
fn staged_vello_init_protocol() {
    let mut v = StagedVelloInit::new(StagedInitConfig::default());
    v.staged.advance(); // core loading starts
    v.core_loaded(120);
    assert_eq!(v.stage(), InitStage::CoreReady);
    assert!(v.is_core_ready());
    assert_eq!(v.metrics().core_load_time_ms, 120);
    assert!(v.start_full_load());
    assert_eq!(v.stage(), InitStage::FullLoading);
    v.full_load_finished();
    assert!(v.is_full_ready());
}

#[test]
fn staged_vello_init_disabled_full_load() {
    let config = StagedInitConfig { enabled: true, stage2_delay_ms: 0, enable_full: false };
    let mut v = StagedVelloInit::new(config);
    assert!(!v.start_full_load());
    assert_eq!(v.stage(), InitStage::NotStarted);
    let off = StagedInitConfig { enabled: false, stage2_delay_ms: 0, enable_full: true };
    let mut w = StagedVelloInit::new(off);
    assert!(!w.start_full_load());
}

#[test]
fn loader_targets_by_cache() {
    let first = StagedShaderLoader::new(None, true);
    assert_eq!(first.target_stage(), ShaderStage::Minimal);
    let missing = StagedShaderLoader::new(Some("c.bin".to_string()), false);
    assert_eq!(missing.target_stage(), ShaderStage::Minimal);
    let cached = StagedShaderLoader::new(Some("c.bin".to_string()), true);
    assert_eq!(cached.target_stage(), ShaderStage::Complete);
    assert_eq!(cached.state(), LoaderState::Idle);
    assert!(!cached.is_minimal_ready());
}

#[test]
fn loader_runs_every_stage_up_to_target() {
    let mut l = StagedShaderLoader::new(Some("c.bin".to_string()), true);
    let mut stage = l.begin_loading().unwrap();
    assert_eq!(l.state(), LoaderState::LoadingMinimal);
    let mut order = vec![stage];
    while let Some(next) = l.stage_loaded(stage, true) {
        assert!(l.begin_stage(next));
        stage = next;
        order.push(stage);
    }
    assert_eq!(order, vec![ShaderStage::Minimal, ShaderStage::Extended, ShaderStage::Full, ShaderStage::Complete]);
    assert!(l.is_complete());
    assert!(l.is_minimal_ready());
    assert_eq!(l.progress().total_shaders_loaded, 22);
    assert_eq!(l.wait_outcome(ShaderStage::Full), Some(true));
    assert_eq!(l.estimated_remaining_ms() <= 1800, true);
}

#[test]
fn loader_stops_at_minimal_target() {
    let mut l = StagedShaderLoader::new(None, false);
    let stage = l.begin_loading().unwrap();
    assert_eq!(l.stage_loaded(stage, true), None);
    assert_eq!(l.state(), LoaderState::MinimalReady);
    assert!(!l.is_complete());
    assert_eq!(l.wait_outcome(ShaderStage::Minimal), Some(true));
    assert_eq!(l.wait_outcome(ShaderStage::Extended), None);
}

#[test]
fn loader_fails_on_minimal_error() {
    let mut l = StagedShaderLoader::new(None, false);
    let stage = l.begin_loading().unwrap();
    assert_eq!(l.stage_loaded(stage, false), None);
    assert_eq!(l.state(), LoaderState::Failed);
    assert!(!l.is_minimal_ready());
    // `Failed` ranks after every ready state, so waiting reports it as reached
    assert_eq!(l.wait_outcome(ShaderStage::Minimal), Some(true));
    assert!(l.stage_reached(ShaderStage::Complete));
}

#[test]
fn loader_keeps_loading_state_on_later_error() {
    let mut l = StagedShaderLoader::new(Some("c".to_string()), true);
    let s = l.begin_loading().unwrap();
    let next = l.stage_loaded(s, true).unwrap();
    assert!(l.begin_stage(next));
    assert_eq!(l.stage_loaded(next, false), None);
    assert_eq!(l.state(), LoaderState::LoadingExtended);
    assert!(l.is_minimal_ready());
    assert_eq!(l.progress().stages_completed, vec![ShaderStage::Minimal]);
}

#[test]
fn loader_delay_after_minimal() {
    let l = StagedShaderLoader::new(None, false);
    assert_eq!(l.delay_after_minimal_ms(), 500);
}

#[test]
fn remaining_time_estimate() {
    assert_eq!(remaining_ms(ShaderStage::Minimal, 100), 300);
    assert_eq!(remaining_ms(ShaderStage::Minimal, 400), 0);
    assert_eq!(remaining_ms(ShaderStage::Complete, 5000), 0);
    assert_eq!(remaining_ms(ShaderStage::Full, 0), 1200);
}

#[test]
fn builder_sets_fields_and_builds_with_its_config() {
    let b = StagedLoaderBuilder::new()
        .first_launch_target(ShaderStage::Full)
        .cached_launch_target(ShaderStage::Extended)
        .background_load(false)
        .background_delay(7)
        .cache_path("cache.bin".to_string());
    assert_eq!(b.config.first_launch_target, ShaderStage::Full);
    assert_eq!(b.config.cached_launch_target, ShaderStage::Extended);
    assert!(!b.config.background_load);
    assert_eq!(b.config.background_delay_ms, 7);
    assert_eq!(b.cache_path.as_deref(), Some("cache.bin"));
    let l = b.build(true);
    assert_eq!(l.target_stage(), ShaderStage::Extended);
    // background loading is off, so there is no pause
    assert_eq!(l.delay_after_minimal_ms(), 0);
    assert_eq!(l.cache_path().as_deref(), Some("cache.bin"));
    let l = StagedLoaderBuilder::new().background_delay(7).build(false);
    assert_eq!(l.delay_after_minimal_ms(), 7);
}

#[test]
fn builder_first_launch_target_applies_without_cache() {
    let l = StagedLoaderBuilder::new()
        .first_launch_target(ShaderStage::Full)
        .build(false);
    assert_eq!(l.target_stage(), ShaderStage::Full);
}

#[test]
fn core_load_makes_core_ready_and_full_load_makes_full_ready() {
    let mut v = StagedVelloInit::new(StagedInitConfig::default());
    v.core_loaded(120);
    assert!(v.is_core_ready());
    assert_eq!(v.stage(), InitStage::CoreReady);
    assert_eq!(v.metrics().core_load_time_ms, 120);
    assert!(v.start_full_load());
    assert!(!v.is_full_ready());
    v.full_load_finished();
    assert!(v.is_full_ready());
    assert_eq!(v.stage(), InitStage::FullReady);
}

#[test]
fn loader_state_never_goes_back() {
    let mut l = StagedShaderLoader::new(Some("c".to_string()), true);
    // nothing is loading yet: outcomes and out-of-order stages are ignored
    assert_eq!(l.stage_loaded(ShaderStage::Full, true), None);
    assert!(!l.begin_stage(ShaderStage::Extended));
    assert_eq!(l.state(), LoaderState::Idle);
    assert_eq!(l.begin_loading(), Some(ShaderStage::Minimal));
    assert_eq!(l.begin_loading(), None);
    assert_eq!(l.state(), LoaderState::LoadingMinimal);
    assert_eq!(l.stage_loaded(ShaderStage::Minimal, true), Some(ShaderStage::Extended));
    assert!(!l.begin_stage(ShaderStage::Full));
    assert!(!l.begin_stage(ShaderStage::Minimal));
    assert_eq!(l.state(), LoaderState::MinimalReady);
    assert!(l.begin_stage(ShaderStage::Extended));
    assert_eq!(l.stage_loaded(ShaderStage::Extended, false), None);
    assert_eq!(l.state(), LoaderState::LoadingExtended);
    // after a failed later stage nothing moves any more
    assert!(!l.begin_stage(ShaderStage::Full));
    assert_eq!(l.stage_loaded(ShaderStage::Minimal, false), None);
    assert_eq!(l.state(), LoaderState::LoadingExtended);
    assert_eq!(l.progress().stages_completed, vec![ShaderStage::Minimal]);
}

#[test]
fn failed_loader_stays_failed() {
    let mut l = StagedShaderLoader::new(None, false);
    l.begin_loading();
    assert_eq!(l.stage_loaded(ShaderStage::Minimal, false), None);
    assert_eq!(l.state(), LoaderState::Failed);
    assert_eq!(l.begin_loading(), None);
    assert!(!l.begin_stage(ShaderStage::Extended));
    assert_eq!(l.stage_loaded(ShaderStage::Minimal, true), None);
    assert_eq!(l.state(), LoaderState::Failed);
}

#[test]
fn shader_stages_are_ordered_and_progress_defaults_empty() {
    assert!(ShaderStage::Minimal < ShaderStage::Extended);
    assert!(ShaderStage::Extended < ShaderStage::Full);
    assert!(ShaderStage::Full < ShaderStage::Complete);
    let p = StagedLoadProgress::default();
    assert_eq!(p.current_stage, None);
    assert!(p.stages_completed.is_empty());
    assert_eq!(p.total_shaders_loaded, 0);
    assert!(p.start_time.is_none());
    assert_eq!(p.elapsed_ms(), 0);
}

#[test]
fn loader_never_passes_its_target() {
    let mut l = StagedShaderLoader::new(None, false);
    assert_eq!(l.target_stage(), ShaderStage::Minimal);
    let s = l.begin_loading().unwrap();
    assert_eq!(l.stage_loaded(s, true), None);
    assert_eq!(l.state(), LoaderState::MinimalReady);
    assert!(!l.begin_stage(ShaderStage::Extended));
    assert_eq!(l.stage_loaded(ShaderStage::Extended, true), None);
    assert_eq!(l.state(), LoaderState::MinimalReady);
    assert!(!l.is_complete());
}

#[test]
fn failed_loader_ends_every_wait_as_reached() {
    let mut l = StagedShaderLoader::new(None, false);
    l.begin_loading();
    l.stage_loaded(ShaderStage::Minimal, false);
    assert_eq!(l.wait_outcome(ShaderStage::Complete), Some(true));
    assert_eq!(l.wait_outcome(ShaderStage::Minimal), Some(true));
}

#[test]
fn progress_completion_grows_with_marks() {
    let mut p = StagedLoadProgress::empty();
    assert!(!p.is_complete(ShaderStage::Minimal));
    p.mark_stage_complete(ShaderStage::Extended);
    assert!(p.is_complete(ShaderStage::Minimal));
    assert!(p.is_complete(ShaderStage::Extended));
    assert!(!p.is_complete(ShaderStage::Full));
    p.mark_stage_complete(ShaderStage::Complete);
    assert!(p.is_complete(ShaderStage::Full));
    assert!(p.is_complete(ShaderStage::Minimal));
}
