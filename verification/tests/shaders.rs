use dyxel_render_vello::minimal_shaders::{
    estimate_time_savings_ms, is_minimal_shader, shader_stage, shaders_up_to, ShaderStage,
    StagedLoadProgress, StagedLoadingConfig,
};

const ALL: [ShaderStage; 4] =
    [ShaderStage::Minimal, ShaderStage::Extended, ShaderStage::Full, ShaderStage::Complete];

#[test]
fn stage_names_are_listed_per_stage() {
    assert_eq!(
        ShaderStage::Minimal.shader_names(),
        &["fine_area", "coarse", "path_count", "path_count_setup", "path_tiling", "path_tiling_setup"]
    );
    assert_eq!(ShaderStage::Extended.shader_names().len(), 7);
    assert_eq!(ShaderStage::Full.shader_names().len(), 7);
    assert_eq!(ShaderStage::Complete.shader_names(), &["fine_msaa8", "fine_msaa16"]);
}

#[test]
fn contains_checks_only_own_stage() {
    assert!(ShaderStage::Minimal.contains("coarse"));
    assert!(!ShaderStage::Extended.contains("coarse"));
    assert!(ShaderStage::Full.contains("backdrop"));
    assert!(!ShaderStage::Complete.contains("backdrop"));
    assert!(!ShaderStage::Minimal.contains(""));
    assert!(!ShaderStage::Minimal.contains("coarse "));
}

#[test]
fn next_walks_the_stages_in_order() {
    assert_eq!(ShaderStage::Minimal.next(), Some(ShaderStage::Extended));
    assert_eq!(ShaderStage::Extended.next(), Some(ShaderStage::Full));
    assert_eq!(ShaderStage::Full.next(), Some(ShaderStage::Complete));
    assert_eq!(ShaderStage::Complete.next(), None);
}

#[test]
fn estimated_times_grow_with_stage() {
    let times: Vec<u64> = ALL.iter().map(|s| s.estimated_time_ms()).collect();
    assert_eq!(times, vec![400, 800, 1200, 1800]);
    assert_eq!(ALL.iter().map(|s| s.rank()).collect::<Vec<u8>>(), vec![0, 1, 2, 3]);
}

#[test]
fn shaders_up_to_is_a_prefix_of_later_stages() {
    let full = shaders_up_to(ShaderStage::Full);
    let complete = shaders_up_to(ShaderStage::Complete);
    assert_eq!(full.len(), 20);
    assert_eq!(complete.len(), 22);
    assert_eq!(&complete[..full.len()], &full[..]);
    assert_eq!(complete[20], "fine_msaa8");
}

#[test]
fn each_shader_has_exactly_one_stage() {
    for stage in ALL {
        for name in stage.shader_names() {
            assert_eq!(shader_stage(name), Some(stage));
            for other in ALL {
                assert_eq!(other.contains(name), other == stage);
            }
            // loaded exactly by the stages from its own on
            for target in ALL {
                assert_eq!(shaders_up_to(target).contains(name), stage.rank() <= target.rank());
            }
        }
    }
    assert_eq!(shader_stage("unknown"), None);
}

#[test]
fn minimal_shader_check() {
    assert!(is_minimal_shader("fine_area"));
    assert!(!is_minimal_shader("fine_msaa16"));
    assert!(!is_minimal_shader("flatten"));
}

#[test]
fn time_savings_per_stage() {
    assert_eq!(estimate_time_savings_ms(ShaderStage::Extended), (800, 1000));
    assert_eq!(estimate_time_savings_ms(ShaderStage::Complete), (1800, 0));
}

#[test]
fn default_loading_config() {
    let c = StagedLoadingConfig::default();
    assert_eq!(c.first_launch_target, ShaderStage::Minimal);
    assert_eq!(c.cached_launch_target, ShaderStage::Complete);
    assert!(c.background_load);
    assert_eq!(c.background_delay_ms, 500);
}

#[test]
fn progress_counts_stages_and_shaders() {
    let mut p = StagedLoadProgress::new();
    assert!(p.start_time.is_some());
    assert!(!p.is_complete(ShaderStage::Minimal));
    p.mark_stage_complete(ShaderStage::Minimal);
    assert!(p.is_complete(ShaderStage::Minimal));
    assert!(!p.is_complete(ShaderStage::Extended));
    p.mark_stage_complete(ShaderStage::Full);
    // a later completed stage counts for every earlier target
    assert!(p.is_complete(ShaderStage::Extended));
    assert!(!p.is_complete(ShaderStage::Complete));
    assert_eq!(p.total_shaders_loaded, 6 + 7);
    assert_eq!(p.stages_completed, vec![ShaderStage::Minimal, ShaderStage::Full]);
}

#[test]
fn elapsed_without_start_is_zero() {
    let p = StagedLoadProgress::empty();
    assert_eq!(p.elapsed_ms(), 0);
    let q = StagedLoadProgress::new();
    assert!(q.elapsed_ms() < 60_000);
}
