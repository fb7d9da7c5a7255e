use dyxel_render_vello::pipeline_cache::{cache_file_for_save, pipeline_cache_path, split_cache_file};
use dyxel_render_vello::shader_cache::{ShaderCacheConfig, ShaderCacheManager, ShaderLoadStats};
use dyxel_render_vello::two_stage_init::{
    cache_data_from_file, cache_file_bytes, detect_stage_from_cache, CacheHeader, ExecutePlan,
    InitStage, TwoStageInit, TwoStageLoader,
};

#[test]
fn header_bytes_layout() {
    let h = CacheHeader::new(2);
    assert_eq!(h.to_bytes(), vec![b'D', b'Y', b'X', b'L', 1, 0, 0, 0, 2, 0, 0, 0]);
}

#[test]
fn header_round_trip() {
    for stage in [0u8, 2, 4, 255] {
        let h = CacheHeader::new(stage);
        let back = CacheHeader::from_bytes(&h.to_bytes()).unwrap();
        assert_eq!(back.magic, *b"DYXL");
        assert_eq!(back.version, 1);
        assert_eq!(back.stage, stage);
        assert_eq!(back.reserved, [0, 0, 0]);
    }
}

#[test]
fn header_rejects_bad_input() {
    assert!(CacheHeader::from_bytes(b"DYXL\x01\x00\x00").is_none());
    assert!(CacheHeader::from_bytes(b"DYXX\x01\x00\x00\x00\x02").is_none());
    assert!(CacheHeader::from_bytes(b"DYXL\x02\x00\x00\x00\x02").is_none());
    // eight bytes are enough; the stage then reads as 0
    assert_eq!(CacheHeader::from_bytes(b"DYXL\x01\x00\x00\x00").unwrap().stage, 0);
    // reserved bytes are not read
    let h = CacheHeader::from_bytes(b"DYXL\x01\x00\x00\x00\x04\x09\x09\x09").unwrap();
    assert_eq!((h.stage, h.reserved), (4, [0, 0, 0]));
}

#[test]
fn cache_file_stage_detection() {
    let data = [9u8, 8, 7];
    assert_eq!(detect_stage_from_cache(Some(&cache_file_bytes(&data, 2))), InitStage::Stage1Complete);
    assert_eq!(detect_stage_from_cache(Some(&cache_file_bytes(&data, 4))), InitStage::Stage2Complete);
    assert_eq!(detect_stage_from_cache(Some(&cache_file_bytes(&data, 3))), InitStage::NotStarted);
    assert_eq!(detect_stage_from_cache(None), InitStage::NotStarted);
    // a header shorter than twelve bytes does not count
    assert_eq!(detect_stage_from_cache(Some(b"DYXL\x01\x00\x00\x00\x02")), InitStage::NotStarted);
}

#[test]
fn cache_payload_round_trip() {
    let data = vec![1u8, 2, 3, 4, 5];
    let file = cache_file_bytes(&data, 4);
    assert_eq!(file.len(), 17);
    assert_eq!(cache_data_from_file(&file), Some(data));
    assert_eq!(cache_data_from_file(&cache_file_bytes(&[], 4)), None);
}

#[test]
fn two_stage_loader_plans() {
    let none = TwoStageLoader::new("c".to_string(), None);
    assert_eq!(none.stage(), InitStage::NotStarted);
    assert!(none.needs_stage2());
    assert_eq!(none.execute_plan(), ExecutePlan::BothStages);
    let stage1 = TwoStageLoader::new("c".to_string(), Some(cache_file_bytes(&[1, 2], 2)));
    assert_eq!(stage1.execute_plan(), ExecutePlan::Stage2Only);
    let mut full = TwoStageLoader::new("c".to_string(), Some(cache_file_bytes(&[1, 2], 4)));
    assert!(!full.needs_stage2());
    assert_eq!(full.execute_plan(), ExecutePlan::Nothing);
    full.advance_stage(InitStage::Stage1Loading);
    assert_eq!(full.stage(), InitStage::Stage1Loading);
    assert_eq!(full.execute_plan(), ExecutePlan::BothStages);
    assert_eq!(full.cache_path(), "c");
}

#[test]
fn two_stage_init_decisions() {
    let cold = TwoStageInit::new("c".to_string(), None);
    assert!(cold.use_minimal_for_startup());
    assert!(!cold.is_full_cache_ready());
    let warm = TwoStageInit::new("c".to_string(), Some(cache_file_bytes(&[3], 4)));
    assert!(!warm.use_minimal_for_startup());
    assert!(warm.is_full_cache_ready());
    let mut loading = TwoStageInit::new("c".to_string(), None);
    loading.loader.advance_stage(InitStage::Stage2Loading);
    assert!(!loading.use_minimal_for_startup());
    assert!(!loading.is_full_cache_ready());
}

#[test]
fn pipeline_cache_file_format() {
    assert_eq!(pipeline_cache_path("/data"), "/data/vello_v1.cache");
    let tagged = cache_file_for_save(&[5, 6, 7], Some(2));
    assert_eq!(tagged, vec![2, 5, 6, 7]);
    assert_eq!(split_cache_file(&tagged), (Some(2), Some(vec![5, 6, 7])));
    let untagged = cache_file_for_save(&[5, 6, 7], Some(3));
    assert_eq!(untagged, vec![5, 6, 7]);
    assert_eq!(split_cache_file(&untagged), (None, Some(vec![5, 6, 7])));
    assert_eq!(cache_file_for_save(&[9], None), vec![9]);
    assert_eq!(split_cache_file(&[1]), (None, None));
    assert_eq!(split_cache_file(&[]), (None, None));
    // an untagged cache that starts with 1 reads as tagged
    assert_eq!(split_cache_file(&[1, 7]), (Some(1), Some(vec![7])));
}

#[test]
fn shader_cache_manager_keeps_data_only_when_enabled() {
    let m = ShaderCacheManager::new(ShaderCacheConfig::default(), Some(vec![1, 2, 3]));
    assert!(m.has_cache());
    assert_eq!(m.get_cache_data(), Some(&[1u8, 2, 3][..]));
    assert_eq!(m.save_cache_path(), Some("vello_cache.bin"));
    let off = ShaderCacheConfig { cache_path: "x".to_string(), enabled: false, background_warm: false };
    let d = ShaderCacheManager::new(off, Some(vec![1]));
    assert!(!d.has_cache());
    assert_eq!(d.get_cache_data(), None);
    assert_eq!(d.save_cache_path(), None);
    let empty = ShaderCacheManager::new(ShaderCacheConfig::default(), None);
    assert!(!empty.has_cache());
}

#[test]
fn shader_cache_warming() {
    let mut m = ShaderCacheManager::new(ShaderCacheConfig::default(), None);
    assert!(!m.is_warmed());
    m.mark_warmed();
    assert!(m.is_warmed());
}

#[test]
fn shader_cache_config_default() {
    let c = ShaderCacheConfig::default();
    assert_eq!(c.cache_path, "vello_cache.bin");
    assert!(c.enabled);
    assert!(c.background_warm);
}

#[test]
fn load_stats_builders() {
    let s = ShaderLoadStats::new().with_cache_hit().with_load_time(42);
    assert!(s.cache_hit);
    assert_eq!(s.load_time_ms, 42);
    assert_eq!(s.shader_count, 0);
    assert_eq!(s.cache_size_bytes, 0);
    let d = ShaderLoadStats::default();
    assert!(!d.cache_hit);
}
