use dyxel_render_vello::filter::{kawase_pool_needs_rebuild, kawase_set_matches};

#[test]
fn kawase_set_sizes_are_checked_against_half_and_quarter() {
    assert!(kawase_set_matches(100, 80, (50, 40), (25, 20), (25, 20), (25, 20)));
    assert!(!kawase_set_matches(100, 80, (50, 40), (12, 10), (12, 10), (12, 10)));
    assert!(!kawase_set_matches(100, 80, (50, 40), (25, 20), (25, 20), (25, 21)));
    assert!(!kawase_set_matches(100, 80, (51, 40), (25, 20), (25, 20), (25, 20)));
    // tiny inputs clamp every extent to one pixel
    assert!(kawase_set_matches(1, 3, (1, 1), (1, 1), (1, 1), (1, 1)));
}

#[test]
fn kawase_pool_is_rebuilt_only_for_a_new_size() {
    assert!(kawase_pool_needs_rebuild(None, 100, 80));
    assert!(!kawase_pool_needs_rebuild(Some((100, 80)), 100, 80));
    assert!(kawase_pool_needs_rebuild(Some((100, 80)), 80, 100));
}
