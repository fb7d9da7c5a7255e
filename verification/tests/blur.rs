use dyxel_render_vello::blur::atlas::{
    blur_atlas_wide_layout_within_budget, ceil_sqrt_u32, compute_blur_atlas_layout, div_ceil_u32,
    saturating_mul_u32,
};
use dyxel_render_vello::blur::dirty::{
    blur_texture_alloc_extent_px, blur_texture_allocation, classify_blur_changes,
    collect_blur_dirty_report, BlurChanges,
};
use dyxel_render_vello::blur::passes::select_legacy_rebuild_indices;
use dyxel_render_vello::blur::types::{BlurDirtyKind, BlurEntryInfo};

fn entry(view_id: u32, w: u32, h: u32) -> BlurEntryInfo {
    BlurEntryInfo {
        view_id,
        width: w,
        height: h,
        skipped_due_to_size: false,
        visible: true,
        blur_valid: true,
        blur_rebuild_pending: false,
        dirty_kind: BlurDirtyKind::Clean,
        param_dirty_bits: 0,
        last_blur_rebuild_frame: 0,
        has_deferred_children: false,
    }
}

fn no_changes() -> BlurChanges {
    BlurChanges {
        allocation_changed: false,
        kernel_changed: false,
        rect_changed: false,
        active_size_changed: false,
        opacity_changed: false,
        overlay_changed: false,
        style_changed: false,
        children_changed: false,
        src_x_changed: false,
        src_y_changed: false,
        src_w_changed: false,
        src_h_changed: false,
    }
}

#[test]
fn ceil_sqrt_values() {
    let cases = [(0u32, 1u32), (1, 1), (2, 2), (4, 2), (5, 3), (9, 3), (10, 4), (48, 7), (49, 7), (50, 8)];
    for (n, r) in cases {
        assert_eq!(ceil_sqrt_u32(n), r, "n = {}", n);
    }
    assert_eq!(ceil_sqrt_u32(u32::MAX), 65536);
}

#[test]
fn saturating_and_ceiling_helpers() {
    assert_eq!(saturating_mul_u32(70000, 70000), u32::MAX);
    assert_eq!(saturating_mul_u32(3, 4), 12);
    assert_eq!(div_ceil_u32(10, 3), 4);
    assert_eq!(div_ceil_u32(9, 3), 3);
    assert_eq!(div_ceil_u32(0, 5), 0);
}

#[test]
fn alloc_extent_buckets() {
    let cases = [(0u32, 128u32), (128, 128), (129, 192), (200, 256), (300, 320), (384, 384), (385, 448), (448, 448), (449, 512)];
    for (a, e) in cases {
        assert_eq!(blur_texture_alloc_extent_px(a), e);
    }
}

#[test]
fn texture_allocation_reuses_or_grows() {
    assert_eq!(blur_texture_allocation(None, 170, 100), (192, 128, true));
    assert_eq!(blur_texture_allocation(Some((256, 256)), 170, 100), (256, 256, false));
    assert_eq!(blur_texture_allocation(Some((128, 256)), 170, 100), (192, 256, true));
}

#[test]
fn atlas_layout_orders_by_view_id() {
    let mut hidden = entry(1, 100, 100);
    hidden.visible = false;
    let mut skipped = entry(2, 100, 100);
    skipped.skipped_due_to_size = true;
    let entries = [entry(30, 100, 120), entry(10, 200, 50), hidden, skipped, entry(20, 90, 90), entry(10, 50, 50)];
    let l = compute_blur_atlas_layout(&entries, 2).unwrap();
    assert_eq!(l.slot, 256);
    assert_eq!(l.gap, 2);
    // four entries: 2 x 2 grid
    assert_eq!((l.width, l.height), (512, 512));
    assert_eq!(l.placements, vec![(1, 2, 2), (5, 258, 2), (4, 2, 258), (0, 258, 258)]);
    assert!(blur_atlas_wide_layout_within_budget(&l, 48, 5_000_000));
    assert!(!blur_atlas_wide_layout_within_budget(&l, 3, 5_000_000));
    assert!(!blur_atlas_wide_layout_within_budget(&l, 48, 200_000));
}

#[test]
fn atlas_layout_slot_sizes_and_refusals() {
    assert!(compute_blur_atlas_layout(&[], 2).is_none());
    let mut hidden = entry(1, 10, 10);
    hidden.visible = false;
    assert!(compute_blur_atlas_layout(&[hidden], 2).is_none());
    assert_eq!(compute_blur_atlas_layout(&[entry(1, 300, 10)], 2).unwrap().slot, 320);
    assert_eq!(compute_blur_atlas_layout(&[entry(1, 10, 350)], 2).unwrap().slot, 384);
    assert!(compute_blur_atlas_layout(&[entry(1, 381, 10)], 2).is_none());
    // gap on both sides counts
    assert_eq!(compute_blur_atlas_layout(&[entry(1, 252, 10)], 2).unwrap().slot, 256);
    assert_eq!(compute_blur_atlas_layout(&[entry(1, 253, 10)], 2).unwrap().slot, 320);
}

#[test]
fn atlas_layout_grid_limits() {
    // 256 slots of 256 px fill a 16 x 16 grid of 4096 px
    let many: Vec<BlurEntryInfo> = (0..256).map(|i| entry(i, 10, 10)).collect();
    let l = compute_blur_atlas_layout(&many, 2).unwrap();
    assert_eq!((l.width, l.height), (4096, 4096));
    assert_eq!(l.placements[17], (17, 16 * 0 + 256 + 2, 256 + 2));
    // one more does not fit
    let too_many: Vec<BlurEntryInfo> = (0..257).map(|i| entry(i, 10, 10)).collect();
    assert!(compute_blur_atlas_layout(&too_many, 2).is_none());
    // placements never overlap
    let some: Vec<BlurEntryInfo> = (0..7).map(|i| entry(7 - i, 100 + i * 20, 80)).collect();
    let l = compute_blur_atlas_layout(&some, 32).unwrap();
    for (a, &(ia, xa, ya)) in l.placements.iter().enumerate() {
        let ea = &some[ia];
        assert!(xa + ea.width + 32 <= l.width && ya + ea.height + 32 <= l.height);
        for &(ib, xb, yb) in l.placements.iter().skip(a + 1) {
            let eb = &some[ib];
            assert!(xa + ea.width <= xb || xb + eb.width <= xa || ya + ea.height <= yb || yb + eb.height <= ya);
        }
    }
}

#[test]
fn rebuild_selection_priority_and_budget() {
    let mut a = entry(1, 100, 100);
    a.dirty_kind = BlurDirtyKind::BackgroundChanged;
    a.last_blur_rebuild_frame = 5;
    let mut b = entry(2, 50, 50);
    b.blur_valid = false;
    b.last_blur_rebuild_frame = 9;
    let mut c = entry(3, 200, 200);
    c.blur_rebuild_pending = true;
    c.last_blur_rebuild_frame = 5;
    let mut d = entry(4, 10, 10);
    d.dirty_kind = BlurDirtyKind::OverlayOnlyChanged;
    let mut e = entry(5, 10, 10);
    e.blur_valid = false;
    e.visible = false;
    let entries = [a, b, c, d, e];
    assert_eq!(select_legacy_rebuild_indices(&entries, 6), vec![1, 2, 0]);
    assert_eq!(select_legacy_rebuild_indices(&entries, 1), vec![1]);
    assert_eq!(select_legacy_rebuild_indices(&entries, 0), Vec::<usize>::new());
}

#[test]
fn dirty_report_counts() {
    let mut a = entry(1, 10, 10);
    a.dirty_kind = BlurDirtyKind::BlurParamsChanged;
    a.param_dirty_bits = 1 | 4 | 32;
    let mut b = entry(2, 10, 10);
    b.dirty_kind = BlurDirtyKind::ChildrenChanged;
    b.has_deferred_children = true;
    let mut c = entry(3, 10, 10);
    c.dirty_kind = BlurDirtyKind::ChildrenChanged;
    c.skipped_due_to_size = true;
    c.blur_valid = false;
    let mut d = entry(4, 10, 10);
    d.dirty_kind = BlurDirtyKind::BackgroundChanged;
    d.visible = false;
    d.blur_rebuild_pending = true;
    let e = entry(5, 10, 10);
    let r = collect_blur_dirty_report(&[a, b, c, d, e]);
    assert_eq!(r.dirty_count, 4);
    let s = r.stats;
    assert_eq!((s.clean, s.background, s.params, s.overlay, s.children), (1, 1, 1, 0, 2));
    assert_eq!((s.invalid, s.pending, s.skipped, s.visible), (1, 1, 1, 4));
    assert_eq!((s.param_radius, s.param_style, s.param_src_x, s.param_src_y, s.param_src_w, s.param_src_h), (1, 0, 1, 0, 0, 1));
    assert_eq!((s.bg_size, s.children_list, s.children_bounds), (1, 1, 1));
}

#[test]
fn classification_rules() {
    let c = classify_blur_changes(no_changes(), false);
    assert_eq!((c.dirty_kind, c.param_dirty_bits, c.blur_rebuild_pending), (BlurDirtyKind::Clean, 0, false));
    let mut ch = no_changes();
    ch.opacity_changed = true;
    ch.src_x_changed = true;
    let c = classify_blur_changes(ch, false);
    assert_eq!((c.dirty_kind, c.param_dirty_bits, c.blur_rebuild_pending), (BlurDirtyKind::OverlayOnlyChanged, 0, false));
    // a pending rebuild turns overlay-only into a parameter change
    let c = classify_blur_changes(ch, true);
    assert_eq!((c.dirty_kind, c.param_dirty_bits, c.blur_rebuild_pending), (BlurDirtyKind::BlurParamsChanged, 4, true));
    let mut k = no_changes();
    k.kernel_changed = true;
    k.style_changed = true;
    k.src_h_changed = true;
    let c = classify_blur_changes(k, false);
    assert_eq!((c.dirty_kind, c.param_dirty_bits, c.blur_rebuild_pending), (BlurDirtyKind::BlurParamsChanged, 1 | 2 | 32, true));
    let mut al = k;
    al.allocation_changed = true;
    let c = classify_blur_changes(al, false);
    assert_eq!((c.dirty_kind, c.param_dirty_bits, c.blur_rebuild_pending), (BlurDirtyKind::BackgroundChanged, 0, true));
    let mut kids = no_changes();
    kids.children_changed = true;
    let c = classify_blur_changes(kids, true);
    assert_eq!((c.dirty_kind, c.blur_rebuild_pending), (BlurDirtyKind::ChildrenChanged, true));
}
