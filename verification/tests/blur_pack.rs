use dyxel_render_vello::blur::pack::{
    atlas_copy_extent, atlas_wide_blur_eligible, finish_atlas_wide_blur, mark_source_copy_empty,
    plan_atlas_pack, radius_classes_uniform, BlurSlotState,
};
use dyxel_render_vello::blur::types::BlurDirtyKind;

fn slot(blur_valid: bool, atlas_valid: bool, atlas_dirty: bool, x: u32, y: u32) -> BlurSlotState {
    BlurSlotState {
        blur_valid,
        blur_rebuild_pending: false,
        atlas_valid,
        atlas_dirty,
        atlas_x: x,
        atlas_y: y,
        last_blur_rebuild_frame: 0,
        dirty_kind: BlurDirtyKind::Clean,
    }
}

#[test]
fn uniform_classes() {
    assert!(!radius_classes_uniform(&[]));
    assert!(radius_classes_uniform(&[2]));
    assert!(radius_classes_uniform(&[3, 3, 3]));
    assert!(!radius_classes_uniform(&[3, 3, 4]));
}

#[test]
fn atlas_wide_needs_eight_uniform_placements_in_budget() {
    let classes = [1u32; 8];
    assert!(atlas_wide_blur_eligible(8, &classes, true));
    assert!(!atlas_wide_blur_eligible(7, &classes[..7], true));
    assert!(!atlas_wide_blur_eligible(8, &classes, false));
    let mixed = [1u32, 1, 1, 1, 1, 1, 1, 2];
    assert!(!atlas_wide_blur_eligible(8, &mixed, true));
}

#[test]
fn copy_extent_is_clipped_to_scene_and_entry() {
    // Source 100x80 at (950, 10) in a 1000x1000 scene, entry 120x120 with padding 10.
    assert_eq!(atlas_copy_extent(100, 80, 950, 10, 1000, 1000, 120, 120, 10), (50, 80));
    // Entry smaller than the source after padding.
    assert_eq!(atlas_copy_extent(100, 100, 0, 0, 1000, 1000, 60, 40, 10), (50, 30));
    // Origin past the scene: nothing to copy.
    assert_eq!(atlas_copy_extent(100, 100, 1200, 0, 1000, 1000, 120, 120, 0), (0, 100));
}

#[test]
fn empty_copy_invalidates_entry() {
    let mut s = slot(true, true, false, 4, 4);
    mark_source_copy_empty(&mut s);
    assert!(!s.blur_valid);
    assert!(s.blur_rebuild_pending);
    assert!(!s.atlas_valid);
    assert!(s.atlas_dirty);
    assert_eq!((s.atlas_x, s.atlas_y), (4, 4));
}

#[test]
fn atlas_wide_success_marks_copied_entries_and_settles_overlay_changes() {
    let mut states = vec![
        slot(false, false, true, 0, 0),
        BlurSlotState { dirty_kind: BlurDirtyKind::ChildrenChanged, ..slot(false, false, true, 0, 0) },
        BlurSlotState { dirty_kind: BlurDirtyKind::OverlayOnlyChanged, ..slot(true, true, false, 0, 0) },
        BlurSlotState {
            dirty_kind: BlurDirtyKind::OverlayOnlyChanged,
            blur_rebuild_pending: true,
            ..slot(true, true, false, 0, 0)
        },
    ];
    finish_atlas_wide_blur(&mut states, &[(0, 10, 20), (1, 30, 40)], 77);
    assert_eq!(
        states[0],
        BlurSlotState {
            blur_valid: true,
            blur_rebuild_pending: false,
            atlas_valid: true,
            atlas_dirty: false,
            atlas_x: 10,
            atlas_y: 20,
            last_blur_rebuild_frame: 77,
            dirty_kind: BlurDirtyKind::Clean,
        }
    );
    assert_eq!(states[1].dirty_kind, BlurDirtyKind::ChildrenChanged);
    assert_eq!((states[1].atlas_x, states[1].atlas_y), (30, 40));
    assert_eq!(states[2].dirty_kind, BlurDirtyKind::Clean);
    assert_eq!(states[3].dirty_kind, BlurDirtyKind::OverlayOnlyChanged);
}

#[test]
fn legacy_pack_copies_stale_slots_and_draws_valid_blurs() {
    let mut states = vec![
        slot(true, true, false, 0, 0),  // in place, valid: drawn, no copy
        slot(true, true, false, 5, 5),  // moved: copied and drawn
        slot(false, true, false, 9, 9), // no blur: neither
        slot(true, true, true, 2, 2),   // dirty slot: copied and drawn
    ];
    let plan = plan_atlas_pack(&mut states, &[(0, 0, 0), (1, 7, 7), (2, 9, 9), (3, 2, 2)], false);
    assert_eq!(plan.copies, vec![1, 3]);
    assert_eq!(plan.instances, vec![0, 1, 3]);
    assert_eq!(states[1], slot(true, true, false, 7, 7));
    assert_eq!(states[3], slot(true, true, false, 2, 2));
    assert_eq!(states[2], slot(false, true, false, 9, 9));
}

#[test]
fn atlas_wide_pack_copies_nothing() {
    let mut states = vec![slot(true, false, true, 0, 0), slot(false, false, true, 0, 0)];
    let plan = plan_atlas_pack(&mut states, &[(0, 3, 4), (1, 5, 6)], true);
    assert!(plan.copies.is_empty());
    assert_eq!(plan.instances, vec![0]);
    assert_eq!(states[0], slot(true, true, false, 3, 4));
    // An entry without a blur still takes its new slot.
    assert_eq!(states[1], slot(false, true, false, 5, 6));
}

use dyxel_render_vello::blur::composite::{
    entry_draws, plan_composite, staging_offsets, CompositeEntryInfo, EntryDraws,
    STAGING_BUFFER_BYTES,
};

fn info(visible: bool, blur_valid: bool, atlas_valid: bool, skipped: bool, children: bool) -> CompositeEntryInfo {
    CompositeEntryInfo {
        visible,
        blur_valid,
        atlas_valid,
        skipped_due_to_size: skipped,
        has_children_view: children,
    }
}

#[test]
fn atlas_drawn_entries_are_not_drawn_again() {
    let e = info(true, true, true, false, false);
    assert_eq!(entry_draws(&e, true), EntryDraws { legacy_blur: false, children: false });
    assert_eq!(entry_draws(&e, false), EntryDraws { legacy_blur: true, children: false });
}

#[test]
fn invisible_skipped_or_invalid_entries_draw_no_blur() {
    assert!(!entry_draws(&info(false, true, false, false, true), false).legacy_blur);
    assert!(!entry_draws(&info(true, true, false, true, false), false).legacy_blur);
    assert!(!entry_draws(&info(true, false, false, false, false), false).legacy_blur);
    // Children of a visible entry are drawn even when its blur is not.
    assert!(entry_draws(&info(true, false, false, false, true), false).children);
    assert!(!entry_draws(&info(false, false, false, false, true), false).children);
}

#[test]
fn composite_plan_covers_every_entry() {
    let (draws, any) = plan_composite(
        &[info(true, true, false, false, true), info(true, true, true, false, false)],
        true,
        true,
        1,
    );
    assert!(any);
    assert_eq!(draws, vec![EntryDraws { legacy_blur: true, children: true }, EntryDraws { legacy_blur: false, children: false }]);
    let (none, any) = plan_composite(&[], true, true, 0);
    assert!(none.is_empty());
    assert!(!any);
}

#[test]
fn composite_reports_only_what_was_drawn() {
    // One invisible entry with the atlas off: nothing is composited.
    let (_, any) = plan_composite(&[info(false, true, false, false, false)], false, false, 0);
    assert!(!any);
    // The atlas draw alone composites when it has instances and is ready.
    let (_, any) = plan_composite(&[info(true, true, true, false, false)], true, true, 1);
    assert!(any);
    let (_, any) = plan_composite(&[info(true, true, true, false, false)], true, false, 1);
    assert!(!any);
    let (_, any) = plan_composite(&[], true, true, 3);
    assert!(any);
}

#[test]
fn staging_stops_at_the_buffer_end() {
    let (offsets, next) = staging_offsets(0, 512, 3, STAGING_BUFFER_BYTES);
    assert_eq!(offsets, vec![0, 512, 1024]);
    assert_eq!(next, 1536);
    let (offsets, next) = staging_offsets(1000, 100, 5, 1250);
    assert_eq!(offsets, vec![1000, 1100]);
    assert_eq!(next, 1300);
    let (offsets, next) = staging_offsets(1250, 100, 5, 1250);
    assert!(offsets.is_empty());
    assert_eq!(next, 1350);
}
