//! Plain descriptions of blur entries, as the bookkeeping reads them.

use vstd::prelude::*;

verus! {

/// Granular dirty classification for a blur entry.
#[derive(Debug, Clone, Copy, PartialEq, Eq, Structural)]
pub enum BlurDirtyKind {
    /// No changes since last frame.
    Clean,
    /// The scene behind the blur changed: full re-copy and re-blur.
    BackgroundChanged,
    /// Blur parameters changed: re-blur the existing texture.
    BlurParamsChanged,
    /// Only opacity or overlay colour changed.
    OverlayOnlyChanged,
    /// Deferred children changed.
    ChildrenChanged,
}

/// What the blur bookkeeping reads of one blur entry.
#[derive(Debug, Clone, Copy)]
pub struct BlurEntryInfo {
    /// View the entry belongs to.
    pub view_id: u32,
    /// Active blurred content width, including padding.
    pub width: u32,
    /// Active blurred content height, including padding.
    pub height: u32,
    /// The entry is skipped because its blur texture is disabled.
    pub skipped_due_to_size: bool,
    /// The entry's source rectangle meets the viewport.
    pub visible: bool,
    /// The texture holds a valid blurred backdrop.
    pub blur_valid: bool,
    /// A valid but stale blur still needs a rebuild.
    pub blur_rebuild_pending: bool,
    /// Per-frame dirty classification.
    pub dirty_kind: BlurDirtyKind,
    /// Why the entry counts as `BlurParamsChanged`.
    pub param_dirty_bits: u32,
    /// Last frame in which the blur texture was rebuilt.
    pub last_blur_rebuild_frame: u64,
    /// The entry has deferred children.
    pub has_deferred_children: bool,
}

/// Counters of a frame's blur entries by state.
#[derive(Debug, Clone, Copy, PartialEq, Eq, Structural)]
pub struct BlurDirtyStats {
    pub clean: usize,
    pub background: usize,
    pub params: usize,
    pub overlay: usize,
    pub children: usize,
    pub invalid: usize,
    pub pending: usize,
    pub skipped: usize,
    pub visible: usize,
    pub param_radius: usize,
    pub param_style: usize,
    pub param_src_x: usize,
    pub param_src_y: usize,
    pub param_src_w: usize,
    pub param_src_h: usize,
    pub bg_size: usize,
    pub children_list: usize,
    pub children_bounds: usize,
}

/// Placement of blur entries in fixed slots of one atlas texture.
#[derive(Debug, Clone)]
pub struct BlurAtlasLayout {
    pub width: u32,
    pub height: u32,
    pub slot: u32,
    pub gap: u32,
    /// Entry index and its top-left corner in the atlas.
    pub placements: Vec<(usize, u32, u32)>,
}

} // verus!
