//! Decisions of the blur composite pass: which entries are drawn one by one
//! rather than through the atlas, which children overlays are drawn, and
//! where in the staging buffer the uniforms of the cached subtrees go.

use vstd::prelude::*;

verus! {

/// Size of the staging buffer for composite uniforms, in bytes.
pub const STAGING_BUFFER_BYTES: usize = 1048576;

/// What the composite pass reads of one blur entry.
#[derive(Debug, Clone, Copy)]
pub struct CompositeEntryInfo {
    /// The entry's source rectangle meets the viewport.
    pub visible: bool,
    /// The texture holds a valid blurred backdrop.
    pub blur_valid: bool,
    /// The entry's atlas slot holds its blur.
    pub atlas_valid: bool,
    /// The entry is skipped because its blur texture is disabled.
    pub skipped_due_to_size: bool,
    /// The entry has a rendered children texture.
    pub has_children_view: bool,
}

/// The draws of one entry in the composite pass.
#[derive(Debug, Clone, Copy, PartialEq, Eq, Structural)]
pub struct EntryDraws {
    /// The blur is drawn on its own, not through the atlas.
    pub legacy_blur: bool,
    /// The children overlay is drawn.
    pub children: bool,
}

/// Whether an entry's blur is drawn on its own: it is valid, visible and
/// not skipped, and the atlas does not already draw it.
pub open spec fn legacy_blur_drawn(info: CompositeEntryInfo, atlas_enabled: bool) -> bool {
    &&& !(atlas_enabled && info.blur_valid && info.atlas_valid)
    &&& !info.skipped_due_to_size
    &&& info.blur_valid
    &&& info.visible
}

/// Whether an entry's children overlay is drawn: it is visible and has one.
pub open spec fn children_drawn(info: CompositeEntryInfo) -> bool {
    info.visible && info.has_children_view
}

/// The draws of one entry.
pub fn entry_draws(info: &CompositeEntryInfo, atlas_enabled: bool) -> (r: EntryDraws)
    ensures
        r.legacy_blur == legacy_blur_drawn(*info, atlas_enabled),
        r.children == children_drawn(*info),
{
    let drawn_by_atlas = atlas_enabled && info.blur_valid && info.atlas_valid;
    EntryDraws {
        legacy_blur: !drawn_by_atlas && !info.skipped_due_to_size && info.blur_valid && info.visible,
        children: info.visible && info.has_children_view,
    }
}

/// Whether the atlas draw composites anything: the atlas is enabled, its
/// pipeline and bind group exist, and it has at least one instance.
pub open spec fn atlas_composites(atlas_enabled: bool, atlas_draw_ready: bool, atlas_instance_count: u32) -> bool {
    atlas_enabled && atlas_draw_ready && atlas_instance_count > 0
}

/// The draws of every entry, in order, and whether the pass composites any
/// blur texture: through the atlas draw, when `atlas_enabled`, its pipeline
/// and bind group exist (`atlas_draw_ready`) and it has instances, or
/// through an entry drawn on its own.
pub fn plan_composite(
    entries: &[CompositeEntryInfo],
    atlas_enabled: bool,
    atlas_draw_ready: bool,
    atlas_instance_count: u32,
) -> (r: (Vec<EntryDraws>, bool))
    ensures
        r.0@.len() == entries@.len(),
        forall|i: int|
            0 <= i < entries@.len() ==> (#[trigger] r.0@[i]).legacy_blur == legacy_blur_drawn(
                entries@[i],
                atlas_enabled,
            ) && r.0@[i].children == children_drawn(entries@[i]),
        r.1 == (atlas_composites(atlas_enabled, atlas_draw_ready, atlas_instance_count) || exists|
            i: int,
        | 0 <= i < entries@.len() && #[trigger] legacy_blur_drawn(entries@[i], atlas_enabled)),
{
    let mut draws: Vec<EntryDraws> = Vec::new();
    let mut any_legacy = false;
    let mut i: usize = 0;
    while i < entries.len()
        invariant
            0 <= i <= entries@.len(),
            draws@.len() == i,
            forall|j: int|
                0 <= j < i ==> (#[trigger] draws@[j]).legacy_blur == legacy_blur_drawn(
                    entries@[j],
                    atlas_enabled,
                ) && draws@[j].children == children_drawn(entries@[j]),
            any_legacy == exists|j: int| 0 <= j < i && #[trigger] legacy_blur_drawn(entries@[j], atlas_enabled),
        decreases entries@.len() - i,
    {
        let d = entry_draws(&entries[i], atlas_enabled);
        if d.legacy_blur {
            any_legacy = true;
        }
        draws.push(d);
        proof {
            if !d.legacy_blur {
                assert forall|j: int| 0 <= j < i + 1 && #[trigger] legacy_blur_drawn(entries@[j], atlas_enabled) implies j < i by {}
            }
        }
        i = i + 1;
    }
    let atlas = atlas_enabled && atlas_draw_ready && atlas_instance_count > 0;
    (draws, atlas || any_legacy)
}

/// Where the uniforms of `count` cached-subtree draws go in a staging buffer
/// of `capacity` bytes, starting at offset `start`, `stride` bytes each.
/// Draws are staged in order while the next one ends within the buffer;
/// the first that does not is skipped with all after it, its space still
/// taken from the offset. The result is the offsets of the staged draws and
/// the offset afterwards.
pub fn staging_offsets(start: usize, stride: usize, count: usize, capacity: usize) -> (r: (
    Vec<usize>,
    usize,
))
    requires
        start + stride <= usize::MAX,
        capacity + stride <= usize::MAX,
    ensures
        r.0@.len() <= count,
        forall|k: int| 0 <= k < r.0@.len() ==> #[trigger] r.0@[k] == start + k * stride,
        r.0@.len() > 0 ==> start + r.0@.len() * stride <= capacity,
        r.0@.len() < count ==> start + (r.0@.len() + 1) * stride > capacity,
        r.1 == start + r.0@.len() * stride + (if r.0@.len() < count {
            stride as int
        } else {
            0
        }),
{
    let mut offsets: Vec<usize> = Vec::new();
    let mut offset: usize = start;
    let mut k: usize = 0;
    while k < count
        invariant
            0 <= k <= count,
            offsets@.len() == k,
            offset == start + k * stride,
            k > 0 ==> offset <= capacity,
            start + stride <= usize::MAX,
            capacity + stride <= usize::MAX,
            forall|j: int| 0 <= j < k ==> #[trigger] offsets@[j] == start + j * stride,
        decreases count - k,
    {
        let base = offset;
        assert(base + stride <= usize::MAX);
        offset = base + stride;
        assert(start + (k + 1) * stride == start + k * stride + stride) by (nonlinear_arith);
        if base + stride > capacity {
            return (offsets, offset);
        }
        offsets.push(base);
        k = k + 1;
    }
    (offsets, offset)
}

} // verus!
