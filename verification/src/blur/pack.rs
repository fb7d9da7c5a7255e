//! Atlas bookkeeping of blur entries: whether the whole atlas can be blurred
//! in one pass, what a successful atlas-wide blur leaves in each entry, and
//! which entries the atlas pack pass copies into the atlas and draws.

use vstd::prelude::*;
use crate::blur::types::BlurDirtyKind;

verus! {

/// Fewest placements for which one atlas-wide blur pays off.
pub const BLUR_ATLAS_WIDE_MIN_PLACEMENTS: usize = 8;

/// The atlas state of one blur entry.
#[derive(Debug, Clone, Copy, PartialEq, Eq, Structural)]
pub struct BlurSlotState {
    /// The texture holds a valid blurred backdrop.
    pub blur_valid: bool,
    /// A valid but stale blur still needs a rebuild.
    pub blur_rebuild_pending: bool,
    /// The entry's atlas slot holds its blur.
    pub atlas_valid: bool,
    /// The entry's atlas slot must be copied again.
    pub atlas_dirty: bool,
    /// Top-left corner of the entry's atlas slot.
    pub atlas_x: u32,
    pub atlas_y: u32,
    /// Last frame in which the blur was rebuilt.
    pub last_blur_rebuild_frame: u64,
    /// Per-frame dirty classification.
    pub dirty_kind: BlurDirtyKind,
}

/// Whether every placement has the Kawase pass class of the first one
/// (false when there is no placement).
pub open spec fn classes_uniform(classes: Seq<u32>) -> bool {
    classes.len() > 0 && forall|i: int| 0 <= i < classes.len() ==> #[trigger] classes[i] == classes[0]
}

/// Whether the Kawase pass classes of the placements, in placement order,
/// are all the same.
pub fn radius_classes_uniform(classes: &[u32]) -> (r: bool)
    ensures
        r == classes_uniform(classes@),
{
    if classes.len() == 0 {
        return false;
    }
    let reference = classes[0];
    let mut i: usize = 1;
    while i < classes.len()
        invariant
            1 <= i <= classes@.len(),
            reference == classes@[0],
            forall|j: int| 0 <= j < i ==> #[trigger] classes@[j] == reference,
        decreases classes@.len() - i,
    {
        if classes[i] != reference {
            return false;
        }
        i = i + 1;
    }
    true
}

/// The classes are uniform exactly when there is one and any two of them
/// are equal; a class that differs from another anywhere, in any position,
/// rules the atlas-wide blur out.
pub proof fn lemma_uniform_means_pairwise_equal(classes: Seq<u32>, i: int, j: int)
    requires
        0 <= i < classes.len(),
        0 <= j < classes.len(),
    ensures
        classes_uniform(classes) ==> classes[i] == classes[j],
        classes[i] != classes[j] ==> !classes_uniform(classes),
        (forall|a: int, b: int| 0 <= a < classes.len() && 0 <= b < classes.len() ==> classes[a] == classes[b])
            ==> classes_uniform(classes),
        !classes_uniform(Seq::<u32>::empty()),
{
    if classes_uniform(classes) {
        assert(classes[i] == classes[0]);
        assert(classes[j] == classes[0]);
    }
    if forall|a: int, b: int| 0 <= a < classes.len() && 0 <= b < classes.len() ==> classes[a] == classes[b] {
        assert forall|a: int| 0 <= a < classes.len() implies #[trigger] classes[a] == classes[0] by {
            assert(classes[a] == classes[0]);
        }
    }
}

/// Whether the atlas-wide blur is used: at least eight placements, one
/// Kawase pass class for all of them, and a layout within the budget.
pub fn atlas_wide_blur_eligible(placement_count: usize, classes: &[u32], within_budget: bool) -> (r:
    bool)
    ensures
        r == (placement_count >= 8 && classes_uniform(classes@) && within_budget),
{
    placement_count >= BLUR_ATLAS_WIDE_MIN_PLACEMENTS && radius_classes_uniform(classes)
        && within_budget
}

/// `a - b`, or 0 when `b` is larger.
pub open spec fn sat_sub(a: u32, b: u32) -> u32 {
    if a >= b {
        (a - b) as u32
    } else {
        0
    }
}

/// The smaller of two numbers.
pub open spec fn min_u32(a: u32, b: u32) -> u32 {
    if a <= b {
        a
    } else {
        b
    }
}

/// The size of the region copied from the scene into an entry's atlas
/// slot: the source size, cut to what lies inside the `view_w` x `view_h`
/// scene from the origin and to what fits in the entry after its padding.
pub fn atlas_copy_extent(
    src_w: u32,
    src_h: u32,
    origin_x: u32,
    origin_y: u32,
    view_w: u32,
    view_h: u32,
    entry_w: u32,
    entry_h: u32,
    padding: u32,
) -> (r: (u32, u32))
    ensures
        r.0 == min_u32(min_u32(src_w, sat_sub(view_w, origin_x)), sat_sub(entry_w, padding)),
        r.1 == min_u32(min_u32(src_h, sat_sub(view_h, origin_y)), sat_sub(entry_h, padding)),
{
    let w = src_w.min(view_w.saturating_sub(origin_x)).min(entry_w.saturating_sub(padding));
    let h = src_h.min(view_h.saturating_sub(origin_y)).min(entry_h.saturating_sub(padding));
    (w, h)
}

/// An entry whose source copy came out empty: its blur and its atlas slot
/// are invalid and a rebuild is pending.
pub open spec fn copy_failed_state(s: BlurSlotState) -> BlurSlotState {
    BlurSlotState {
        blur_valid: false,
        blur_rebuild_pending: true,
        atlas_valid: false,
        atlas_dirty: true,
        ..s
    }
}

/// Marks an entry whose source copy came out empty.
pub fn mark_source_copy_empty(state: &mut BlurSlotState)
    ensures
        *final(state) == copy_failed_state(*old(state)),
{
    state.blur_valid = false;
    state.blur_rebuild_pending = true;
    state.atlas_valid = false;
    state.atlas_dirty = true;
}

/// An entry blurred by the atlas-wide pass in slot (`ax`, `ay`) in frame
/// `frame`: blur and slot valid, nothing pending, clean unless its children changed.
pub open spec fn atlas_blurred_state(s: BlurSlotState, ax: u32, ay: u32, frame: u64) -> BlurSlotState {
    BlurSlotState {
        blur_valid: true,
        blur_rebuild_pending: false,
        atlas_valid: true,
        atlas_dirty: false,
        atlas_x: ax,
        atlas_y: ay,
        last_blur_rebuild_frame: frame,
        dirty_kind: if s.dirty_kind == BlurDirtyKind::ChildrenChanged {
            BlurDirtyKind::ChildrenChanged
        } else {
            BlurDirtyKind::Clean
        },
    }
}

/// The states after the first `n` copied placements are marked blurred, in order.
pub open spec fn after_copied(
    states: Seq<BlurSlotState>,
    copied: Seq<(usize, u32, u32)>,
    frame: u64,
    n: int,
) -> Seq<BlurSlotState>
    decreases n,
{
    if n <= 0 {
        states
    } else {
        let prev = after_copied(states, copied, frame, n - 1);
        let c = copied[n - 1];
        prev.update(c.0 as int, atlas_blurred_state(prev[c.0 as int], c.1, c.2, frame))
    }
}

/// An entry with no rebuild pending whose only change was its overlay is clean.
pub open spec fn settled(s: BlurSlotState) -> BlurSlotState {
    if !s.blur_rebuild_pending && s.dirty_kind == BlurDirtyKind::OverlayOnlyChanged {
        BlurSlotState { dirty_kind: BlurDirtyKind::Clean, ..s }
    } else {
        s
    }
}

proof fn lemma_after_copied_len(states: Seq<BlurSlotState>, copied: Seq<(usize, u32, u32)>, frame: u64, n: int)
    requires
        n <= copied.len(),
        forall|i: int| 0 <= i < copied.len() ==> (#[trigger] copied[i]).0 < states.len(),
    ensures
        after_copied(states, copied, frame, n).len() == states.len(),
    decreases n,
{
    if n > 0 {
        lemma_after_copied_len(states, copied, frame, n - 1);
    }
}

/// What the atlas-wide blur leaves in an entry it blurred: a valid blur in
/// a valid, clean slot at the given corner, nothing pending, the frame as
/// the last rebuild, and a clean entry unless its children changed. An
/// entry whose copy came out empty loses its blur and its slot and waits
/// for a rebuild; nothing else of it changes. Settling makes an entry clean
/// only when its sole change was its overlay and no rebuild is pending.
pub proof fn lemma_atlas_entry_states(s: BlurSlotState, ax: u32, ay: u32, frame: u64)
    ensures
        ({
            let b = atlas_blurred_state(s, ax, ay, frame);
            &&& b.blur_valid && !b.blur_rebuild_pending && b.atlas_valid && !b.atlas_dirty
            &&& b.atlas_x == ax && b.atlas_y == ay && b.last_blur_rebuild_frame == frame
            &&& (b.dirty_kind == BlurDirtyKind::ChildrenChanged <==> s.dirty_kind
                == BlurDirtyKind::ChildrenChanged)
            &&& (b.dirty_kind == BlurDirtyKind::ChildrenChanged || b.dirty_kind == BlurDirtyKind::Clean)
        }),
        ({
            let f = copy_failed_state(s);
            &&& !f.blur_valid && f.blur_rebuild_pending && !f.atlas_valid && f.atlas_dirty
            &&& f.atlas_x == s.atlas_x && f.atlas_y == s.atlas_y
            &&& f.last_blur_rebuild_frame == s.last_blur_rebuild_frame && f.dirty_kind == s.dirty_kind
        }),
        ({
            let t = settled(s);
            &&& (!s.blur_rebuild_pending && s.dirty_kind == BlurDirtyKind::OverlayOnlyChanged) ==> t
                == (BlurSlotState { dirty_kind: BlurDirtyKind::Clean, ..s })
            &&& !(!s.blur_rebuild_pending && s.dirty_kind == BlurDirtyKind::OverlayOnlyChanged) ==> t == s
        }),
{
}

/// The size copied into an atlas slot never exceeds the source, what lies
/// in the scene from the origin, or the entry less its padding; and it is
/// the largest such size: one of those three limits, or 0 when one of them
/// leaves nothing.
pub proof fn lemma_copy_extent_bounds(
    src: u32,
    origin: u32,
    view: u32,
    entry: u32,
    padding: u32,
)
    ensures
        ({
            let r = min_u32(min_u32(src, sat_sub(view, origin)), sat_sub(entry, padding));
            &&& r <= src
            &&& r == 0 || origin + r <= view
            &&& r == 0 || padding + r <= entry
            &&& (r == src || r + origin == view || r + padding == entry || r == 0)
            &&& (origin < view && padding < entry ==> r == src || r + origin == view || r + padding == entry)
        }),
{
}

/// Records a successful atlas-wide blur in frame `frame`: each copied
/// placement (entry index, slot corner) is marked blurred in its slot, in
/// order; then every entry with no rebuild pending whose only change was
/// its overlay becomes clean.
pub fn finish_atlas_wide_blur(
    states: &mut Vec<BlurSlotState>,
    copied: &[(usize, u32, u32)],
    frame: u64,
)
    requires
        forall|i: int| 0 <= i < copied@.len() ==> (#[trigger] copied@[i]).0 < old(states)@.len(),
    ensures
        final(states)@ == after_copied(old(states)@, copied@, frame, copied@.len() as int).map_values(
            |s: BlurSlotState| settled(s),
        ),
{
    let ghost start = states@;
    let mut k: usize = 0;
    while k < copied.len()
        invariant
            0 <= k <= copied@.len(),
            forall|i: int| 0 <= i < copied@.len() ==> (#[trigger] copied@[i]).0 < start.len(),
            states@ == after_copied(start, copied@, frame, k as int),
        decreases copied@.len() - k,
    {
        proof {
            lemma_after_copied_len(start, copied@, frame, k as int);
        }
        let (idx, ax, ay) = copied[k];
        let old_state = states[idx];
        let kind = if old_state.dirty_kind == BlurDirtyKind::ChildrenChanged {
            BlurDirtyKind::ChildrenChanged
        } else {
            BlurDirtyKind::Clean
        };
        states.set(
            idx,
            BlurSlotState {
                blur_valid: true,
                blur_rebuild_pending: false,
                atlas_valid: true,
                atlas_dirty: false,
                atlas_x: ax,
                atlas_y: ay,
                last_blur_rebuild_frame: frame,
                dirty_kind: kind,
            },
        );
        k = k + 1;
    }
    let ghost marked = states@;
    let mut i: usize = 0;
    while i < states.len()
        invariant
            0 <= i <= states@.len(),
            states@.len() == marked.len(),
            forall|j: int| 0 <= j < i ==> #[trigger] states@[j] == settled(marked[j]),
            forall|j: int| i <= j < states@.len() ==> #[trigger] states@[j] == marked[j],
        decreases states@.len() - i,
    {
        let s = states[i];
        if !s.blur_rebuild_pending && s.dirty_kind == BlurDirtyKind::OverlayOnlyChanged {
            states.set(i, BlurSlotState { dirty_kind: BlurDirtyKind::Clean, ..s });
        }
        i = i + 1;
    }
    assert(states@ =~= marked.map_values(|s: BlurSlotState| settled(s)));
}

/// One placement of the atlas pack pass: the entry's state afterwards,
/// whether its blur is copied into the atlas slot (`ax`, `ay`), and whether
/// it is drawn. A moved or invalid slot is reassigned; only entries with a
/// valid blur are drawn; without an atlas-wide blur a stale slot is copied.
pub open spec fn pack_step(s: BlurSlotState, ax: u32, ay: u32, wide: bool) -> (BlurSlotState, bool, bool) {
    let s1 = if !s.atlas_valid || s.atlas_x != ax || s.atlas_y != ay {
        BlurSlotState { atlas_x: ax, atlas_y: ay, atlas_valid: wide, atlas_dirty: !wide, ..s }
    } else {
        s
    };
    if !s1.blur_valid {
        (s1, false, false)
    } else if wide {
        (BlurSlotState { atlas_x: ax, atlas_y: ay, atlas_valid: true, atlas_dirty: false, ..s1 }, false, true)
    } else if s1.atlas_dirty || !s1.atlas_valid {
        (BlurSlotState { atlas_dirty: false, atlas_valid: true, ..s1 }, true, true)
    } else {
        (s1, false, true)
    }
}

/// A placement that the pack pass draws ends with a valid, clean atlas
/// slot at its placement; with an atlas-wide blur nothing is copied.
pub proof fn lemma_drawn_slots_ready(s: BlurSlotState, ax: u32, ay: u32, wide: bool)
    ensures
        ({
            let step = pack_step(s, ax, ay, wide);
            &&& step.2 ==> step.0.atlas_valid && !step.0.atlas_dirty && step.0.atlas_x == ax
                && step.0.atlas_y == ay
            &&& step.2 == s.blur_valid
            &&& wide ==> !step.1
            &&& step.1 ==> step.2
        }),
{
}

/// What one placement of the pack pass does to an entry, field by field:
/// the entry's slot ends at the placement; its blur, pending rebuild, last
/// rebuild frame and dirty kind are untouched; it is drawn exactly when its
/// blur is valid; and it is copied into the atlas exactly when there is no
/// atlas-wide blur, its blur is valid, and its slot moved, was invalid, or
/// was stale.
pub proof fn lemma_pack_step_fields(s: BlurSlotState, ax: u32, ay: u32, wide: bool)
    ensures
        ({
            let step = pack_step(s, ax, ay, wide);
            &&& step.0.atlas_x == ax && step.0.atlas_y == ay
            &&& step.0.blur_valid == s.blur_valid
            &&& step.0.blur_rebuild_pending == s.blur_rebuild_pending
            &&& step.0.last_blur_rebuild_frame == s.last_blur_rebuild_frame
            &&& step.0.dirty_kind == s.dirty_kind
            &&& step.2 == s.blur_valid
            &&& step.1 == (!wide && s.blur_valid && (!s.atlas_valid || s.atlas_x != ax || s.atlas_y != ay
                || s.atlas_dirty))
            &&& s.blur_valid ==> step.0.atlas_valid && !step.0.atlas_dirty
            &&& !s.blur_valid && s.atlas_valid && s.atlas_x == ax && s.atlas_y == ay ==> step.0 == s
        }),
{
}

/// The states, the copied placement positions and the drawn placement
/// positions after the first `n` placements of the pack pass.
pub open spec fn pack_states(
    states: Seq<BlurSlotState>,
    placements: Seq<(usize, u32, u32)>,
    wide: bool,
    n: int,
) -> (Seq<BlurSlotState>, Seq<usize>, Seq<usize>)
    decreases n,
{
    if n <= 0 {
        (states, Seq::empty(), Seq::empty())
    } else {
        let prev = pack_states(states, placements, wide, n - 1);
        let p = placements[n - 1];
        let step = pack_step(prev.0[p.0 as int], p.1, p.2, wide);
        (
            prev.0.update(p.0 as int, step.0),
            if step.1 {
                prev.1.push((n - 1) as usize)
            } else {
                prev.1
            },
            if step.2 {
                prev.2.push((n - 1) as usize)
            } else {
                prev.2
            },
        )
    }
}

proof fn lemma_pack_states_len(
    states: Seq<BlurSlotState>,
    placements: Seq<(usize, u32, u32)>,
    wide: bool,
    n: int,
)
    requires
        n <= placements.len(),
        forall|i: int| 0 <= i < placements.len() ==> (#[trigger] placements[i]).0 < states.len(),
    ensures
        pack_states(states, placements, wide, n).0.len() == states.len(),
        pack_states(states, placements, wide, n).1.len() <= if n > 0 { n } else { 0 },
        pack_states(states, placements, wide, n).2.len() <= if n > 0 { n } else { 0 },
    decreases n,
{
    if n > 0 {
        lemma_pack_states_len(states, placements, wide, n - 1);
    }
}

/// What the atlas pack pass does: the placement positions whose blur is
/// copied into the atlas, and those drawn, each in placement order.
pub struct AtlasPackPlan {
    pub copies: Vec<usize>,
    pub instances: Vec<usize>,
}

/// Walks the atlas placements (entry index, slot corner) in order, updates
/// each entry's atlas state and says which placements copy their blur into
/// the atlas and which are drawn. `atlas_wide_blur_valid` tells whether
/// the atlas already holds every blur from an atlas-wide pass.
pub fn plan_atlas_pack(
    states: &mut Vec<BlurSlotState>,
    placements: &[(usize, u32, u32)],
    atlas_wide_blur_valid: bool,
) -> (r: AtlasPackPlan)
    requires
        forall|i: int| 0 <= i < placements@.len() ==> (#[trigger] placements@[i]).0 < old(states)@.len(),
    ensures
        ({
            let out = pack_states(old(states)@, placements@, atlas_wide_blur_valid, placements@.len() as int);
            &&& final(states)@ == out.0
            &&& r.copies@ == out.1
            &&& r.instances@ == out.2
        }),
{
    let ghost start = states@;
    let mut copies: Vec<usize> = Vec::new();
    let mut instances: Vec<usize> = Vec::new();
    let mut k: usize = 0;
    while k < placements.len()
        invariant
            0 <= k <= placements@.len(),
            forall|i: int| 0 <= i < placements@.len() ==> (#[trigger] placements@[i]).0 < start.len(),
            ({
                let out = pack_states(start, placements@, atlas_wide_blur_valid, k as int);
                &&& states@ == out.0
                &&& copies@ == out.1
                &&& instances@ == out.2
            }),
        decreases placements@.len() - k,
    {
        proof {
            lemma_pack_states_len(start, placements@, atlas_wide_blur_valid, k as int);
        }
        let (idx, ax, ay) = placements[k];
        let mut s = states[idx];
        if !s.atlas_valid || s.atlas_x != ax || s.atlas_y != ay {
            s.atlas_x = ax;
            s.atlas_y = ay;
            s.atlas_valid = atlas_wide_blur_valid;
            s.atlas_dirty = !atlas_wide_blur_valid;
        }
        if s.blur_valid {
            if atlas_wide_blur_valid {
                s.atlas_x = ax;
                s.atlas_y = ay;
                s.atlas_valid = true;
                s.atlas_dirty = false;
            } else if s.atlas_dirty || !s.atlas_valid {
                s.atlas_dirty = false;
                s.atlas_valid = true;
                copies.push(k);
            }
            instances.push(k);
        }
        states.set(idx, s);
        k = k + 1;
    }
    AtlasPackPlan { copies, instances }
}

} // verus!
