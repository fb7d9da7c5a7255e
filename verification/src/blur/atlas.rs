//! Atlas layout for batching blur textures: every visible entry gets a
//! fixed square slot in one atlas texture, ordered by view id.

use vstd::prelude::*;
use crate::blur::types::{BlurAtlasLayout, BlurEntryInfo};
use crate::order::{count_true, holds_selected, sort_selected, sorted_by_key, OrderKey};

verus! {

/// Gap between slots for the legacy per-entry path.
pub const BLUR_ATLAS_LEGACY_GAP_PX: u32 = 2;
/// Gap between slots for the atlas-wide blur, so that samples at slot edges
/// do not bleed into neighbouring slots.
pub const BLUR_ATLAS_WIDE_GAP_PX: u32 = 32;
/// Largest atlas side, in pixels.
pub const BLUR_ATLAS_MAX_DIM_PX: u32 = 4096;
/// Slot budget of the atlas-wide blur on Android.
pub const BLUR_ATLAS_WIDE_MAX_SLOTS_ANDROID: usize = 24;
/// Slot budget of the atlas-wide blur elsewhere.
pub const BLUR_ATLAS_WIDE_MAX_SLOTS_DEFAULT: usize = 48;
/// Area budget of the atlas-wide blur on Android, in pixels.
pub const BLUR_ATLAS_WIDE_MAX_AREA_PX_ANDROID: u64 = 2_500_000;
/// Area budget of the atlas-wide blur elsewhere, in pixels.
pub const BLUR_ATLAS_WIDE_MAX_AREA_PX_DEFAULT: u64 = 5_000_000;

/// `r` is the ceiling of the square root of `n`, taken as at least 1.
pub open spec fn is_ceil_sqrt(n: u32, r: u32) -> bool {
    r >= 1 && r * r >= n && (r == 1 || (r - 1) * (r - 1) < n)
}

/// The smallest `x >= 1` with `x * x >= n`.
pub fn ceil_sqrt_u32(n: u32) -> (r: u32)
    ensures
        is_ceil_sqrt(n, r),
{
    let mut lo: u64 = 1;
    let mut hi: u64 = 65536;
    let target = n as u64;
    assert(65536u64 * 65536u64 >= target) by (nonlinear_arith)
        requires
            target <= 4294967295u64,
    ;
    while lo < hi
        invariant
            1 <= lo <= hi <= 65536,
            target == n,
            hi * hi >= target,
            lo == 1 || (lo - 1) * (lo - 1) < target,
        decreases hi - lo,
    {
        let mid = lo + (hi - lo) / 2;
        assert(mid * mid <= 65536 * 65536) by (nonlinear_arith)
            requires
                mid <= 65536,
        ;
        if mid * mid >= target {
            hi = mid;
        } else {
            lo = mid + 1;
        }
    }
    lo as u32
}

/// `a * b`, or the largest `u32` when that overflows.
pub open spec fn sat_mul(a: u32, b: u32) -> u32 {
    if a * b > u32::MAX { u32::MAX } else { (a * b) as u32 }
}

/// `a + b`, or the largest `u32` when that overflows.
pub open spec fn sat_add(a: u32, b: u32) -> u32 {
    if a + b > u32::MAX { u32::MAX } else { (a + b) as u32 }
}

/// `a * b` saturating at the largest `u32`, as `u32::saturating_mul` does.
pub fn saturating_mul_u32(a: u32, b: u32) -> (r: u32)
    ensures
        r == sat_mul(a, b),
{
    assert((a as u64) * (b as u64) <= 0xffff_ffff_ffff_ffffu64) by (nonlinear_arith)
        requires
            a <= 0xffff_ffffu32,
            b <= 0xffff_ffffu32,
    ;
    let p = (a as u64) * (b as u64);
    if p > 4294967295u64 {
        u32::MAX
    } else {
        p as u32
    }
}

/// `a / b` rounded up, as `u32::div_ceil` does.
pub fn div_ceil_u32(a: u32, b: u32) -> (r: u32)
    requires
        b > 0,
    ensures
        r == (a + b - 1) / (b as int),
{
    let q = a / b;
    assert(a % b != 0 ==> q < 0xffff_ffffu32) by (nonlinear_arith)
        requires
            b > 0,
            q == a / b,
    ;
    let r = if a % b == 0 { q } else { q + 1 };
    assert(r == (a + b - 1) / (b as int)) by (nonlinear_arith)
        requires
            b > 0,
            q == a / b,
            r == (if a % b == 0 { q as int } else { q + 1 }),
    ;
    r
}

/// The entry takes part in the atlas: it is not skipped and it is visible.
pub open spec fn atlas_eligible(e: BlurEntryInfo) -> bool {
    !e.skipped_due_to_size && e.visible
}

/// The side an entry needs: its larger dimension plus the gap on both sides.
pub open spec fn entry_extent(e: BlurEntryInfo, gap: u32) -> u32 {
    sat_add(if e.width >= e.height { e.width } else { e.height }, sat_mul(gap, 2))
}

/// The largest extent among the eligible entries of the first `n`.
pub open spec fn max_extent(s: Seq<BlurEntryInfo>, n: int, gap: u32) -> u32
    decreases n,
{
    if n <= 0 {
        0
    } else {
        let m = max_extent(s, n - 1, gap);
        if atlas_eligible(s[n - 1]) && entry_extent(s[n - 1], gap) > m {
            entry_extent(s[n - 1], gap)
        } else {
            m
        }
    }
}

/// The slot side for the largest extent: 256, 320 or 384; 0 when no slot fits.
pub open spec fn slot_for(max_ext: u32) -> u32 {
    if max_ext <= 256 {
        256
    } else if max_ext <= 320 {
        320
    } else if max_ext <= 384 {
        384
    } else {
        0
    }
}

/// Columns that fit in the largest atlas side.
pub open spec fn max_cols(slot: u32) -> u32 {
    if BLUR_ATLAS_MAX_DIM_PX / slot >= 1 { (BLUR_ATLAS_MAX_DIM_PX / slot) as u32 } else { 1 }
}

/// The grid for `count` slots: columns as close to a square as the largest
/// side allows, and the rows they need. When the rows do not fit, the grid
/// uses the most columns; when they still do not fit there is no grid.
pub open spec fn atlas_grid(count: u32, slot: u32, root: u32) -> Option<(u32, u32)> {
    let mc = max_cols(slot);
    let c1 = if root <= mc { root } else { mc };
    let r1 = ((count + c1 - 1) / (c1 as int)) as u32;
    if sat_mul(r1, slot) <= BLUR_ATLAS_MAX_DIM_PX {
        Some((c1, r1))
    } else {
        let r2 = ((count + mc - 1) / (mc as int)) as u32;
        if sat_mul(r2, slot) <= BLUR_ATLAS_MAX_DIM_PX {
            Some((mc, r2))
        } else {
            None
        }
    }
}

/// The sort keys of the atlas: the view id, the index breaking ties.
pub open spec fn atlas_keys(s: Seq<BlurEntryInfo>) -> Seq<OrderKey> {
    s.map_values(|e: BlurEntryInfo| (e.view_id as u64, 0u64, 0u64))
}

/// Whether the entries are eligible, entry by entry.
pub open spec fn atlas_selection(s: Seq<BlurEntryInfo>) -> Seq<bool> {
    s.map_values(|e: BlurEntryInfo| atlas_eligible(e))
}

/// The entry indices of the placements, in slot order.
pub open spec fn placed_indices(p: Seq<(usize, u32, u32)>) -> Seq<usize> {
    p.map_values(|t: (usize, u32, u32)| t.0)
}

/// The ceiling of the square root of `n`, at least 1.
pub open spec fn ceil_sqrt(n: u32) -> u32 {
    choose|r: u32| is_ceil_sqrt(n, r)
}

/// The number of eligible entries.
pub open spec fn eligible_count(s: Seq<BlurEntryInfo>) -> nat {
    count_true(atlas_selection(s), s.len() as int)
}

/// The slot side of the layout for `s` with `gap`; 0 when none fits.
pub open spec fn layout_slot(s: Seq<BlurEntryInfo>, gap: u32) -> u32 {
    slot_for(max_extent(s, s.len() as int, gap))
}

/// The grid of the layout for `s` with `gap`.
pub open spec fn layout_grid(s: Seq<BlurEntryInfo>, gap: u32) -> Option<(u32, u32)> {
    let count = eligible_count(s) as u32;
    atlas_grid(count, layout_slot(s, gap), ceil_sqrt(count))
}

/// `l` is the layout of `s` with `gap`: slot, gap and size as chosen, the
/// eligible entries in view-id order, each at its slot corner plus the gap,
/// slots filling the grid row by row.
pub open spec fn is_layout_for(s: Seq<BlurEntryInfo>, gap: u32, l: BlurAtlasLayout) -> bool {
    let slot = layout_slot(s, gap);
    let cols = layout_grid(s, gap).unwrap().0;
    let rows = layout_grid(s, gap).unwrap().1;
    &&& layout_grid(s, gap) is Some
    &&& cols >= 1
    &&& eligible_count(s) <= rows * cols
    &&& l.slot == slot
    &&& l.gap == gap
    &&& l.width == cols * slot
    &&& l.height == rows * slot
    &&& l.placements@.len() == eligible_count(s)
    &&& sorted_by_key(atlas_keys(s), placed_indices(l.placements@))
    &&& holds_selected(atlas_selection(s), placed_indices(l.placements@), s.len() as int)
    &&& forall|k: int|
        0 <= k < l.placements@.len() ==> (#[trigger] l.placements@[k]).1 == (k % (cols as int))
            * slot + gap && l.placements@[k].2 == (k / (cols as int)) * slot + gap
}

/// The ceiling of a square root is unique.
pub proof fn lemma_ceil_sqrt_unique(n: u32, a: u32, b: u32)
    requires
        is_ceil_sqrt(n, a),
        is_ceil_sqrt(n, b),
    ensures
        a == b,
{
    if a < b {
        assert(a <= b - 1);
        assert(a * a <= (b - 1) * (b - 1)) by (nonlinear_arith)
            requires
                1 <= a <= b - 1,
        ;
    } else if b < a {
        assert(b * b <= (a - 1) * (a - 1)) by (nonlinear_arith)
            requires
                1 <= b <= a - 1,
        ;
    }
}

proof fn lemma_max_extent_bound(s: Seq<BlurEntryInfo>, n: int, gap: u32, k: int)
    requires
        0 <= k < n <= s.len(),
        atlas_eligible(s[k]),
    ensures
        entry_extent(s[k], gap) <= max_extent(s, n, gap),
    decreases n,
{
    if k < n - 1 {
        lemma_max_extent_bound(s, n - 1, gap, k);
    }
}

fn keys_and_selection(entries: &[BlurEntryInfo]) -> (r: (Vec<OrderKey>, Vec<bool>))
    ensures
        r.0@ == atlas_keys(entries@),
        r.1@ == atlas_selection(entries@),
{
    let mut keys: Vec<OrderKey> = Vec::new();
    let mut sel: Vec<bool> = Vec::new();
    let mut i: usize = 0;
    while i < entries.len()
        invariant
            0 <= i <= entries@.len(),
            keys@ == atlas_keys(entries@).subrange(0, i as int),
            sel@ == atlas_selection(entries@).subrange(0, i as int),
        decreases entries@.len() - i,
    {
        let e = entries[i];
        keys.push((e.view_id as u64, 0u64, 0u64));
        sel.push(!e.skipped_due_to_size && e.visible);
        i = i + 1;
        assert(keys@ =~= atlas_keys(entries@).subrange(0, i as int));
        assert(sel@ =~= atlas_selection(entries@).subrange(0, i as int));
    }
    assert(keys@ =~= atlas_keys(entries@));
    assert(sel@ =~= atlas_selection(entries@));
    (keys, sel)
}

/// Lays out the eligible entries in square slots of one atlas.
///
/// The eligible entries (not skipped, visible) are ordered by view id, ties
/// kept in entry order. The slot side is 256, 320 or 384, the smallest that
/// holds the largest entry with the gap on both sides; slots fill a grid of
/// `atlas_grid` columns and rows, row by row, each entry at its slot's
/// corner plus the gap. There is no layout when no entry is eligible, when
/// no slot side is large enough, or when the grid would exceed 4096 pixels.
pub fn compute_blur_atlas_layout(entries: &[BlurEntryInfo], gap: u32) -> (r: Option<
    BlurAtlasLayout,
>)
    requires
        entries@.len() <= u32::MAX,
    ensures
        r is None <==> (eligible_count(entries@) == 0 || layout_slot(entries@, gap) == 0
            || layout_grid(entries@, gap) is None),
        r matches Some(l) ==> is_layout_for(entries@, gap, l),
{
    let (keys, sel) = keys_and_selection(entries);
    let candidates = sort_selected(&keys, &sel);
    if candidates.len() == 0 {
        return None;
    }
    // Largest extent over the eligible entries.
    let mut max_ext: u32 = 0;
    let mut i: usize = 0;
    while i < entries.len()
        invariant
            0 <= i <= entries@.len(),
            max_ext == max_extent(entries@, i as int, gap),
        decreases entries@.len() - i,
    {
        let e = entries[i];
        if !e.skipped_due_to_size && e.visible {
            let side = if e.width >= e.height { e.width } else { e.height };
            let ext = side.saturating_add(saturating_mul_u32(gap, 2));
            if ext > max_ext {
                max_ext = ext;
            }
        }
        i = i + 1;
    }
    let slot: u32 = if max_ext <= 256 {
        256
    } else if max_ext <= 320 {
        320
    } else if max_ext <= 384 {
        384
    } else {
        return None;
    };
    proof {
        crate::order::lemma_count_true_bound(sel@, sel@.len() as int);
    }
    let count = candidates.len() as u32;
    let mc: u32 = if BLUR_ATLAS_MAX_DIM_PX / slot >= 1 { BLUR_ATLAS_MAX_DIM_PX / slot } else { 1 };
    let root = ceil_sqrt_u32(count);
    proof {
        lemma_ceil_sqrt_unique(count, root, ceil_sqrt(count));
    }
    let mut cols = if root <= mc { root } else { mc };
    let mut rows = div_ceil_u32(count, cols);
    if saturating_mul_u32(rows, slot) > BLUR_ATLAS_MAX_DIM_PX {
        cols = mc;
        rows = div_ceil_u32(count, cols);
    }
    if saturating_mul_u32(rows, slot) > BLUR_ATLAS_MAX_DIM_PX {
        return None;
    }
    proof {
        assert(rows * cols >= count) by (nonlinear_arith)
            requires
                cols >= 1,
                rows == (count + cols - 1) / (cols as int),
        ;
    }
    let width = cols * slot;
    let height = rows * slot;
    let mut placements: Vec<(usize, u32, u32)> = Vec::new();
    let mut k: usize = 0;
    while k < candidates.len()
        invariant
            0 <= k <= candidates@.len(),
            count == candidates@.len(),
            1 <= cols <= 16,
            rows * slot <= 4096,
            rows * cols >= count,
            slot == 256 || slot == 320 || slot == 384,
            slot == slot_for(max_ext),
            max_ext == max_extent(entries@, entries@.len() as int, gap),
            holds_selected(sel@, candidates@, entries@.len() as int),
            sel@ == atlas_selection(entries@),
            entries@.len() == sel@.len(),
            placements@.len() == k,
            forall|j: int| 0 <= j < k ==> (#[trigger] placements@[j]).0 == candidates@[j]
                && placements@[j].1 == (j % (cols as int)) * slot + gap
                && placements@[j].2 == (j / (cols as int)) * slot + gap,
        decreases candidates@.len() - k,
    {
        let idx = candidates[k];
        let e = entries[idx];
        proof {
            assert(atlas_eligible(entries@[idx as int]));
            lemma_max_extent_bound(entries@, entries@.len() as int, gap, idx as int);
        }
        if e.width.saturating_add(saturating_mul_u32(gap, 2)) > slot
            || e.height.saturating_add(saturating_mul_u32(gap, 2)) > slot {
            return None;
        }
        let kk = k as u32;
        let col = kk % cols;
        let row = kk / cols;
        proof {
            assert(row * cols <= kk) by (nonlinear_arith)
                requires
                    row == kk / cols,
                    cols >= 1,
            ;
            assert(row < rows) by (nonlinear_arith)
                requires
                    row * cols <= kk,
                    kk < count,
                    count <= rows * cols,
                    cols >= 1,
            ;
            assert(col * slot <= 16 * 384) by (nonlinear_arith)
                requires
                    col < cols,
                    cols <= 16,
                    slot <= 384,
            ;
            assert(row * slot <= 4096) by (nonlinear_arith)
                requires
                    row < rows,
                    rows * slot <= 4096,
            ;
        }
        placements.push((idx, col * slot + gap, row * slot + gap));
        k = k + 1;
    }
    proof {
        assert(placed_indices(placements@) =~= candidates@);
    }
    Some(BlurAtlasLayout { width, height, slot, gap, placements })
}

/// Whether a layout fits the atlas-wide blur's budget of slots and area.
pub fn blur_atlas_wide_layout_within_budget(
    layout: &BlurAtlasLayout,
    max_slots: usize,
    max_area_px: u64,
) -> (r: bool)
    ensures
        r == (layout.placements@.len() <= max_slots && layout.width * layout.height
            <= max_area_px),
{
    assert((layout.width as u64) * (layout.height as u64) <= 0xffff_ffff_ffff_ffffu64) by (nonlinear_arith)
        requires
            layout.width <= 0xffff_ffffu32,
            layout.height <= 0xffff_ffffu32,
    ;
    let area = (layout.width as u64) * (layout.height as u64);
    layout.placements.len() <= max_slots && area <= max_area_px
}

/// The entries of a layout stay inside the atlas, each with the gap around
/// it, and no two of them overlap.
pub proof fn lemma_layout_rects_disjoint(s: Seq<BlurEntryInfo>, gap: u32, l: BlurAtlasLayout, j: int, k: int)
    requires
        s.len() <= u32::MAX,
        is_layout_for(s, gap, l),
        layout_slot(s, gap) != 0,
        0 <= j < l.placements@.len(),
        0 <= k < l.placements@.len(),
    ensures
        ({
            let (ij, xj, yj) = l.placements@[j];
            let ej = s[ij as int];
            &&& xj >= gap && yj >= gap
            &&& xj + ej.width + gap <= l.width
            &&& yj + ej.height + gap <= l.height
        }),
        j != k ==> ({
            let (ij, xj, yj) = l.placements@[j];
            let (ik, xk, yk) = l.placements@[k];
            let ej = s[ij as int];
            let ek = s[ik as int];
            ||| xj + ej.width <= xk
            ||| xk + ek.width <= xj
            ||| yj + ej.height <= yk
            ||| yk + ek.height <= yj
        }),
{
    let slot = layout_slot(s, gap) as int;
    let count = eligible_count(s);
    let cols = layout_grid(s, gap).unwrap().0 as int;
    let rows = layout_grid(s, gap).unwrap().1 as int;
    let g = gap as int;
    crate::order::lemma_count_true_bound(atlas_selection(s), s.len() as int);
    let c = count as int;
    // every placed entry fits its slot with the gap on both sides
    assert forall|q: int| 0 <= q < l.placements@.len() implies ({
        let e = s[(#[trigger] l.placements@[q]).0 as int];
        e.width + 2 * g <= slot && e.height + 2 * g <= slot
    }) by {
        let idx = placed_indices(l.placements@)[q];
        assert(atlas_eligible(s[idx as int]));
        lemma_max_extent_bound(s, s.len() as int, gap, idx as int);
    }
    let (ij, xj, yj) = l.placements@[j];
    let (ik, xk, yk) = l.placements@[k];
    assert(j % cols < cols && j / cols < rows) by (nonlinear_arith)
        requires
            cols >= 1,
            0 <= j < c,
            c <= rows * cols,
    ;
    assert(k % cols < cols && k / cols < rows) by (nonlinear_arith)
        requires
            cols >= 1,
            0 <= k < c,
            c <= rows * cols,
    ;
    assert((j % cols) * slot + slot <= cols * slot) by (nonlinear_arith)
        requires
            j % cols < cols,
            slot >= 0,
    ;
    assert((j / cols) * slot + slot <= rows * slot) by (nonlinear_arith)
        requires
            j / cols < rows,
            slot >= 0,
    ;
    assert(j % cols >= 0 && j / cols >= 0) by (nonlinear_arith)
        requires
            cols >= 1,
            j >= 0,
    ;
    assert(j % cols * slot >= 0 && j / cols * slot >= 0) by (nonlinear_arith)
        requires
            j % cols >= 0,
            j / cols >= 0,
            slot >= 0,
    ;
    if j != k {
        assert(j % cols != k % cols || j / cols != k / cols) by (nonlinear_arith)
            requires
                cols >= 1,
                j != k,
        ;
        if j % cols < k % cols {
            assert((j % cols) * slot + slot <= (k % cols) * slot) by (nonlinear_arith)
                requires
                    j % cols < k % cols,
                    slot >= 0,
            ;
        } else if k % cols < j % cols {
            assert((k % cols) * slot + slot <= (j % cols) * slot) by (nonlinear_arith)
                requires
                    k % cols < j % cols,
                    slot >= 0,
            ;
        } else if j / cols < k / cols {
            assert((j / cols) * slot + slot <= (k / cols) * slot) by (nonlinear_arith)
                requires
                    j / cols < k / cols,
                    slot >= 0,
            ;
        } else {
            assert((k / cols) * slot + slot <= (j / cols) * slot) by (nonlinear_arith)
                requires
                    k / cols < j / cols,
                    slot >= 0,
            ;
        }
    }
}

} // verus!
