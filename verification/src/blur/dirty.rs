//! Dirty tracking and texture sizing for blur entries.

use vstd::prelude::*;
use crate::blur::types::{BlurDirtyKind, BlurDirtyStats, BlurEntryInfo};

verus! {

/// Rebuild budget per frame on macOS.
pub const MAX_BLUR_REBUILDS_PER_FRAME_MACOS: usize = 8;
/// Rebuild budget per frame on desktop platforms other than macOS.
pub const MAX_BLUR_REBUILDS_PER_FRAME_DEFAULT: usize = 6;
/// Rebuild budget per frame on Android when pacing for 60 Hz.
pub const MAX_BLUR_REBUILDS_PER_FRAME_AT_60HZ: usize = 1;

/// Parameter-change bits of `BlurEntryInfo::param_dirty_bits`.
pub const PARAM_DIRTY_RADIUS: u32 = 1;
pub const PARAM_DIRTY_STYLE: u32 = 2;
pub const PARAM_DIRTY_SRC_X: u32 = 4;
pub const PARAM_DIRTY_SRC_Y: u32 = 8;
pub const PARAM_DIRTY_SRC_W: u32 = 16;
pub const PARAM_DIRTY_SRC_H: u32 = 32;

/// Backing texture extent for an active extent: coarse buckets of 128, 192,
/// 256, 320 and 384 pixels, then the next multiple of 64.
pub open spec fn alloc_extent(active: u32) -> int {
    if active <= 128 {
        128
    } else if active <= 192 {
        192
    } else if active <= 256 {
        256
    } else if active <= 320 {
        320
    } else if active <= 384 {
        384
    } else {
        ((active + 63) / 64) * 64
    }
}

/// Backing texture extent for a blur texture whose active extent is
/// `active_extent`; the extent must leave room for rounding up to 64.
pub fn blur_texture_alloc_extent_px(active_extent: u32) -> (r: u32)
    requires
        active_extent <= 4294967232,
    ensures
        r == alloc_extent(active_extent),
{
    if active_extent <= 128 {
        128
    } else if active_extent <= 192 {
        192
    } else if active_extent <= 256 {
        256
    } else if active_extent <= 320 {
        320
    } else if active_extent <= 384 {
        384
    } else {
        let q = active_extent / 64 + if active_extent % 64 == 0 { 0 } else { 1 };
        assert(q == (active_extent + 63) / 64);
        assert(q * 64 <= 4294967232) by (nonlinear_arith)
            requires
                q == (active_extent + 63) / 64,
                active_extent <= 4294967232,
        ;
        q * 64
    }
}

/// The backing extent always covers the active extent, is a multiple of 64,
/// and never shrinks when the active extent grows.
pub proof fn lemma_alloc_extent_covers(a: u32, b: u32)
    requires
        a <= b,
        b <= 4294967232,
    ensures
        alloc_extent(a) >= a,
        alloc_extent(a) % 64 == 0,
        alloc_extent(a) <= alloc_extent(b),
{
    assert(((a + 63) / 64) * 64 >= a) by (nonlinear_arith);
    assert(((a + 63) / 64) * 64 % 64 == 0) by (nonlinear_arith);
    assert((a + 63) / 64 <= (b + 63) / 64) by (nonlinear_arith)
        requires
            a <= b,
    ;
    assert(((a + 63) / 64) * 64 <= ((b + 63) / 64) * 64) by (nonlinear_arith)
        requires
            (a + 63) / 64 <= (b + 63) / 64,
    ;
    assert(b > 384 ==> ((b + 63) / 64) * 64 >= 448) by (nonlinear_arith);
}

/// The backing extent is 128 for anything up to 128 pixels, and above that
/// the smallest multiple of 64 that holds the active extent.
pub proof fn lemma_alloc_extent_is_next_multiple(a: u32)
    requires
        a <= 4294967232,
    ensures
        a <= 128 ==> alloc_extent(a) == 128,
        a > 128 ==> alloc_extent(a) % 64 == 0 && a <= alloc_extent(a) < a + 64,
{
    assert(((a + 63) / 64) * 64 >= a) by (nonlinear_arith);
    assert(((a + 63) / 64) * 64 < a + 64) by (nonlinear_arith);
    assert(((a + 63) / 64) * 64 % 64 == 0) by (nonlinear_arith);
}

/// Number of the first `n` entries of `s` that satisfy `p`.
pub open spec fn count_where(s: Seq<BlurEntryInfo>, n: int, p: spec_fn(BlurEntryInfo) -> bool) -> nat
    decreases n,
{
    if n <= 0 {
        0
    } else {
        count_where(s, n - 1, p) + if p(s[n - 1]) { 1nat } else { 0nat }
    }
}

/// The entry is classified as `BlurParamsChanged` with bit `bit` set.
pub open spec fn params_bit(e: BlurEntryInfo, bit: u32) -> bool {
    e.dirty_kind == BlurDirtyKind::BlurParamsChanged && e.param_dirty_bits & bit != 0
}

/// The dirty counters of the first `n` entries of `s`.
pub open spec fn stats_of(s: Seq<BlurEntryInfo>, n: int) -> BlurDirtyStats {
    BlurDirtyStats {
        clean: count_where(s, n, |e: BlurEntryInfo| e.dirty_kind == BlurDirtyKind::Clean) as usize,
        background: count_where(s, n, |e: BlurEntryInfo| e.dirty_kind == BlurDirtyKind::BackgroundChanged) as usize,
        params: count_where(s, n, |e: BlurEntryInfo| e.dirty_kind == BlurDirtyKind::BlurParamsChanged) as usize,
        overlay: count_where(s, n, |e: BlurEntryInfo| e.dirty_kind == BlurDirtyKind::OverlayOnlyChanged) as usize,
        children: count_where(s, n, |e: BlurEntryInfo| e.dirty_kind == BlurDirtyKind::ChildrenChanged) as usize,
        invalid: count_where(s, n, |e: BlurEntryInfo| !e.blur_valid) as usize,
        pending: count_where(s, n, |e: BlurEntryInfo| e.blur_rebuild_pending) as usize,
        skipped: count_where(s, n, |e: BlurEntryInfo| e.skipped_due_to_size) as usize,
        visible: count_where(s, n, |e: BlurEntryInfo| e.visible) as usize,
        param_radius: count_where(s, n, |e: BlurEntryInfo| params_bit(e, 1)) as usize,
        param_style: count_where(s, n, |e: BlurEntryInfo| params_bit(e, 2)) as usize,
        param_src_x: count_where(s, n, |e: BlurEntryInfo| params_bit(e, 4)) as usize,
        param_src_y: count_where(s, n, |e: BlurEntryInfo| params_bit(e, 8)) as usize,
        param_src_w: count_where(s, n, |e: BlurEntryInfo| params_bit(e, 16)) as usize,
        param_src_h: count_where(s, n, |e: BlurEntryInfo| params_bit(e, 32)) as usize,
        bg_size: count_where(s, n, |e: BlurEntryInfo| e.dirty_kind == BlurDirtyKind::BackgroundChanged) as usize,
        children_list: count_where(
            s,
            n,
            |e: BlurEntryInfo| e.dirty_kind == BlurDirtyKind::ChildrenChanged && !e.has_deferred_children,
        ) as usize,
        children_bounds: count_where(
            s,
            n,
            |e: BlurEntryInfo| e.dirty_kind == BlurDirtyKind::ChildrenChanged && e.has_deferred_children,
        ) as usize,
    }
}

/// Dirty report of a frame's blur entries.
#[derive(Debug, Clone, Copy)]
pub struct BlurDirtyReport {
    /// Entries whose classification is not `Clean`.
    pub dirty_count: usize,
    pub stats: BlurDirtyStats,
}

proof fn lemma_count_bound(s: Seq<BlurEntryInfo>, n: int, p: spec_fn(BlurEntryInfo) -> bool)
    requires
        0 <= n,
    ensures
        count_where(s, n, p) <= n,
    decreases n,
{
    if n > 0 {
        lemma_count_bound(s, n - 1, p);
    }
}

fn zero_stats() -> (r: BlurDirtyStats)
    ensures
        r == stats_of(Seq::empty(), 0),
{
    BlurDirtyStats {
        clean: 0,
        background: 0,
        params: 0,
        overlay: 0,
        children: 0,
        invalid: 0,
        pending: 0,
        skipped: 0,
        visible: 0,
        param_radius: 0,
        param_style: 0,
        param_src_x: 0,
        param_src_y: 0,
        param_src_w: 0,
        param_src_h: 0,
        bg_size: 0,
        children_list: 0,
        children_bounds: 0,
    }
}

/// Counts a frame's blur entries by dirty classification and state.
#[verifier::rlimit(60)]
#[verifier::spinoff_prover]
pub fn collect_blur_dirty_report(entries: &[BlurEntryInfo]) -> (r: BlurDirtyReport)
    ensures
        r.dirty_count == count_where(
            entries@,
            entries@.len() as int,
            |e: BlurEntryInfo| e.dirty_kind != BlurDirtyKind::Clean,
        ),
        r.stats == stats_of(entries@, entries@.len() as int),
{
    let n = entries.len();
    let mut dirty_count: usize = 0;
    let mut stats = zero_stats();
    proof {
        assert(stats == stats_of(entries@, 0));
    }
    let mut i: usize = 0;
    while i < n
        invariant
            n == entries@.len(),
            0 <= i <= n,
            dirty_count == count_where(
                entries@,
                i as int,
                |e: BlurEntryInfo| e.dirty_kind != BlurDirtyKind::Clean,
            ),
            stats == stats_of(entries@, i as int),
        decreases n - i,
    {
        let e = entries[i];
        proof {
            let s = entries@;
            let m = i as int;
            lemma_count_bound(s, m, |e: BlurEntryInfo| e.dirty_kind != BlurDirtyKind::Clean);
            lemma_count_bound(s, m, |e: BlurEntryInfo| e.dirty_kind == BlurDirtyKind::Clean);
            lemma_count_bound(s, m, |e: BlurEntryInfo| e.dirty_kind == BlurDirtyKind::BackgroundChanged);
            lemma_count_bound(s, m, |e: BlurEntryInfo| e.dirty_kind == BlurDirtyKind::BlurParamsChanged);
            lemma_count_bound(s, m, |e: BlurEntryInfo| e.dirty_kind == BlurDirtyKind::OverlayOnlyChanged);
            lemma_count_bound(s, m, |e: BlurEntryInfo| e.dirty_kind == BlurDirtyKind::ChildrenChanged);
            lemma_count_bound(s, m, |e: BlurEntryInfo| !e.blur_valid);
            lemma_count_bound(s, m, |e: BlurEntryInfo| e.blur_rebuild_pending);
            lemma_count_bound(s, m, |e: BlurEntryInfo| e.skipped_due_to_size);
            lemma_count_bound(s, m, |e: BlurEntryInfo| e.visible);
            lemma_count_bound(s, m, |e: BlurEntryInfo| params_bit(e, 1));
            lemma_count_bound(s, m, |e: BlurEntryInfo| params_bit(e, 2));
            lemma_count_bound(s, m, |e: BlurEntryInfo| params_bit(e, 4));
            lemma_count_bound(s, m, |e: BlurEntryInfo| params_bit(e, 8));
            lemma_count_bound(s, m, |e: BlurEntryInfo| params_bit(e, 16));
            lemma_count_bound(s, m, |e: BlurEntryInfo| params_bit(e, 32));
            lemma_count_bound(
                s,
                m,
                |e: BlurEntryInfo| e.dirty_kind == BlurDirtyKind::ChildrenChanged && !e.has_deferred_children,
            );
            lemma_count_bound(
                s,
                m,
                |e: BlurEntryInfo| e.dirty_kind == BlurDirtyKind::ChildrenChanged && e.has_deferred_children,
            );
        }
        let kind = e.dirty_kind;
        if kind != BlurDirtyKind::Clean {
            dirty_count = dirty_count + 1;
        }
        if e.skipped_due_to_size {
            stats.skipped = stats.skipped + 1;
        }
        if e.visible {
            stats.visible = stats.visible + 1;
        }
        if !e.blur_valid {
            stats.invalid = stats.invalid + 1;
        }
        if e.blur_rebuild_pending {
            stats.pending = stats.pending + 1;
        }
        if kind == BlurDirtyKind::BlurParamsChanged {
            if e.param_dirty_bits & PARAM_DIRTY_RADIUS != 0 {
                stats.param_radius = stats.param_radius + 1;
            }
            if e.param_dirty_bits & PARAM_DIRTY_STYLE != 0 {
                stats.param_style = stats.param_style + 1;
            }
            if e.param_dirty_bits & PARAM_DIRTY_SRC_X != 0 {
                stats.param_src_x = stats.param_src_x + 1;
            }
            if e.param_dirty_bits & PARAM_DIRTY_SRC_Y != 0 {
                stats.param_src_y = stats.param_src_y + 1;
            }
            if e.param_dirty_bits & PARAM_DIRTY_SRC_W != 0 {
                stats.param_src_w = stats.param_src_w + 1;
            }
            if e.param_dirty_bits & PARAM_DIRTY_SRC_H != 0 {
                stats.param_src_h = stats.param_src_h + 1;
            }
        }
        if kind == BlurDirtyKind::BackgroundChanged {
            stats.bg_size = stats.bg_size + 1;
        }
        if kind == BlurDirtyKind::ChildrenChanged {
            if !e.has_deferred_children {
                stats.children_list = stats.children_list + 1;
            } else {
                stats.children_bounds = stats.children_bounds + 1;
            }
        }
        match kind {
            BlurDirtyKind::Clean => stats.clean = stats.clean + 1,
            BlurDirtyKind::BackgroundChanged => stats.background = stats.background + 1,
            BlurDirtyKind::BlurParamsChanged => stats.params = stats.params + 1,
            BlurDirtyKind::OverlayOnlyChanged => stats.overlay = stats.overlay + 1,
            BlurDirtyKind::ChildrenChanged => stats.children = stats.children + 1,
        }
        i = i + 1;
        proof {
            assert(stats == stats_of(entries@, i as int));
        }
    }
    BlurDirtyReport { dirty_count, stats }
}

/// What changed for a blur entry since the previous frame, as measured by
/// the caller on the entry's geometry and parameters.
#[derive(Debug, Clone, Copy, PartialEq, Eq, Structural)]
pub struct BlurChanges {
    /// The texture must be reallocated: it is smaller than the new size.
    pub allocation_changed: bool,
    /// The blur radius moved to another Kawase pass class.
    pub kernel_changed: bool,
    /// The source rectangle moved or resized by at least a pixel.
    pub rect_changed: bool,
    /// The active texture size changed.
    pub active_size_changed: bool,
    pub opacity_changed: bool,
    pub overlay_changed: bool,
    pub style_changed: bool,
    /// The deferred children or their bounds changed.
    pub children_changed: bool,
    /// The source rectangle's x, y, width or height changed by at least a pixel.
    pub src_x_changed: bool,
    pub src_y_changed: bool,
    pub src_w_changed: bool,
    pub src_h_changed: bool,
}

/// The outcome of classifying a blur entry for a frame.
#[derive(Debug, Clone, Copy, PartialEq, Eq, Structural)]
pub struct BlurClassification {
    pub dirty_kind: BlurDirtyKind,
    pub param_dirty_bits: u32,
    pub blur_rebuild_pending: bool,
}

/// The dirty kind the changes alone call for, most expensive first.
pub open spec fn computed_kind(c: BlurChanges) -> BlurDirtyKind {
    if c.allocation_changed {
        BlurDirtyKind::BackgroundChanged
    } else if c.kernel_changed || c.rect_changed || c.active_size_changed {
        BlurDirtyKind::BlurParamsChanged
    } else if c.opacity_changed || c.overlay_changed || c.style_changed {
        BlurDirtyKind::OverlayOnlyChanged
    } else if c.children_changed {
        BlurDirtyKind::ChildrenChanged
    } else {
        BlurDirtyKind::Clean
    }
}

/// The parameter bits of the changes: radius class, style, and each side of
/// the source rectangle.
pub open spec fn change_bits(c: BlurChanges) -> u32 {
    ((if c.kernel_changed { 1int } else { 0int }) + (if c.style_changed { 2int } else { 0int }) + (
    if c.src_x_changed { 4int } else { 0int }) + (if c.src_y_changed { 8int } else { 0int }) + (
    if c.src_w_changed { 16int } else { 0int }) + (if c.src_h_changed { 32int } else { 0int })) as u32
}

/// The classification of an entry with `changes`, given whether a rebuild
/// was already pending: a pending rebuild turns a clean or overlay-only
/// entry into a parameter change; parameter bits are kept only for a
/// parameter change; a background or parameter change leaves a rebuild pending.
pub open spec fn classification(c: BlurChanges, pending: bool) -> BlurClassification {
    let kind = if pending && (computed_kind(c) == BlurDirtyKind::Clean || computed_kind(c)
        == BlurDirtyKind::OverlayOnlyChanged) {
        BlurDirtyKind::BlurParamsChanged
    } else {
        computed_kind(c)
    };
    BlurClassification {
        dirty_kind: kind,
        param_dirty_bits: if kind == BlurDirtyKind::BlurParamsChanged {
            change_bits(c)
        } else {
            0
        },
        blur_rebuild_pending: pending || kind == BlurDirtyKind::BackgroundChanged || kind
            == BlurDirtyKind::BlurParamsChanged,
    }
}

/// Classifies a blur entry for this frame from what changed.
pub fn classify_blur_changes(changes: BlurChanges, rebuild_pending: bool) -> (r: BlurClassification)
    ensures
        r == classification(changes, rebuild_pending),
{
    let computed = if changes.allocation_changed {
        BlurDirtyKind::BackgroundChanged
    } else if changes.kernel_changed || changes.rect_changed || changes.active_size_changed {
        BlurDirtyKind::BlurParamsChanged
    } else if changes.opacity_changed || changes.overlay_changed || changes.style_changed {
        BlurDirtyKind::OverlayOnlyChanged
    } else if changes.children_changed {
        BlurDirtyKind::ChildrenChanged
    } else {
        BlurDirtyKind::Clean
    };
    let kind = if rebuild_pending && (computed == BlurDirtyKind::Clean || computed
        == BlurDirtyKind::OverlayOnlyChanged) {
        BlurDirtyKind::BlurParamsChanged
    } else {
        computed
    };
    let mut bits: u32 = 0;
    if changes.kernel_changed {
        bits = bits + PARAM_DIRTY_RADIUS;
    }
    if changes.style_changed {
        bits = bits + PARAM_DIRTY_STYLE;
    }
    if changes.src_x_changed {
        bits = bits + PARAM_DIRTY_SRC_X;
    }
    if changes.src_y_changed {
        bits = bits + PARAM_DIRTY_SRC_Y;
    }
    if changes.src_w_changed {
        bits = bits + PARAM_DIRTY_SRC_W;
    }
    if changes.src_h_changed {
        bits = bits + PARAM_DIRTY_SRC_H;
    }
    let param_dirty_bits = if kind == BlurDirtyKind::BlurParamsChanged { bits } else { 0 };
    let pending = rebuild_pending || kind == BlurDirtyKind::BackgroundChanged || kind
        == BlurDirtyKind::BlurParamsChanged;
    BlurClassification { dirty_kind: kind, param_dirty_bits, blur_rebuild_pending: pending }
}

/// A pending rebuild is never lost and never shows as clean: once pending,
/// the entry stays pending and is classified as a background or parameter
/// change, or as a children change.
pub proof fn lemma_pending_rebuild_kept(c: BlurChanges)
    ensures
        classification(c, true).blur_rebuild_pending,
        classification(c, true).dirty_kind != BlurDirtyKind::Clean,
        classification(c, true).dirty_kind != BlurDirtyKind::OverlayOnlyChanged,
        classification(c, false).dirty_kind == BlurDirtyKind::Clean ==> !classification(c, false).blur_rebuild_pending
            && classification(c, false).param_dirty_bits == 0,
{
}

/// The six parameter flags, each 0 or 1, packed as bits 1, 2, 4, 8, 16 and
/// 32: each bit is set exactly when its flag is.
proof fn lemma_flag_bits(a: u32, b: u32, c: u32, d: u32, e: u32, f: u32)
    by (bit_vector)
    requires
        a <= 1,
        b <= 1,
        c <= 1,
        d <= 1,
        e <= 1,
        f <= 1,
    ensures
        ((a + 2 * b + 4 * c + 8 * d + 16 * e + 32 * f) as u32) & 1 != 0 <==> a == 1,
        ((a + 2 * b + 4 * c + 8 * d + 16 * e + 32 * f) as u32) & 2 != 0 <==> b == 1,
        ((a + 2 * b + 4 * c + 8 * d + 16 * e + 32 * f) as u32) & 4 != 0 <==> c == 1,
        ((a + 2 * b + 4 * c + 8 * d + 16 * e + 32 * f) as u32) & 8 != 0 <==> d == 1,
        ((a + 2 * b + 4 * c + 8 * d + 16 * e + 32 * f) as u32) & 16 != 0 <==> e == 1,
        ((a + 2 * b + 4 * c + 8 * d + 16 * e + 32 * f) as u32) & 32 != 0 <==> f == 1,
        ((a + 2 * b + 4 * c + 8 * d + 16 * e + 32 * f) as u32) < 64,
{
}

/// What the classification of an entry says, from what changed:
/// - a reallocation is a background change; otherwise a change of the
///   kernel class, of the source rectangle or of the active size is a
///   parameter change; otherwise an opacity, overlay or style change is
///   overlay-only (a parameter change while a rebuild is pending);
///   otherwise a children change is a children change; and an entry with no
///   change is clean (a parameter change while a rebuild is pending);
/// - a background or parameter change leaves a rebuild pending, and a
///   pending rebuild stays pending;
/// - the parameter bits are set only for a parameter change, and then each
///   bit is set exactly when its own parameter changed.
pub proof fn lemma_classification_follows_changes(c: BlurChanges, pending: bool)
    ensures
        c.allocation_changed ==> classification(c, pending).dirty_kind == BlurDirtyKind::BackgroundChanged,
        !c.allocation_changed && (c.kernel_changed || c.rect_changed || c.active_size_changed)
            ==> classification(c, pending).dirty_kind == BlurDirtyKind::BlurParamsChanged,
        !c.allocation_changed && c.rect_changed ==> classification(c, pending).dirty_kind
            == BlurDirtyKind::BlurParamsChanged && classification(c, pending).blur_rebuild_pending,
        !c.allocation_changed && !c.kernel_changed && !c.rect_changed && !c.active_size_changed && (
        c.opacity_changed || c.overlay_changed || c.style_changed) ==> classification(c, pending).dirty_kind
            == (if pending {
            BlurDirtyKind::BlurParamsChanged
        } else {
            BlurDirtyKind::OverlayOnlyChanged
        }),
        !c.allocation_changed && !c.kernel_changed && !c.rect_changed && !c.active_size_changed
            && !c.opacity_changed && !c.overlay_changed && !c.style_changed && c.children_changed
            ==> classification(c, pending).dirty_kind == BlurDirtyKind::ChildrenChanged,
        !c.allocation_changed && !c.kernel_changed && !c.rect_changed && !c.active_size_changed
            && !c.opacity_changed && !c.overlay_changed && !c.style_changed && !c.children_changed
            ==> classification(c, pending).dirty_kind == (if pending {
            BlurDirtyKind::BlurParamsChanged
        } else {
            BlurDirtyKind::Clean
        }),
        classification(c, pending).blur_rebuild_pending <==> (pending || classification(c, pending).dirty_kind
            == BlurDirtyKind::BackgroundChanged || classification(c, pending).dirty_kind
            == BlurDirtyKind::BlurParamsChanged),
        classification(c, pending).dirty_kind != BlurDirtyKind::BlurParamsChanged ==> classification(
            c,
            pending,
        ).param_dirty_bits == 0,
        classification(c, pending).param_dirty_bits < 64,
        classification(c, pending).dirty_kind == BlurDirtyKind::BlurParamsChanged ==> {
            let bits = classification(c, pending).param_dirty_bits;
            &&& (bits & PARAM_DIRTY_RADIUS != 0 <==> c.kernel_changed)
            &&& (bits & PARAM_DIRTY_STYLE != 0 <==> c.style_changed)
            &&& (bits & PARAM_DIRTY_SRC_X != 0 <==> c.src_x_changed)
            &&& (bits & PARAM_DIRTY_SRC_Y != 0 <==> c.src_y_changed)
            &&& (bits & PARAM_DIRTY_SRC_W != 0 <==> c.src_w_changed)
            &&& (bits & PARAM_DIRTY_SRC_H != 0 <==> c.src_h_changed)
        },
{
    let a: u32 = if c.kernel_changed { 1 } else { 0 };
    let b: u32 = if c.style_changed { 1 } else { 0 };
    let x: u32 = if c.src_x_changed { 1 } else { 0 };
    let y: u32 = if c.src_y_changed { 1 } else { 0 };
    let w: u32 = if c.src_w_changed { 1 } else { 0 };
    let h: u32 = if c.src_h_changed { 1 } else { 0 };
    lemma_flag_bits(a, b, x, y, w, h);
    assert(change_bits(c) == ((a + 2 * b + 4 * x + 8 * y + 16 * w + 32 * h) as u32));
}

/// Allocated size of an entry's blur texture and whether a new texture is
/// needed: a new entry gets the bucketed size; an existing one keeps its
/// allocation when it is large enough and grows to the bucketed size
/// otherwise.
pub open spec fn texture_allocation(existing: Option<(u32, u32)>, w: u32, h: u32) -> (u32, u32, bool) {
    match existing {
        None => (alloc_extent(w) as u32, alloc_extent(h) as u32, true),
        Some((aw, ah)) => (
            if aw >= alloc_extent(w) { aw } else { alloc_extent(w) as u32 },
            if ah >= alloc_extent(h) { ah } else { alloc_extent(h) as u32 },
            aw < w || ah < h,
        ),
    }
}

/// Decides the allocated size of a blur texture of `texture_width` by
/// `texture_height` pixels, given the allocation of an existing entry.
pub fn blur_texture_allocation(existing: Option<(u32, u32)>, texture_width: u32, texture_height: u32) -> (r: (u32, u32, bool))
    requires
        texture_width <= 4294967232,
        texture_height <= 4294967232,
    ensures
        r == texture_allocation(existing, texture_width, texture_height),
        r.0 >= texture_width && r.1 >= texture_height,
{
    proof {
        lemma_alloc_extent_covers(texture_width, texture_width);
        lemma_alloc_extent_covers(texture_height, texture_height);
    }
    let bw = blur_texture_alloc_extent_px(texture_width);
    let bh = blur_texture_alloc_extent_px(texture_height);
    match existing {
        None => (bw, bh, true),
        Some((aw, ah)) => (
            if aw >= bw { aw } else { bw },
            if ah >= bh { ah } else { bh },
            aw < texture_width || ah < texture_height,
        ),
    }
}

/// What the allocation decision says, for content of `w` x `h` pixels:
/// - a new entry always needs a texture, of the bucketed size;
/// - an existing texture is replaced exactly when it is narrower or shorter
///   than the content, and kept otherwise;
/// - the decided size covers the content and the existing allocation, never
///   shrinks, and is the existing size in each dimension where that already
///   covers the bucketed size.
pub proof fn lemma_allocation_covers_content(existing: Option<(u32, u32)>, w: u32, h: u32)
    requires
        w <= 4294967232,
        h <= 4294967232,
    ensures
        existing is None ==> texture_allocation(existing, w, h) == (
            alloc_extent(w) as u32,
            alloc_extent(h) as u32,
            true,
        ),
        existing matches Some((aw, ah)) ==> {
            let r = texture_allocation(existing, w, h);
            &&& (r.2 <==> (aw < w || ah < h))
            &&& (ah < h ==> r.2)
            &&& (aw < w ==> r.2)
            &&& (aw >= w && ah >= h ==> !r.2)
            &&& r.0 >= aw && r.1 >= ah
            &&& r.0 >= alloc_extent(w) && r.1 >= alloc_extent(h)
            &&& (r.0 == aw || r.0 == alloc_extent(w))
            &&& (r.1 == ah || r.1 == alloc_extent(h))
        },
        texture_allocation(existing, w, h).0 >= w,
        texture_allocation(existing, w, h).1 >= h,
{
    lemma_alloc_extent_covers(w, w);
    lemma_alloc_extent_covers(h, h);
    assert(alloc_extent(w) <= 4294967232) by {
        assert(((w + 63) / 64) * 64 <= 4294967232) by (nonlinear_arith)
            requires
                w <= 4294967232,
        ;
    }
    assert(alloc_extent(h) <= 4294967232) by {
        assert(((h + 63) / 64) * 64 <= 4294967232) by (nonlinear_arith)
            requires
                h <= 4294967232,
        ;
    }
}

} // verus!
