//! Which blur entries to rebuild in a frame.

use vstd::prelude::*;
use crate::blur::types::{BlurDirtyKind, BlurEntryInfo};
use crate::order::{holds_selected, sort_selected, sorted_by_key, OrderKey};

verus! {

/// The entry needs a full rebuild: it is not skipped, it is visible, and its
/// blur is invalid, pending a rebuild, or stale after a background or
/// parameter change.
pub open spec fn needs_rebuild(e: BlurEntryInfo) -> bool {
    !e.skipped_due_to_size && e.visible && (!e.blur_valid || e.blur_rebuild_pending
        || e.dirty_kind == BlurDirtyKind::BackgroundChanged || e.dirty_kind
        == BlurDirtyKind::BlurParamsChanged)
}

/// Rebuild priority: invalid blurs first, then the oldest rebuild, then the
/// largest area.
pub open spec fn rebuild_key(e: BlurEntryInfo) -> OrderKey {
    (
        if e.blur_valid { 1u64 } else { 0u64 },
        e.last_blur_rebuild_frame,
        (u64::MAX - (e.width as u64) * (e.height as u64)) as u64,
    )
}

/// The rebuild keys of the entries.
pub open spec fn rebuild_keys(s: Seq<BlurEntryInfo>) -> Seq<OrderKey> {
    s.map_values(|e: BlurEntryInfo| rebuild_key(e))
}

/// Whether each entry needs a rebuild.
pub open spec fn rebuild_selection(s: Seq<BlurEntryInfo>) -> Seq<bool> {
    s.map_values(|e: BlurEntryInfo| needs_rebuild(e))
}

/// The indices to rebuild are the first `budget` of `all`, the entries that
/// need a rebuild in priority order.
pub open spec fn is_rebuild_selection(s: Seq<BlurEntryInfo>, budget: usize, r: Seq<usize>) -> bool {
    exists|all: Seq<usize>|
        sorted_by_key(rebuild_keys(s), all) && holds_selected(rebuild_selection(s), all, s.len() as int)
            && r == all.subrange(0, if all.len() <= budget { all.len() as int } else { budget as int })
}

/// Selects the blur entries to rebuild this frame: those that need it, in
/// priority order (invalid first, then oldest rebuild, then largest area,
/// then entry order), at most `rebuild_budget` of them.
pub fn select_legacy_rebuild_indices(entries: &[BlurEntryInfo], rebuild_budget: usize) -> (r: Vec<usize>)
    ensures
        is_rebuild_selection(entries@, rebuild_budget, r@),
        r@.len() <= rebuild_budget,
{
    let mut keys: Vec<OrderKey> = Vec::new();
    let mut sel: Vec<bool> = Vec::new();
    let mut i: usize = 0;
    while i < entries.len()
        invariant
            0 <= i <= entries@.len(),
            keys@ == rebuild_keys(entries@).subrange(0, i as int),
            sel@ == rebuild_selection(entries@).subrange(0, i as int),
        decreases entries@.len() - i,
    {
        let e = entries[i];
        assert((e.width as u64) * (e.height as u64) <= 0xffff_ffff_ffff_ffffu64) by (nonlinear_arith)
            requires
                e.width <= 0xffff_ffffu32,
                e.height <= 0xffff_ffffu32,
        ;
        let area = (e.width as u64) * (e.height as u64);
        keys.push((if e.blur_valid { 1u64 } else { 0u64 }, e.last_blur_rebuild_frame, u64::MAX - area));
        let kind = e.dirty_kind;
        sel.push(
            !e.skipped_due_to_size && e.visible && (!e.blur_valid || e.blur_rebuild_pending
                || kind == BlurDirtyKind::BackgroundChanged || kind
                == BlurDirtyKind::BlurParamsChanged),
        );
        i = i + 1;
        assert(keys@ =~= rebuild_keys(entries@).subrange(0, i as int));
        assert(sel@ =~= rebuild_selection(entries@).subrange(0, i as int));
    }
    assert(keys@ =~= rebuild_keys(entries@));
    assert(sel@ =~= rebuild_selection(entries@));
    let mut indices = sort_selected(&keys, &sel);
    let ghost all = indices@;
    if indices.len() > rebuild_budget {
        indices.truncate(rebuild_budget);
    }
    assert(indices@ =~= all.subrange(
        0,
        if all.len() <= rebuild_budget { all.len() as int } else { rebuild_budget as int },
    ));
    indices
}

/// The rebuild selection keeps the budget, takes only entries that need a
/// rebuild, and never passes over an entry of higher priority: an entry
/// that needs a rebuild and is left out ranks after every selected one.
pub proof fn lemma_rebuild_selection_priority(
    s: Seq<BlurEntryInfo>,
    budget: usize,
    r: Seq<usize>,
    left_out: usize,
)
    requires
        is_rebuild_selection(s, budget, r),
        left_out < s.len(),
        needs_rebuild(s[left_out as int]),
        !r.contains(left_out),
    ensures
        r.len() == budget,
        forall|i: int| 0 <= i < r.len() ==> needs_rebuild(s[r[i] as int]),
        forall|i: int| 0 <= i < r.len() ==> crate::order::key_before(rebuild_keys(s), r[i], left_out),
{
    let all = choose|all: Seq<usize>|
        sorted_by_key(rebuild_keys(s), all) && holds_selected(rebuild_selection(s), all, s.len() as int)
            && r == all.subrange(0, if all.len() <= budget { all.len() as int } else { budget as int });
    assert(rebuild_selection(s)[left_out as int]);
    assert(all.contains(left_out));
    let p = choose|p: int| 0 <= p < all.len() && all[p] == left_out;
    if all.len() <= budget {
        assert(r[p] == left_out);
    }
    assert(p >= r.len()) by {
        if p < r.len() {
            assert(r[p] == left_out);
        }
    }
    assert forall|i: int| 0 <= i < r.len() implies needs_rebuild(s[r[i] as int]) by {
        assert(r[i] == all[i]);
        assert(rebuild_selection(s)[all[i] as int]);
    }
    assert forall|i: int| 0 <= i < r.len() implies crate::order::key_before(rebuild_keys(s), r[i], left_out) by {
        assert(r[i] == all[i]);
    }
}

/// Entry `a` (at index `ia`) is rebuilt before entry `b` (at index `ib`):
/// an invalid blur before a valid one; with equal validity, the older (or
/// same) last rebuild; with that equal too, the larger (or same) area; and
/// with all of these equal, the lower index.
pub open spec fn rebuilt_first(a: BlurEntryInfo, ia: usize, b: BlurEntryInfo, ib: usize) -> bool {
    &&& (a.blur_valid ==> b.blur_valid)
    &&& (a.blur_valid == b.blur_valid ==> a.last_blur_rebuild_frame <= b.last_blur_rebuild_frame)
    &&& (a.blur_valid == b.blur_valid && a.last_blur_rebuild_frame == b.last_blur_rebuild_frame
        ==> a.width * a.height >= b.width * b.height)
    &&& (a.blur_valid == b.blur_valid && a.last_blur_rebuild_frame == b.last_blur_rebuild_frame
        && a.width * a.height == b.width * b.height ==> ia < ib)
}

proof fn lemma_key_before_fields(s: Seq<BlurEntryInfo>, x: usize, y: usize)
    requires
        x < s.len(),
        y < s.len(),
        crate::order::key_before(rebuild_keys(s), x, y),
    ensures
        rebuilt_first(s[x as int], x, s[y as int], y),
        x != y,
{
    let a = s[x as int];
    let b = s[y as int];
    assert(rebuild_keys(s)[x as int] == rebuild_key(a));
    assert(rebuild_keys(s)[y as int] == rebuild_key(b));
    assert(a.width * a.height <= 0xffff_ffff_ffff_ffff) by (nonlinear_arith)
        requires
            a.width <= 0xffff_ffffu32,
            a.height <= 0xffff_ffffu32,
    ;
    assert(b.width * b.height <= 0xffff_ffff_ffff_ffff) by (nonlinear_arith)
        requires
            b.width <= 0xffff_ffffu32,
            b.height <= 0xffff_ffffu32,
    ;
    assert((a.width as u64) * (a.height as u64) == a.width * a.height);
    assert((b.width as u64) * (b.height as u64) == b.width * b.height);
}

/// The rebuild selection, field by field: each selected index names an
/// entry that needs a rebuild (visible, not skipped, and with an invalid,
/// pending or stale blur); an entry that needs one is left out only when
/// the budget is full; of two selected entries the earlier is
/// rebuilt first (invalid blur, then oldest rebuild, then largest area,
/// then lowest index); and every entry that needs a rebuild and is left
/// out comes after every selected one in that order, so an entry with a
/// stale blur is never passed over for one rebuilt more recently.
pub proof fn lemma_rebuild_selection_order(s: Seq<BlurEntryInfo>, budget: usize, r: Seq<usize>)
    requires
        is_rebuild_selection(s, budget, r),
    ensures
        r.len() <= budget,
        forall|i: int| 0 <= i < r.len() ==> r[i] < s.len() && needs_rebuild(#[trigger] s[r[i] as int]),
        forall|i: int|
            0 <= i < r.len() ==> {
                let e = #[trigger] s[r[i] as int];
                &&& !e.skipped_due_to_size && e.visible
                &&& !e.blur_valid || e.blur_rebuild_pending || e.dirty_kind == BlurDirtyKind::BackgroundChanged
                    || e.dirty_kind == BlurDirtyKind::BlurParamsChanged
            },
        (exists|k: usize|
            k < s.len() && !r.contains(k) && !(#[trigger] s[k as int]).skipped_due_to_size
                && s[k as int].visible && (!s[k as int].blur_valid || s[k as int].blur_rebuild_pending
                || s[k as int].dirty_kind == BlurDirtyKind::BackgroundChanged || s[k as int].dirty_kind
                == BlurDirtyKind::BlurParamsChanged)) ==> r.len() == budget,
        forall|i: int, j: int|
            #![trigger r[i], r[j]]
            0 <= i < j < r.len() ==> r[i] != r[j] && rebuilt_first(s[r[i] as int], r[i], s[r[j] as int], r[j]),
        forall|i: int, k: usize|
            #![trigger r[i], s[k as int]]
            0 <= i < r.len() && k < s.len() && needs_rebuild(s[k as int]) && !r.contains(k) ==> rebuilt_first(
                s[r[i] as int],
                r[i],
                s[k as int],
                k,
            ),
{
    let all = choose|all: Seq<usize>|
        sorted_by_key(rebuild_keys(s), all) && holds_selected(rebuild_selection(s), all, s.len() as int)
            && r == all.subrange(0, if all.len() <= budget { all.len() as int } else { budget as int });
    assert forall|i: int| 0 <= i < r.len() implies r[i] < s.len() && needs_rebuild(#[trigger] s[r[i] as int]) by {
        assert(r[i] == all[i]);
        assert(rebuild_selection(s)[all[i] as int]);
    }
    if exists|k: usize|
        k < s.len() && !r.contains(k) && !(#[trigger] s[k as int]).skipped_due_to_size
            && s[k as int].visible && (!s[k as int].blur_valid || s[k as int].blur_rebuild_pending
            || s[k as int].dirty_kind == BlurDirtyKind::BackgroundChanged || s[k as int].dirty_kind
            == BlurDirtyKind::BlurParamsChanged) {
        let k = choose|k: usize|
            k < s.len() && !r.contains(k) && !(#[trigger] s[k as int]).skipped_due_to_size
                && s[k as int].visible && (!s[k as int].blur_valid || s[k as int].blur_rebuild_pending
                || s[k as int].dirty_kind == BlurDirtyKind::BackgroundChanged || s[k as int].dirty_kind
                == BlurDirtyKind::BlurParamsChanged);
        lemma_rebuild_selection_priority(s, budget, r, k);
    }
    assert forall|i: int, j: int|
        #![trigger r[i], r[j]]
        0 <= i < j < r.len() implies r[i] != r[j] && rebuilt_first(s[r[i] as int], r[i], s[r[j] as int], r[j]) by {
        assert(r[i] == all[i] && r[j] == all[j]);
        assert(all[i] < s.len() && all[j] < s.len());
        lemma_key_before_fields(s, all[i], all[j]);
    }
    assert forall|i: int, k: usize|
        #![trigger r[i], s[k as int]]
        0 <= i < r.len() && k < s.len() && needs_rebuild(s[k as int]) && !r.contains(k) implies rebuilt_first(
            s[r[i] as int],
            r[i],
            s[k as int],
            k,
        ) by {
        lemma_rebuild_selection_priority(s, budget, r, k);
        assert(r[i] == all[i]);
        assert(all[i] < s.len());
        lemma_key_before_fields(s, r[i], k);
    }
}

} // verus!
