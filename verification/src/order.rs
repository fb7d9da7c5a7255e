//! Stable ordering of indices by a three-part integer key, the index itself
//! breaking ties. Sorting a filtered index list this way gives the same
//! order as a stable sort by the key.

use vstd::prelude::*;

verus! {

/// Sort key of one index.
pub type OrderKey = (u64, u64, u64);

/// `a` sorts before `b`: its key is lexicographically smaller, or the keys
/// are equal and its index is smaller.
pub open spec fn key_before(keys: Seq<OrderKey>, a: usize, b: usize) -> bool {
    let ka = keys[a as int];
    let kb = keys[b as int];
    ka.0 < kb.0 || (ka.0 == kb.0 && (ka.1 < kb.1 || (ka.1 == kb.1 && (ka.2 < kb.2 || (ka.2
        == kb.2 && a < b)))))
}

/// `s` is strictly increasing in the order `key_before`.
pub open spec fn sorted_by_key(keys: Seq<OrderKey>, s: Seq<usize>) -> bool {
    forall|i: int, j: int| 0 <= i < j < s.len() ==> key_before(keys, s[i], s[j])
}

/// `s` holds exactly the indices below `n` that `selected` selects.
pub open spec fn holds_selected(selected: Seq<bool>, s: Seq<usize>, n: int) -> bool {
    &&& forall|i: int| 0 <= i < s.len() ==> s[i] < n && selected[s[i] as int]
    &&& forall|k: usize| k < n && selected[k as int] ==> s.contains(k)
}

/// Number of `true` values among the first `n` of `s`.
pub open spec fn count_true(s: Seq<bool>, n: int) -> nat
    decreases n,
{
    if n <= 0 {
        0
    } else {
        count_true(s, n - 1) + if s[n - 1] { 1nat } else { 0nat }
    }
}

/// At most `n` of the first `n` values are `true`.
pub proof fn lemma_count_true_bound(s: Seq<bool>, n: int)
    requires
        0 <= n,
    ensures
        count_true(s, n) <= n,
    decreases n,
{
    if n > 0 {
        lemma_count_true_bound(s, n - 1);
    }
}

fn before(keys: &Vec<OrderKey>, a: usize, b: usize) -> (r: bool)
    requires
        a < keys@.len(),
        b < keys@.len(),
    ensures
        r == key_before(keys@, a, b),
{
    let ka = keys[a];
    let kb = keys[b];
    ka.0 < kb.0 || (ka.0 == kb.0 && (ka.1 < kb.1 || (ka.1 == kb.1 && (ka.2 < kb.2 || (ka.2 == kb.2
        && a < b)))))
}

/// The indices that `selected` selects, sorted by `key_before`.
pub fn sort_selected(keys: &Vec<OrderKey>, selected: &Vec<bool>) -> (r: Vec<usize>)
    requires
        keys@.len() == selected@.len(),
    ensures
        sorted_by_key(keys@, r@),
        holds_selected(selected@, r@, selected@.len() as int),
        r@.len() == count_true(selected@, selected@.len() as int),
{
    let n = selected.len();
    let mut out: Vec<usize> = Vec::new();
    let mut k: usize = 0;
    while k < n
        invariant
            n == selected@.len(),
            keys@.len() == n,
            0 <= k <= n,
            sorted_by_key(keys@, out@),
            holds_selected(selected@, out@, k as int),
            out@.len() == count_true(selected@, k as int),
        decreases n - k,
    {
        if selected[k] {
            let mut pos: usize = 0;
            while pos < out.len() && !before(keys, k, out[pos])
                invariant
                    n == selected@.len(),
                    keys@.len() == n,
                    0 <= k < n,
                    0 <= pos <= out@.len(),
                    sorted_by_key(keys@, out@),
                    holds_selected(selected@, out@, k as int),
                    forall|j: int| 0 <= j < pos ==> key_before(keys@, out@[j], k),
                decreases out@.len() - pos,
            {
                proof {
                    let o = out@[pos as int];
                    assert(o < k);
                    assert(key_before(keys@, o, k));
                }
                pos = pos + 1;
            }
            let ghost old_out = out@;
            proof {
                assert forall|j: int| pos <= j < old_out.len() implies key_before(keys@, k, old_out[j]) by {
                    if j > pos as int {
                        assert(key_before(keys@, old_out[pos as int], old_out[j]));
                    }
                }
            }
            out.insert(pos, k);
            proof {
                assert(out@ == old_out.insert(pos as int, k));
                assert forall|i: int, j: int| 0 <= i < j < out@.len() implies key_before(keys@, out@[i], out@[j]) by {
                    if j < pos {
                    } else if j == pos {
                    } else if i < pos {
                        assert(key_before(keys@, old_out[i], k));
                        assert(key_before(keys@, k, old_out[j - 1]));
                    } else if i == pos {
                    } else {
                        assert(out@[i] == old_out[i - 1]);
                        assert(out@[j] == old_out[j - 1]);
                    }
                }
                assert forall|q: usize| q < k + 1 && selected@[q as int] implies out@.contains(q) by {
                    if q == k {
                        assert(out@[pos as int] == k);
                    } else {
                        let w = choose|w: int| 0 <= w < old_out.len() && old_out[w] == q;
                        if w < pos {
                            assert(out@[w] == q);
                        } else {
                            assert(out@[w + 1] == q);
                        }
                    }
                }
            }
        } else {
            proof {
                assert forall|q: usize| q < k + 1 && selected@[q as int] implies out@.contains(q) by {
                    assert(q != k);
                }
            }
        }
        k = k + 1;
    }
    out
}

} // verus!
