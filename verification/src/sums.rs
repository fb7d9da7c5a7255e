//! Sums of integer-valued functions over finite sets, with the facts the
//! byte accounting of the texture pool needs.

use vstd::prelude::*;
use vstd::set::fold::{is_fun_commutative, lemma_fold_empty, lemma_fold_insert};

verus! {

/// The sum of `h` over the elements of `s`.
pub open spec fn sum_over<A>(s: Set<A>, h: spec_fn(A) -> int) -> int {
    s.fold(0int, |acc: int, a: A| acc + h(a))
}

proof fn lemma_add_commutative<A>(h: spec_fn(A) -> int)
    ensures
        is_fun_commutative(|acc: int, a: A| acc + h(a)),
{
    let f = |acc: int, a: A| acc + h(a);
    assert forall|b: int, a1: A, a2: A| #[trigger] f(f(b, a1), a2) == f(f(b, a2), a1) by {}
}

/// The sum over no element is 0.
pub proof fn lemma_sum_empty<A>(h: spec_fn(A) -> int)
    ensures
        sum_over(Set::<A>::empty(), h) == 0,
{
    lemma_fold_empty(0int, |acc: int, a: A| acc + h(a));
}

/// Adding an element adds its value.
pub proof fn lemma_sum_insert<A>(s: Set<A>, h: spec_fn(A) -> int, a: A)
    requires
        s.finite(),
        !s.contains(a),
    ensures
        sum_over(s.insert(a), h) == sum_over(s, h) + h(a),
{
    lemma_add_commutative(h);
    lemma_fold_insert(s, 0int, |acc: int, x: A| acc + h(x), a);
}

/// Removing an element takes its value away.
pub proof fn lemma_sum_remove<A>(s: Set<A>, h: spec_fn(A) -> int, a: A)
    requires
        s.finite(),
        s.contains(a),
    ensures
        sum_over(s, h) == sum_over(s.remove(a), h) + h(a),
{
    lemma_sum_insert(s.remove(a), h, a);
    assert(s.remove(a).insert(a) =~= s);
}

/// Two functions that agree on the elements of `s` have the same sum over it.
pub proof fn lemma_sum_congruent<A>(s: Set<A>, h1: spec_fn(A) -> int, h2: spec_fn(A) -> int)
    requires
        s.finite(),
        forall|a: A| s.contains(a) ==> h1(a) == h2(a),
    ensures
        sum_over(s, h1) == sum_over(s, h2),
    decreases s.len(),
{
    if s.len() == 0 {
        assert(s =~= Set::<A>::empty());
        lemma_sum_empty(h1);
        lemma_sum_empty(h2);
    } else {
        let a = s.choose();
        lemma_sum_remove(s, h1, a);
        lemma_sum_remove(s, h2, a);
        lemma_sum_congruent(s.remove(a), h1, h2);
    }
}

/// A sum of non-negative values is at least any one of them, and at least 0.
pub proof fn lemma_sum_bounds<A>(s: Set<A>, h: spec_fn(A) -> int)
    requires
        s.finite(),
        forall|a: A| s.contains(a) ==> h(a) >= 0,
    ensures
        sum_over(s, h) >= 0,
        forall|a: A| s.contains(a) ==> h(a) <= #[trigger] sum_over(s, h),
    decreases s.len(),
{
    if s.len() == 0 {
        assert(s =~= Set::<A>::empty());
        lemma_sum_empty(h);
    } else {
        let a = s.choose();
        lemma_sum_remove(s, h, a);
        lemma_sum_bounds(s.remove(a), h);
        assert forall|b: A| s.contains(b) implies h(b) <= sum_over(s, h) by {
            if b != a {
                assert(s.remove(a).contains(b));
            }
        }
    }
}

} // verus!
