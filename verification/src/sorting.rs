//! Sorting of measurement samples, used to pick medians and extremes.

use vstd::prelude::*;
use vstd::relations::{sorted_by, total_ordering};

verus! {

/// The ascending order on samples.
pub open spec fn ascending() -> spec_fn(u128, u128) -> bool {
    |a: u128, b: u128| a <= b
}

/// The samples of `s` in ascending order.
pub open spec fn sorted_ascending(s: Seq<u128>) -> Seq<u128> {
    s.sort_by(ascending())
}

proof fn lemma_ascending_total()
    ensures
        total_ordering(ascending()),
{
}

/// A sequence in ascending order that holds the same samples as `s` is `sorted_ascending(s)`.
pub proof fn lemma_sorted_is_sorted_ascending(s: Seq<u128>, r: Seq<u128>)
    requires
        sorted_by(r, ascending()),
        r.to_multiset() == s.to_multiset(),
    ensures
        r == sorted_ascending(s),
{
    lemma_ascending_total();
    s.lemma_sort_by_ensures(ascending());
    vstd::seq_lib::lemma_sorted_unique(r, sorted_ascending(s), ascending());
}

/// `sorted_ascending(s)` holds the samples of `s`, in ascending order.
pub proof fn lemma_sorted_ascending_ensures(s: Seq<u128>)
    ensures
        sorted_by(sorted_ascending(s), ascending()),
        sorted_ascending(s).to_multiset() == s.to_multiset(),
        sorted_ascending(s).len() == s.len(),
{
    lemma_ascending_total();
    s.lemma_sort_by_ensures(ascending());
    vstd::seq_lib::to_multiset_len(s);
    vstd::seq_lib::to_multiset_len(sorted_ascending(s));
}

/// The samples of `s` in ascending order.
pub fn sorted_copy(s: &[u128]) -> (r: Vec<u128>)
    ensures
        r@ == sorted_ascending(s@),
{
    let mut out: Vec<u128> = Vec::new();
    let mut i: usize = 0;
    assert(s@.subrange(0, 0) =~= out@);
    while i < s.len()
        invariant
            i <= s.len(),
            sorted_by(out@, ascending()),
            out@.to_multiset() == s@.subrange(0, i as int).to_multiset(),
        decreases s.len() - i,
    {
        let x = s[i];
        let mut p: usize = 0;
        while p < out.len() && out[p] <= x
            invariant
                p <= out.len(),
                forall|k: int| 0 <= k < p ==> out@[k] <= x,
            decreases out.len() - p,
        {
            p = p + 1;
        }
        let ghost before = out@;
        out.insert(p, x);
        assert(sorted_by(out@, ascending())) by {
            assert forall|a: int, b: int| 0 <= a < b < out@.len() implies #[trigger] (ascending())(out@[a], out@[b]) by {
                assert(sorted_by(before, ascending()));
                if b < p {
                    assert((ascending())(before[a], before[b]));
                } else if b == p {
                    assert(before[a] <= x);
                } else if a < p {
                    assert((ascending())(before[a], before[b - 1]));
                } else if a == p {
                    assert(p < before.len());
                    assert(!(before[p as int] <= x));
                    assert((ascending())(before[p as int], before[b - 1]));
                } else {
                    assert((ascending())(before[a - 1], before[b - 1]));
                }
            }
        }
        assert(s@.subrange(0, i + 1) =~= s@.subrange(0, i as int).push(x));
        proof {
            vstd::seq_lib::to_multiset_insert(before, p as int, x);
            vstd::seq_lib::to_multiset_build(s@.subrange(0, i as int), x);
        }
        i = i + 1;
    }
    assert(s@.subrange(0, s.len() as int) =~= s@);
    proof {
        lemma_sorted_is_sorted_ascending(s@, out@);
    }
    out
}

} // verus!
