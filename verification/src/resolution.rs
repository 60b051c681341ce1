//! The resolution a counter shows: the typical smallest step between two readings.

use vstd::prelude::*;

use crate::sorting::{lemma_sorted_ascending_ensures, sorted_ascending, sorted_copy};

verus! {

/// The observed steps widened to `u128`.
pub open spec fn widened(steps: Seq<u64>) -> Seq<u128> {
    steps.map_values(|d: u64| d as u128)
}

/// The median of the observed smallest steps (the upper median for an even count), or `None`
/// when no step was observed.
pub open spec fn median_step(steps: Seq<u64>) -> Option<u128> {
    if steps.len() == 0 {
        None
    } else {
        Some(sorted_ascending(widened(steps))[(steps.len() / 2) as int])
    }
}

/// The counter's resolution in ticks from the smallest nonzero steps observed between
/// consecutive readings: their median, or `None` when none was observed.
pub fn resolution_ticks(steps: &[u64]) -> (r: Option<u64>)
    ensures
        match r {
            Some(t) => median_step(steps@) == Some(t as u128),
            None => median_step(steps@) is None,
        },
{
    if steps.len() == 0 {
        return None;
    }
    let mut wide: Vec<u128> = Vec::new();
    let mut i: usize = 0;
    while i < steps.len()
        invariant
            i <= steps.len(),
            wide@ == widened(steps@.subrange(0, i as int)),
        decreases steps.len() - i,
    {
        wide.push(steps[i] as u128);
        assert(widened(steps@.subrange(0, i + 1)) =~= widened(steps@.subrange(0, i as int)).push(steps[i as int] as u128));
        i = i + 1;
    }
    assert(steps@.subrange(0, steps.len() as int) =~= steps@);
    let sorted = sorted_copy(wide.as_slice());
    proof {
        lemma_sorted_ascending_ensures(wide@);
    }
    let m = sorted[steps.len() / 2];
    proof {
        vstd::seq_lib::to_multiset_contains(sorted@, m);
        vstd::seq_lib::to_multiset_contains(wide@, m);
        assert(sorted@.contains(m));
        let k = choose|k: int| 0 <= k < wide@.len() && wide@[k] == m;
        assert(wide@[k] == steps@[k] as u128);
    }
    Some(m as u64)
}

} // verus!
