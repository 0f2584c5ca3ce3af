//! The window schedule of the coherence diagnostic: the run re-fits the
//! model on 20 growing prefixes of the descending-sorted sample list, the
//! i-th prefix holding `floor(i * total / 20)` samples.

use vstd::prelude::*;
use vstd::arithmetic::div_mod::lemma_div_is_ordered;
use vstd::arithmetic::mul::lemma_mul_inequality;

verus! {

/// Number of growing sample prefixes the diagnostic fits in one run.
pub const WINDOW_COUNT: usize = 20;

/// Length of the i-th (1-indexed) sample prefix out of `total` samples.
pub open spec fn spec_window_len(i: int, total: int) -> int {
    (i * total) / 20
}

proof fn lemma_window_len_le_total(i: int, total: int)
    requires
        1 <= i <= 20,
        0 <= total,
    ensures
        0 <= spec_window_len(i, total) <= total,
{
    lemma_mul_inequality(i, 20, total);
    lemma_div_is_ordered(i * total, 20 * total, 20);
    assert((20 * total) / 20 == total) by (nonlinear_arith);
    assert(i * total >= 0) by (nonlinear_arith)
        requires 1 <= i && 0 <= total;
}

/// Prefix lengths never shrink as the window index grows.
pub proof fn lemma_window_monotone(i: int, j: int, total: int)
    requires
        1 <= i <= j <= 20,
        0 <= total,
    ensures
        spec_window_len(i, total) <= spec_window_len(j, total),
{
    lemma_mul_inequality(i, j, total);
    lemma_div_is_ordered(i * total, j * total, 20);
}

/// The last window covers the whole sample list.
pub proof fn lemma_window_full(total: int)
    requires
        0 <= total,
    ensures
        spec_window_len(20, total) == total,
{
    assert((20 * total) / 20 == total) by (nonlinear_arith);
}

/// Number of samples in the i-th (1-indexed) of the 20 growing windows.
pub fn window_len(i: usize, total: usize) -> (r: usize)
    requires
        1 <= i <= WINDOW_COUNT,
        total <= usize::MAX / 20,
    ensures
        r == spec_window_len(i as int, total as int),
        r <= total,
{
    proof {
        lemma_mul_inequality(i as int, 20, total as int);
        lemma_window_len_le_total(i as int, total as int);
    }
    (i * total) / 20
}

/// All 20 prefix lengths, in window order: nondecreasing, ending at `total`.
pub fn window_schedule(total: usize) -> (r: Vec<usize>)
    requires
        total <= usize::MAX / 20,
    ensures
        r@.len() == WINDOW_COUNT,
        forall|j: int| 0 <= j < 20 ==> r@[j] == spec_window_len(j + 1, total as int),
        forall|j: int, k: int| 0 <= j <= k < 20 ==> r@[j] <= r@[k],
        r@[19] == total,
{
    let mut r: Vec<usize> = Vec::new();
    let mut i: usize = 1;
    while i <= WINDOW_COUNT
        invariant
            1 <= i <= 21,
            total <= usize::MAX / 20,
            r@.len() == i - 1,
            forall|j: int| 0 <= j < i - 1 ==> r@[j] == spec_window_len(j + 1, total as int),
        decreases 21 - i,
    {
        let w = window_len(i, total);
        r.push(w);
        i += 1;
    }
    proof {
        assert forall|j: int, k: int| 0 <= j <= k < 20 implies r@[j] <= r@[k] by {
            lemma_window_monotone(j + 1, k + 1, total as int);
        }
        lemma_window_full(total as int);
    }
    r
}

} // verus!
