//! Sums of abstract memory sizes. A sum that does not fit in 64 bits stays at
//! `u64::MAX`.
use vstd::prelude::*;

verus! {

/// The exact sum of `sizes`.
pub open spec fn sum_of(sizes: Seq<u64>) -> nat
    decreases sizes.len(),
{
    if sizes.len() == 0 {
        0
    } else {
        sum_of(sizes.drop_last()) + sizes.last() as nat
    }
}

/// `x` where it fits in 64 bits, `u64::MAX` otherwise.
pub open spec fn clamped(x: int) -> u64 {
    if x <= u64::MAX {
        x as u64
    } else {
        u64::MAX
    }
}

/// A sum grows by its last element.
pub proof fn lemma_sum_of_prefix(sizes: Seq<u64>, i: int)
    requires
        0 <= i < sizes.len(),
    ensures
        sum_of(sizes.take(i + 1)) == sum_of(sizes.take(i)) + sizes[i],
{
    assert(sizes.take(i + 1).drop_last() =~= sizes.take(i));
}

/// The abstract size of `sizes` taken together, on top of `seed`.
pub fn total_abstract_size(seed: u64, sizes: &[u64]) -> (total: u64)
    ensures
        total == clamped(seed + sum_of(sizes@)),
{
    let mut total: u64 = seed;
    let mut i: usize = 0;
    while i < sizes.len()
        invariant
            i <= sizes.len(),
            total == clamped(seed + sum_of(sizes@.take(i as int))),
        decreases sizes.len() - i,
    {
        proof {
            lemma_sum_of_prefix(sizes@, i as int);
        }
        total = total.saturating_add(sizes[i]);
        i += 1;
    }
    assert(sizes@.take(i as int) =~= sizes@);
    total
}

} // verus!
