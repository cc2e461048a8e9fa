//! Tier tables: piecewise-constant price curves over a cumulative counter.
//!
//! A tier table maps breakpoints of a counter to unit multipliers. A lookup at
//! counter value `x` yields the multiplier stored under the largest breakpoint
//! not above `x` and the smallest breakpoint strictly above `x`.
use vstd::prelude::*;

verus! {

/// `k` is the largest key of `tiers` that does not exceed `x`.
pub open spec fn is_floor_key(tiers: Map<u64, u64>, x: u64, k: u64) -> bool {
    &&& tiers.contains_key(k)
    &&& k <= x
    &&& forall|j: u64| tiers.contains_key(j) && j <= x ==> j <= k
}

/// `k` is the smallest key of `tiers` strictly above `x`.
pub open spec fn is_next_key(tiers: Map<u64, u64>, x: u64, k: u64) -> bool {
    &&& tiers.contains_key(k)
    &&& k > x
    &&& forall|j: u64| tiers.contains_key(j) && j > x ==> k <= j
}

/// The unit multiplier in force at counter value `x`: the value stored under the
/// largest key not above `x`, or `default` when every key lies above `x`.
pub open spec fn tier_multiplier(tiers: Map<u64, u64>, x: u64, default: u64) -> u64 {
    if exists|k: u64| is_floor_key(tiers, x, k) {
        tiers[choose|k: u64| is_floor_key(tiers, x, k)]
    } else {
        default
    }
}

/// The next breakpoint after counter value `x`: the smallest key strictly above
/// `x`, or `None` when `x` already lies in the last tier.
pub open spec fn next_tier_start(tiers: Map<u64, u64>, x: u64) -> Option<u64> {
    if exists|k: u64| is_next_key(tiers, x, k) {
        Some(choose|k: u64| is_next_key(tiers, x, k))
    } else {
        None
    }
}

/// No key of `tiers` lies in the half-open interval `(lo, hi]`.
pub open spec fn no_key_within(tiers: Map<u64, u64>, lo: u64, hi: u64) -> bool {
    forall|j: u64| tiers.contains_key(j) ==> !(lo < j && j <= hi)
}

/// A floor key, when one exists, is unique and fixes the multiplier.
pub proof fn lemma_multiplier_at_floor(tiers: Map<u64, u64>, x: u64, default: u64, k: u64)
    requires
        is_floor_key(tiers, x, k),
    ensures
        tier_multiplier(tiers, x, default) == tiers[k],
{
    let c = choose|c: u64| is_floor_key(tiers, x, c);
    assert(c <= k && k <= c);
}

/// With every key above `x` the multiplier is the default.
pub proof fn lemma_multiplier_below_all(tiers: Map<u64, u64>, x: u64, default: u64)
    requires
        forall|j: u64| tiers.contains_key(j) ==> j > x,
    ensures
        tier_multiplier(tiers, x, default) == default,
{
}

/// A next key, when one exists, is unique.
pub proof fn lemma_next_at(tiers: Map<u64, u64>, x: u64, k: u64)
    requires
        is_next_key(tiers, x, k),
    ensures
        next_tier_start(tiers, x) == Some(k),
{
    let c = choose|c: u64| is_next_key(tiers, x, c);
    assert(c <= k && k <= c);
}

/// With no key above `x` there is no next breakpoint.
pub proof fn lemma_next_above_all(tiers: Map<u64, u64>, x: u64)
    requires
        forall|j: u64| tiers.contains_key(j) ==> j <= x,
    ensures
        next_tier_start(tiers, x) is None,
{
}

/// Among the keys above `x` there is a smallest one as soon as there is any.
pub proof fn lemma_next_key_exists(tiers: Map<u64, u64>, x: u64, j: u64)
    requires
        tiers.contains_key(j),
        j > x,
    ensures
        exists|k: u64| is_next_key(tiers, x, k),
    decreases j,
{
    if forall|i: u64| tiers.contains_key(i) && i > x ==> j <= i {
        assert(is_next_key(tiers, x, j));
    } else {
        let i = choose|i: u64| tiers.contains_key(i) && i > x && i < j;
        lemma_next_key_exists(tiers, x, i);
    }
}

/// A reported next breakpoint is a key above `x` with no key in between; a
/// missing one means that no key lies above `x`.
pub proof fn lemma_next_tier_start_meaning(tiers: Map<u64, u64>, x: u64)
    ensures
        match next_tier_start(tiers, x) {
            Some(n) => is_next_key(tiers, x, n) && (n > 0 ==> no_key_within(tiers, x, (n - 1) as u64)),
            None => forall|j: u64| tiers.contains_key(j) ==> j <= x,
        },
{
    if next_tier_start(tiers, x) is None {
        assert forall|j: u64| tiers.contains_key(j) implies j <= x by {
            if j > x {
                lemma_next_key_exists(tiers, x, j);
            }
        }
    }
}

/// A lookup gives the same answer at both ends of an interval that holds no key.
pub proof fn lemma_tier_stable(tiers: Map<u64, u64>, default: u64, lo: u64, hi: u64)
    requires
        lo <= hi,
        no_key_within(tiers, lo, hi),
    ensures
        tier_multiplier(tiers, hi, default) == tier_multiplier(tiers, lo, default),
        next_tier_start(tiers, hi) == next_tier_start(tiers, lo),
{
    if exists|k: u64| is_floor_key(tiers, lo, k) {
        let k = choose|k: u64| is_floor_key(tiers, lo, k);
        assert(is_floor_key(tiers, hi, k));
        lemma_multiplier_at_floor(tiers, hi, default, k);
    } else if exists|k: u64| is_floor_key(tiers, hi, k) {
        let k = choose|k: u64| is_floor_key(tiers, hi, k);
        assert(is_floor_key(tiers, lo, k));
    }
    if exists|k: u64| is_next_key(tiers, lo, k) {
        let k = choose|k: u64| is_next_key(tiers, lo, k);
        assert(is_next_key(tiers, hi, k));
        lemma_next_at(tiers, hi, k);
    } else if exists|k: u64| is_next_key(tiers, hi, k) {
        let k = choose|k: u64| is_next_key(tiers, hi, k);
        assert(is_next_key(tiers, lo, k));
    }
}

/// At a key of the table the multiplier is the value stored under that key.
pub proof fn lemma_multiplier_at_key(tiers: Map<u64, u64>, default: u64, k: u64)
    requires
        tiers.contains_key(k),
    ensures
        tier_multiplier(tiers, k, default) == tiers[k],
{
    assert(is_floor_key(tiers, k, k));
    lemma_multiplier_at_floor(tiers, k, default, k);
}

} // verus!
