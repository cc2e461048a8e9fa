//! A resource counter with its high-water mark and the cached tier it is in.
//!
//! The cache is refreshed only when the counter passes the cached next
//! breakpoint, so that the common update is one addition and one comparison.
use crate::tier::{
    lemma_next_tier_start_meaning, lemma_tier_stable, next_tier_start, no_key_within,
    tier_multiplier,
};
use vstd::prelude::*;

verus! {

/// A running counter, the maximum it has reached, and the tier cached for it.
#[derive(Clone, Copy, Debug)]
pub struct Counter {
    /// The present value.
    pub current: u64,
    /// The largest value reached so far.
    pub high_water_mark: u64,
    /// The breakpoint at which the cached multiplier stops being valid.
    pub next_tier_start: Option<u64>,
    /// The multiplier charged per unit of growth.
    pub current_tier_mult: u64,
}

impl Counter {
    /// The cache is what a lookup at the high-water mark yields.
    pub open spec fn in_sync(self, tiers: Map<u64, u64>, default: u64) -> bool {
        &&& self.current_tier_mult == tier_multiplier(tiers, self.high_water_mark, default)
        &&& self.next_tier_start == next_tier_start(tiers, self.high_water_mark)
    }

    /// The high-water mark rests exactly on the cached next breakpoint, which has
    /// not been passed yet: the cache is what a lookup just below it yields.
    pub open spec fn on_breakpoint(self, tiers: Map<u64, u64>, default: u64) -> bool {
        &&& self.high_water_mark >= 1
        &&& self.next_tier_start == Some(self.high_water_mark)
        &&& self.current_tier_mult == tier_multiplier(
            tiers,
            (self.high_water_mark - 1) as u64,
            default,
        )
        &&& next_tier_start(tiers, (self.high_water_mark - 1) as u64) == Some(
            self.high_water_mark,
        )
    }

    /// The high-water mark rests on the cached next breakpoint, and that
    /// breakpoint changes the multiplier: the new multiplier is not charged
    /// before the counter has passed the breakpoint.
    pub open spec fn awaits_breakpoint(self, tiers: Map<u64, u64>) -> bool {
        &&& self.next_tier_start == Some(self.high_water_mark)
        &&& tiers[self.high_water_mark] != self.current_tier_mult
    }

    /// Well-formedness with respect to the tier table that prices this counter:
    /// the value never exceeds its high-water mark, and the cache belongs to the
    /// high-water mark, refreshed strictly after each breakpoint.
    pub open spec fn wf(self, tiers: Map<u64, u64>, default: u64) -> bool {
        &&& self.current <= self.high_water_mark
        &&& (self.in_sync(tiers, default) || self.on_breakpoint(tiers, default))
    }

    /// A counter at zero with the tier of zero cached.
    pub open spec fn start(tiers: Map<u64, u64>, default: u64) -> Counter {
        Counter {
            current: 0,
            high_water_mark: 0,
            next_tier_start: next_tier_start(tiers, 0),
            current_tier_mult: tier_multiplier(tiers, 0, default),
        }
    }

    /// Growth by `delta` stays within 64 bits.
    pub open spec fn fits(self, delta: u64) -> bool {
        self.current + delta <= u64::MAX
    }

    /// The counter after growth by `delta`: the value is raised, the high-water
    /// mark follows it, and the cache is looked up anew if and only if the new
    /// value lies strictly above the cached next breakpoint.
    pub open spec fn grow(self, tiers: Map<u64, u64>, default: u64, delta: u64) -> Counter
        recommends
            self.fits(delta),
    {
        let value = (self.current + delta) as u64;
        let mark = if value > self.high_water_mark {
            value
        } else {
            self.high_water_mark
        };
        if self.next_tier_start is Some && value > self.next_tier_start->0 {
            Counter {
                current: value,
                high_water_mark: mark,
                next_tier_start: next_tier_start(tiers, value),
                current_tier_mult: tier_multiplier(tiers, value, default),
            }
        } else {
            Counter { current: value, high_water_mark: mark, ..self }
        }
    }

    /// The counter after release of `amount`, clamped at zero. Mark and cache stay.
    pub open spec fn shrink(self, amount: u64) -> Counter {
        Counter {
            current: if amount >= self.current {
                0
            } else {
                (self.current - amount) as u64
            },
            ..self
        }
    }

    /// Growth keeps a counter well-formed, and a counter that sits at its
    /// high-water mark stays there.
    pub proof fn lemma_grow_wf(self, tiers: Map<u64, u64>, default: u64, delta: u64)
        requires
            self.wf(tiers, default),
            self.fits(delta),
        ensures
            self.grow(tiers, default, delta).wf(tiers, default),
            self.current == self.high_water_mark ==> self.grow(tiers, default, delta).current
                == self.grow(tiers, default, delta).high_water_mark,
            self.grow(tiers, default, delta).current == self.current + delta,
            self.grow(tiers, default, delta).high_water_mark == if self.current + delta
                > self.high_water_mark {
                self.current + delta
            } else {
                self.high_water_mark as int
            },
    {
        let value = (self.current + delta) as u64;
        let mark = self.high_water_mark;
        lemma_next_tier_start_meaning(tiers, mark);
        if self.next_tier_start is Some && value > self.next_tier_start->0 {
            // looked up anew at the new value, which is the new high-water mark
        } else if value > mark {
            // the mark moves without passing the cached breakpoint
            assert(self.in_sync(tiers, default));
            match self.next_tier_start {
                Some(n) => {
                    if value == n {
                        assert(no_key_within(tiers, mark, (value - 1) as u64));
                        lemma_tier_stable(tiers, default, mark, (value - 1) as u64);
                    } else {
                        assert(no_key_within(tiers, mark, value));
                        lemma_tier_stable(tiers, default, mark, value);
                    }
                },
                None => {
                    assert(no_key_within(tiers, mark, value));
                    lemma_tier_stable(tiers, default, mark, value);
                },
            }
        }
    }
}

} // verus!
