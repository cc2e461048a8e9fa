//! The cost schedule: one tier table for each priced dimension.
use crate::tier::{
    lemma_multiplier_at_floor, lemma_multiplier_below_all, lemma_next_above_all, lemma_next_at,
    next_tier_start, tier_multiplier,
};
use std::collections::BTreeMap;
use vstd::prelude::*;
use vstd::std_specs::iter::IteratorSpec;

verus! {

/// Multiplier for instruction counts below every breakpoint of the schedule.
pub const INSTRUCTION_TIER_DEFAULT: u64 = 1;

/// Multiplier for stack heights below every breakpoint of the schedule.
pub const STACK_HEIGHT_TIER_DEFAULT: u64 = 1;

/// Multiplier for stack sizes below every breakpoint of the schedule.
pub const STACK_SIZE_TIER_DEFAULT: u64 = 1;

/// The three tier tables of a schedule as mathematical maps.
pub struct CostSchedule {
    pub instruction_tiers: Map<u64, u64>,
    pub stack_height_tiers: Map<u64, u64>,
    pub stack_size_tiers: Map<u64, u64>,
}

impl CostSchedule {
    /// Multiplier and next breakpoint for an instruction count.
    pub open spec fn instruction_tier(self, instr_count: u64) -> (u64, Option<u64>) {
        (
            tier_multiplier(self.instruction_tiers, instr_count, INSTRUCTION_TIER_DEFAULT),
            next_tier_start(self.instruction_tiers, instr_count),
        )
    }

    /// Multiplier and next breakpoint for a stack height.
    pub open spec fn stack_height_tier(self, stack_height: u64) -> (u64, Option<u64>) {
        (
            tier_multiplier(self.stack_height_tiers, stack_height, STACK_HEIGHT_TIER_DEFAULT),
            next_tier_start(self.stack_height_tiers, stack_height),
        )
    }

    /// Multiplier and next breakpoint for a stack size.
    pub open spec fn stack_size_tier(self, stack_size: u64) -> (u64, Option<u64>) {
        (
            tier_multiplier(self.stack_size_tiers, stack_size, STACK_SIZE_TIER_DEFAULT),
            next_tier_start(self.stack_size_tiers, stack_size),
        )
    }
}

/// A cost schedule: for each of instruction count, stack height and stack size
/// a table from breakpoints to unit multipliers.
#[derive(Debug, PartialEq, Eq)]
pub struct CostTable {
    pub instruction_tiers: BTreeMap<u64, u64>,
    pub stack_height_tiers: BTreeMap<u64, u64>,
    pub stack_size_tiers: BTreeMap<u64, u64>,
}

impl View for CostTable {
    type V = CostSchedule;

    open spec fn view(&self) -> CostSchedule {
        CostSchedule {
            instruction_tiers: self.instruction_tiers@,
            stack_height_tiers: self.stack_height_tiers@,
            stack_size_tiers: self.stack_size_tiers@,
        }
    }
}

impl Clone for CostTable {
    fn clone(&self) -> (r: Self)
        ensures
            r@ == self@,
    {
        CostTable {
            instruction_tiers: self.instruction_tiers.clone(),
            stack_height_tiers: self.stack_height_tiers.clone(),
            stack_size_tiers: self.stack_size_tiers.clone(),
        }
    }
}

impl CostTable {
    /// Looks up the tier that `current` falls into: the multiplier of the largest
    /// breakpoint not above `current` (or `default` when there is none) together
    /// with the smallest breakpoint strictly above `current`, if any.
    pub fn get_current_and_future_tier(
        tiers: &BTreeMap<u64, u64>,
        current: u64,
        default: u64,
    ) -> (r: (u64, Option<u64>))
        ensures
            r.0 == tier_multiplier(tiers@, current, default),
            r.1 == next_tier_start(tiers@, current),
    {
        let mut floor: Option<(u64, u64)> = None;
        let mut next: Option<u64> = None;
        for kv in it: tiers.iter()
            invariant
                it.seq() == tiers.iter().remaining(),
                floor matches Some((k, v)) ==> {
                    &&& tiers@.contains_key(k)
                    &&& tiers@[k] == v
                    &&& k <= current
                    &&& forall|j: int|
                        0 <= j < it.index() && *it.seq()[j].0 <= current ==> *it.seq()[j].0 <= k
                },
                floor is None ==> forall|j: int| 0 <= j < it.index() ==> *it.seq()[j].0 > current,
                next matches Some(k) ==> {
                    &&& tiers@.contains_key(k)
                    &&& k > current
                    &&& forall|j: int|
                        0 <= j < it.index() && *it.seq()[j].0 > current ==> k <= *it.seq()[j].0
                },
                next is None ==> forall|j: int| 0 <= j < it.index() ==> *it.seq()[j].0 <= current,
        {
            let (k, v) = kv;
            if *k <= current {
                let better = match floor {
                    Some((fk, _)) => fk < *k,
                    None => true,
                };
                if better {
                    floor = Some((*k, *v));
                }
            } else {
                let better = match next {
                    Some(nk) => *k < nk,
                    None => true,
                };
                if better {
                    next = Some(*k);
                }
            }
        }
        proof {
            let seq = tiers.iter().remaining();
            assert forall|key: u64| tiers@.contains_key(key) implies exists|j: int|
                0 <= j < seq.len() && *seq[j].0 == key by {
                assert(seq.contains((&key, &tiers@[key])));
            }
            match floor {
                Some((k, _)) => {
                    lemma_multiplier_at_floor(tiers@, current, default, k);
                },
                None => {
                    lemma_multiplier_below_all(tiers@, current, default);
                },
            }
            match next {
                Some(k) => {
                    lemma_next_at(tiers@, current, k);
                },
                None => {
                    lemma_next_above_all(tiers@, current);
                },
            }
        }
        match floor {
            Some((_, v)) => (v, next),
            None => (default, next),
        }
    }

    /// Multiplier and next breakpoint for an instruction count.
    pub fn instruction_tier(&self, instr_count: u64) -> (r: (u64, Option<u64>))
        ensures
            r == self@.instruction_tier(instr_count),
    {
        Self::get_current_and_future_tier(
            &self.instruction_tiers,
            instr_count,
            INSTRUCTION_TIER_DEFAULT,
        )
    }

    /// Multiplier and next breakpoint for a stack height.
    pub fn stack_height_tier(&self, stack_height: u64) -> (r: (u64, Option<u64>))
        ensures
            r == self@.stack_height_tier(stack_height),
    {
        Self::get_current_and_future_tier(
            &self.stack_height_tiers,
            stack_height,
            STACK_HEIGHT_TIER_DEFAULT,
        )
    }

    /// Multiplier and next breakpoint for a stack size.
    pub fn stack_size_tier(&self, stack_size: u64) -> (r: (u64, Option<u64>))
        ensures
            r == self@.stack_size_tier(stack_size),
    {
        Self::get_current_and_future_tier(
            &self.stack_size_tiers,
            stack_size,
            STACK_SIZE_TIER_DEFAULT,
        )
    }
}

/// Instruction-count tiers of the production schedule.
pub open spec fn initial_instruction_tiers() -> Map<u64, u64> {
    map![
        0u64 => 1u64,
        3000u64 => 2u64,
        6000u64 => 3u64,
        8000u64 => 5u64,
        9000u64 => 9u64,
        9500u64 => 16u64,
        10000u64 => 29u64,
        10500u64 => 50u64,
        15000u64 => 100u64,
    ]
}

/// Stack-height tiers of the production schedule.
pub open spec fn initial_stack_height_tiers() -> Map<u64, u64> {
    map![
        0u64 => 1u64,
        400u64 => 2u64,
        800u64 => 3u64,
        1200u64 => 5u64,
        1500u64 => 9u64,
        1800u64 => 16u64,
        2000u64 => 29u64,
        2200u64 => 50u64,
        5000u64 => 100u64,
    ]
}

/// Stack-size tiers of the production schedule.
pub open spec fn initial_stack_size_tiers() -> Map<u64, u64> {
    map![
        0u64 => 1u64,
        2000u64 => 2u64,
        5000u64 => 3u64,
        8000u64 => 5u64,
        10000u64 => 9u64,
        11000u64 => 16u64,
        11500u64 => 50u64,
        20000u64 => 100u64,
    ]
}

/// The production schedule.
pub open spec fn initial_schedule() -> CostSchedule {
    CostSchedule {
        instruction_tiers: initial_instruction_tiers(),
        stack_height_tiers: initial_stack_height_tiers(),
        stack_size_tiers: initial_stack_size_tiers(),
    }
}

/// The unmetered schedule: every dimension costs nothing at every counter value.
pub open spec fn zero_schedule() -> CostSchedule {
    CostSchedule {
        instruction_tiers: map![0u64 => 0u64],
        stack_height_tiers: map![0u64 => 0u64],
        stack_size_tiers: map![0u64 => 0u64],
    }
}

/// Builds the production schedule.
pub fn initial_cost_schedule() -> (r: CostTable)
    ensures
        r@ == initial_schedule(),
{
    let mut instruction_tiers: BTreeMap<u64, u64> = BTreeMap::new();
    instruction_tiers.insert(0, 1);
    instruction_tiers.insert(3000, 2);
    instruction_tiers.insert(6000, 3);
    instruction_tiers.insert(8000, 5);
    instruction_tiers.insert(9000, 9);
    instruction_tiers.insert(9500, 16);
    instruction_tiers.insert(10000, 29);
    instruction_tiers.insert(10500, 50);
    instruction_tiers.insert(15000, 100);

    let mut stack_height_tiers: BTreeMap<u64, u64> = BTreeMap::new();
    stack_height_tiers.insert(0, 1);
    stack_height_tiers.insert(400, 2);
    stack_height_tiers.insert(800, 3);
    stack_height_tiers.insert(1200, 5);
    stack_height_tiers.insert(1500, 9);
    stack_height_tiers.insert(1800, 16);
    stack_height_tiers.insert(2000, 29);
    stack_height_tiers.insert(2200, 50);
    stack_height_tiers.insert(5000, 100);

    // The breakpoint 11500 is entered twice; the later multiplier stays.
    let mut stack_size_tiers: BTreeMap<u64, u64> = BTreeMap::new();
    stack_size_tiers.insert(0, 1);
    stack_size_tiers.insert(2000, 2);
    stack_size_tiers.insert(5000, 3);
    stack_size_tiers.insert(8000, 5);
    stack_size_tiers.insert(10000, 9);
    stack_size_tiers.insert(11000, 16);
    stack_size_tiers.insert(11500, 29);
    stack_size_tiers.insert(11500, 50);
    stack_size_tiers.insert(20000, 100);

    assert(instruction_tiers@ =~= initial_instruction_tiers());
    assert(stack_height_tiers@ =~= initial_stack_height_tiers());
    assert(stack_size_tiers@ =~= initial_stack_size_tiers());
    CostTable { instruction_tiers, stack_size_tiers, stack_height_tiers }
}

/// Builds the unmetered schedule.
pub fn zero_cost_schedule() -> (r: CostTable)
    ensures
        r@ == zero_schedule(),
{
    let mut zero_tier: BTreeMap<u64, u64> = BTreeMap::new();
    zero_tier.insert(0, 0);
    CostTable {
        instruction_tiers: zero_tier.clone(),
        stack_size_tiers: zero_tier.clone(),
        stack_height_tiers: zero_tier,
    }
}

/// Under the unmetered schedule every lookup yields multiplier 0 and no next
/// breakpoint.
pub proof fn lemma_zero_schedule_is_flat(x: u64, default: u64)
    ensures
        tier_multiplier(map![0u64 => 0u64], x, default) == 0,
        next_tier_start(map![0u64 => 0u64], x) is None,
{
    let tiers = map![0u64 => 0u64];
    assert(tiers.contains_key(0));
    assert(crate::tier::is_floor_key(tiers, x, 0));
    lemma_multiplier_at_floor(tiers, x, default, 0);
    lemma_next_above_all(tiers, x);
}

} // verus!
