//! The cost of one charge, split by priced dimension.
use vstd::prelude::*;

verus! {

/// The gas charged for one operation:
/// - instruction gas: the computational effort of the instruction,
/// - memory gas: the growth of the operand stack in abstract memory units,
/// - stack height gas: the growth of the operand stack in entries.
#[derive(Clone, Copy, Debug, PartialEq, Eq, Structural)]
pub struct GasCost {
    pub instruction_gas: u64,
    pub memory_gas: u64,
    pub stack_height_gas: u64,
}

impl GasCost {
    /// The exact sum of the three components.
    pub open spec fn sum(self) -> int {
        self.instruction_gas + self.memory_gas + self.stack_height_gas
    }

    pub fn new(instruction_gas: u64, memory_gas: u64, stack_height_gas: u64) -> (r: Self)
        ensures
            r.instruction_gas == instruction_gas,
            r.memory_gas == memory_gas,
            r.stack_height_gas == stack_height_gas,
    {
        Self { instruction_gas, memory_gas, stack_height_gas }
    }

    /// The total charge, clamped to `u64::MAX` where the exact sum is larger.
    pub fn total(&self) -> (t: u64)
        ensures
            t == if self.sum() <= u64::MAX { self.sum() } else { u64::MAX as int },
    {
        self.instruction_gas.saturating_add(self.memory_gas).saturating_add(self.stack_height_gas)
    }

    /// The total charge, or `None` where the exact sum does not fit in 64 bits.
    pub fn checked_total(&self) -> (t: Option<u64>)
        ensures
            t == if self.sum() <= u64::MAX { Some(self.sum() as u64) } else { None::<u64> },
    {
        match self.instruction_gas.checked_add(self.memory_gas) {
            Some(partial) => partial.checked_add(self.stack_height_gas),
            None => None,
        }
    }
}

} // verus!
