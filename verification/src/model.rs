//! The meter as a mathematical state with one transition for each operation.
//!
//! Every executable operation of the meter is specified as the matching
//! transition here; the properties of the meter are stated over this model.
use crate::classify::GasStatement;
use crate::counter::Counter;
use crate::error::GasError;
use crate::table::{
    CostSchedule, INSTRUCTION_TIER_DEFAULT, STACK_HEIGHT_TIER_DEFAULT, STACK_SIZE_TIER_DEFAULT,
};
use vstd::prelude::*;

verus! {

/// The three resource counters of a meter with the schedule that prices them.
/// Nothing here depends on the gas that is left.
pub struct ResourceCounters {
    /// The schedule. It never changes.
    pub cost_table: CostSchedule,
    /// Height of the operand stack.
    pub stack_height: Counter,
    /// Abstract size of the operand stack.
    pub stack_size: Counter,
    /// Number of instructions executed.
    pub instructions: Counter,
}

impl ResourceCounters {
    /// Each counter is well-formed for its tier table; stack size and
    /// instruction count never shrink and so sit at their high-water marks.
    pub open spec fn wf(self) -> bool {
        &&& self.stack_height.wf(self.cost_table.stack_height_tiers, STACK_HEIGHT_TIER_DEFAULT)
        &&& self.stack_size.wf(self.cost_table.stack_size_tiers, STACK_SIZE_TIER_DEFAULT)
        &&& self.instructions.wf(self.cost_table.instruction_tiers, INSTRUCTION_TIER_DEFAULT)
        &&& self.stack_size.current == self.stack_size.high_water_mark
        &&& self.instructions.current == self.instructions.high_water_mark
    }

    /// All counters at zero.
    pub open spec fn start(cost_table: CostSchedule) -> ResourceCounters {
        ResourceCounters {
            cost_table,
            stack_height: Counter::start(cost_table.stack_height_tiers, STACK_HEIGHT_TIER_DEFAULT),
            stack_size: Counter::start(cost_table.stack_size_tiers, STACK_SIZE_TIER_DEFAULT),
            instructions: Counter::start(cost_table.instruction_tiers, INSTRUCTION_TIER_DEFAULT),
        }
    }

    /// The stack height raised by `pushes`.
    pub open spec fn push_stack(self, pushes: u64) -> ResourceCounters
        recommends
            self.stack_height.fits(pushes),
    {
        ResourceCounters {
            stack_height: self.stack_height.grow(
                self.cost_table.stack_height_tiers,
                STACK_HEIGHT_TIER_DEFAULT,
                pushes,
            ),
            ..self
        }
    }

    /// The instruction count raised by `amount`.
    pub open spec fn increase_instruction_count(self, amount: u64) -> ResourceCounters
        recommends
            self.instructions.fits(amount),
    {
        ResourceCounters {
            instructions: self.instructions.grow(
                self.cost_table.instruction_tiers,
                INSTRUCTION_TIER_DEFAULT,
                amount,
            ),
            ..self
        }
    }

    /// The stack size raised by `size_amount`.
    pub open spec fn increase_stack_size(self, size_amount: u64) -> ResourceCounters
        recommends
            self.stack_size.fits(size_amount),
    {
        ResourceCounters {
            stack_size: self.stack_size.grow(
                self.cost_table.stack_size_tiers,
                STACK_SIZE_TIER_DEFAULT,
                size_amount,
            ),
            ..self
        }
    }

    /// The stack height lowered by `pops`, stopping at zero.
    pub open spec fn pop_stack(self, pops: u64) -> ResourceCounters {
        ResourceCounters { stack_height: self.stack_height.shrink(pops), ..self }
    }

    /// All three counters can take their growth.
    pub open spec fn counters_fit(self, num_instructions: u64, pushes: u64, incr_size: u64) -> bool {
        &&& self.stack_height.fits(pushes)
        &&& self.instructions.fits(num_instructions)
        &&& self.stack_size.fits(incr_size)
    }

    /// The counters after the growth phases of a charge.
    pub open spec fn counted(
        self,
        num_instructions: u64,
        pushes: u64,
        incr_size: u64,
    ) -> ResourceCounters
        recommends
            self.counters_fit(num_instructions, pushes, incr_size),
    {
        self.push_stack(pushes).increase_instruction_count(num_instructions).increase_stack_size(
            incr_size,
        )
    }

    /// The exact cost of a charge: each growth times the multiplier that is in
    /// force for its counter once the counters have grown.
    pub open spec fn cost(self, num_instructions: u64, pushes: u64, incr_size: u64) -> int
        recommends
            self.counters_fit(num_instructions, pushes, incr_size),
    {
        let grown = self.counted(num_instructions, pushes, incr_size);
        grown.instructions.current_tier_mult * num_instructions + grown.stack_size.current_tier_mult
            * incr_size + grown.stack_height.current_tier_mult * pushes
    }

    /// A fresh set of counters is well-formed.
    pub proof fn lemma_start_wf(cost_table: CostSchedule)
        ensures
            Self::start(cost_table).wf(),
    {
    }

    /// Every phase of a charge keeps the counters well-formed.
    pub proof fn lemma_phases_wf(self, amount: u64)
        requires
            self.wf(),
        ensures
            self.stack_height.fits(amount) ==> self.push_stack(amount).wf(),
            self.instructions.fits(amount) ==> self.increase_instruction_count(amount).wf(),
            self.stack_size.fits(amount) ==> self.increase_stack_size(amount).wf(),
            self.pop_stack(amount).wf(),
    {
        if self.stack_height.fits(amount) {
            self.stack_height.lemma_grow_wf(
                self.cost_table.stack_height_tiers,
                STACK_HEIGHT_TIER_DEFAULT,
                amount,
            );
        }
        if self.instructions.fits(amount) {
            self.instructions.lemma_grow_wf(
                self.cost_table.instruction_tiers,
                INSTRUCTION_TIER_DEFAULT,
                amount,
            );
        }
        if self.stack_size.fits(amount) {
            self.stack_size.lemma_grow_wf(
                self.cost_table.stack_size_tiers,
                STACK_SIZE_TIER_DEFAULT,
                amount,
            );
        }
    }

    /// The growth phases together keep the counters well-formed, and a cost is
    /// never negative.
    pub proof fn lemma_counted_wf(self, num_instructions: u64, pushes: u64, incr_size: u64)
        requires
            self.wf(),
            self.counters_fit(num_instructions, pushes, incr_size),
        ensures
            self.counted(num_instructions, pushes, incr_size).wf(),
            self.cost(num_instructions, pushes, incr_size) >= 0,
    {
        self.lemma_phases_wf(pushes);
        let pushed = self.push_stack(pushes);
        pushed.lemma_phases_wf(num_instructions);
        let stepped = pushed.increase_instruction_count(num_instructions);
        stepped.lemma_phases_wf(incr_size);
        let grown = self.counted(num_instructions, pushes, incr_size);
        assert(grown.instructions.current_tier_mult * num_instructions >= 0) by (nonlinear_arith);
        assert(grown.stack_size.current_tier_mult * incr_size >= 0) by (nonlinear_arith);
        assert(grown.stack_height.current_tier_mult * pushes >= 0) by (nonlinear_arith);
    }
}

/// The state of a gas meter.
pub struct MeterView {
    /// The resource counters and their schedule.
    pub counters: ResourceCounters,
    /// The gas that is left of the budget.
    pub gas_left: u64,
    /// Whether costs are deducted from `gas_left`.
    pub metering: bool,
    /// Gas recorded as spent on execution.
    pub execution_gas_used: u64,
    /// Gas recorded as spent on storage.
    pub storage_gas_used: u64,
}

impl MeterView {
    /// The counters are well-formed.
    pub open spec fn wf(self) -> bool {
        self.counters.wf()
    }

    /// A meter at the start of a transaction.
    pub open spec fn start(cost_table: CostSchedule, budget: u64, metering: bool) -> MeterView {
        MeterView {
            counters: ResourceCounters::start(cost_table),
            gas_left: budget,
            metering,
            execution_gas_used: 0,
            storage_gas_used: 0,
        }
    }

    /// Raises the stack height by `pushes`; fails, changing nothing, where the
    /// height would not fit in 64 bits.
    pub open spec fn push_stack(self, pushes: u64) -> (MeterView, Result<(), GasError>) {
        if self.counters.stack_height.fits(pushes) {
            (MeterView { counters: self.counters.push_stack(pushes), ..self }, Ok(()))
        } else {
            (self, Err(GasError::ArithmeticError))
        }
    }

    /// Raises the instruction count by `amount`; fails, changing nothing, where
    /// the count would not fit in 64 bits.
    pub open spec fn increase_instruction_count(self, amount: u64) -> (
        MeterView,
        Result<(), GasError>,
    ) {
        if self.counters.instructions.fits(amount) {
            (MeterView { counters: self.counters.increase_instruction_count(amount), ..self }, Ok(()))
        } else {
            (self, Err(GasError::ArithmeticError))
        }
    }

    /// Raises the stack size by `size_amount`; fails, changing nothing, where the
    /// size would not fit in 64 bits.
    pub open spec fn increase_stack_size(self, size_amount: u64) -> (
        MeterView,
        Result<(), GasError>,
    ) {
        if self.counters.stack_size.fits(size_amount) {
            (MeterView { counters: self.counters.increase_stack_size(size_amount), ..self }, Ok(()))
        } else {
            (self, Err(GasError::ArithmeticError))
        }
    }

    /// Lowers the stack height by `pops`, stopping at zero.
    pub open spec fn pop_stack(self, pops: u64) -> MeterView {
        MeterView { counters: self.counters.pop_stack(pops), ..self }
    }

    /// Takes `amount` from the gas that is left. With metering off nothing
    /// happens. Where `amount` exceeds what is left, nothing is left afterwards
    /// and the deduction fails.
    pub open spec fn deduct_gas(self, amount: u64) -> (MeterView, Result<(), GasError>) {
        if !self.metering {
            (self, Ok(()))
        } else if amount <= self.gas_left {
            (MeterView { gas_left: (self.gas_left - amount) as u64, ..self }, Ok(()))
        } else {
            (MeterView { gas_left: 0, ..self }, Err(GasError::OutOfGas))
        }
    }

    /// One charge. The counters grow first, in the order stack height,
    /// instruction count, stack size, and the first that does not fit ends the
    /// charge with an arithmetic error, the earlier ones having grown. The
    /// cost is then priced with the multipliers in force after the growth; a
    /// cost beyond 64 bits is an arithmetic error. The cost is deducted, which
    /// can fail for want of gas. Only a successful charge pops. The outgoing
    /// size `decr_size` belongs to the description of an operation but is
    /// neither priced nor tracked.
    pub open spec fn charge(
        self,
        num_instructions: u64,
        pushes: u64,
        pops: u64,
        incr_size: u64,
        decr_size: u64,
    ) -> (MeterView, Result<u64, GasError>) {
        let (pushed, r1) = self.push_stack(pushes);
        let (stepped, r2) = pushed.increase_instruction_count(num_instructions);
        let (sized, r3) = stepped.increase_stack_size(incr_size);
        let cost = self.counters.cost(num_instructions, pushes, incr_size);
        if r1 is Err {
            (pushed, Err(GasError::ArithmeticError))
        } else if r2 is Err {
            (stepped, Err(GasError::ArithmeticError))
        } else if r3 is Err {
            (sized, Err(GasError::ArithmeticError))
        } else if cost > u64::MAX {
            (sized, Err(GasError::ArithmeticError))
        } else {
            let (paid, r4) = sized.deduct_gas(cost as u64);
            if r4 is Err {
                (paid, Err(GasError::OutOfGas))
            } else {
                (paid.pop_stack(pops), Ok(cost as u64))
            }
        }
    }

    /// The classification totals.
    pub open spec fn gas_statement(self) -> GasStatement {
        GasStatement {
            execution_gas_used: self.execution_gas_used,
            storage_gas_used: self.storage_gas_used,
        }
    }

    /// Adds `gas_cost` to the execution total, which stays at `u64::MAX` once it
    /// has reached it.
    pub open spec fn charge_execution(self, gas_cost: u64) -> MeterView {
        MeterView {
            execution_gas_used: self.gas_statement().with_execution(gas_cost).execution_gas_used,
            ..self
        }
    }

    /// One charge whose cost, on success, is recorded as execution gas.
    pub open spec fn charge_internal_execution(
        self,
        num_instructions: u64,
        pushes: u64,
        pops: u64,
        incr_size: u64,
        decr_size: u64,
    ) -> (MeterView, Result<(), GasError>) {
        let (charged, r) = self.charge(num_instructions, pushes, pops, incr_size, decr_size);
        match r {
            Ok(gas_cost) => (charged.charge_execution(gas_cost), Ok(())),
            Err(e) => (charged, Err(e)),
        }
    }

    /// The charge after a native call has returned: the stack grows by what was
    /// returned, without counting an instruction, and the cost of that growth is
    /// recorded as execution gas; then the amount that the native function asks
    /// for is deducted. That amount is not classified.
    pub open spec fn charge_native_function(self, amount: u64, pushes: u64, size_increase: u64) -> (
        MeterView,
        Result<(), GasError>,
    ) {
        let (charged, r) = self.charge(0, pushes, 0, size_increase, 0);
        match r {
            Ok(gas_cost) => charged.charge_execution(gas_cost).deduct_gas(amount),
            Err(e) => (charged, Err(e)),
        }
    }

    /// Turns deduction on or off.
    pub open spec fn set_metering(self, enabled: bool) -> MeterView {
        MeterView { metering: enabled, ..self }
    }

    /// Every counter phase keeps the meter well-formed.
    pub proof fn lemma_counting_wf(self, amount: u64)
        requires
            self.wf(),
        ensures
            self.push_stack(amount).0.wf(),
            self.increase_instruction_count(amount).0.wf(),
            self.increase_stack_size(amount).0.wf(),
            self.pop_stack(amount).wf(),
            self.deduct_gas(amount).0.wf(),
    {
        self.counters.lemma_phases_wf(amount);
    }

    /// A charge keeps the meter well-formed, whatever its outcome.
    pub proof fn lemma_charge_wf(
        self,
        num_instructions: u64,
        pushes: u64,
        pops: u64,
        incr_size: u64,
        decr_size: u64,
    )
        requires
            self.wf(),
        ensures
            self.charge(num_instructions, pushes, pops, incr_size, decr_size).0.wf(),
            self.charge_internal_execution(
                num_instructions,
                pushes,
                pops,
                incr_size,
                decr_size,
            ).0.wf(),
    {
        self.counters.lemma_phases_wf(pushes);
        if self.counters.stack_height.fits(pushes) {
            let pushed = self.counters.push_stack(pushes);
            pushed.lemma_phases_wf(num_instructions);
            if pushed.instructions.fits(num_instructions) {
                let stepped = pushed.increase_instruction_count(num_instructions);
                stepped.lemma_phases_wf(incr_size);
                if stepped.stack_size.fits(incr_size) {
                    stepped.increase_stack_size(incr_size).lemma_phases_wf(pops);
                }
            }
        }
    }
}

} // verus!
