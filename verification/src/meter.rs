//! The gas meter: resource counters, the charge engine, and the budget.
use crate::classify::{ClassifiedGasMeter, GasStatement};
use crate::cost::GasCost;
use crate::counter::Counter;
use crate::error::GasError;
use crate::model::{MeterView, ResourceCounters};
use crate::switch::SwitchableGasMeter;
use crate::table::{
    lemma_zero_schedule_is_flat, zero_cost_schedule, zero_schedule, CostTable,
    INSTRUCTION_TIER_DEFAULT, STACK_HEIGHT_TIER_DEFAULT, STACK_SIZE_TIER_DEFAULT,
};
use move_core_types::effects::ChangeSet;
use vstd::prelude::*;

verus! {

/// A tiered gas meter for one transaction.
///
/// It is created with a schedule and a budget, charged once for every step of
/// the virtual machine, and read out at the end.
#[derive(Debug)]
pub struct MoveOSGasMeter {
    cost_table: CostTable,
    gas_left: u64,
    charge: bool,
    execution_gas_used: u64,
    storage_gas_used: u64,
    // The height of the operand stack, and the maximal height that it has reached.
    stack_height: Counter,
    // The (abstract) size of the operand stack and the maximal size that it has reached.
    stack_size: Counter,
    // The total number of bytecode instructions that have been executed in the transaction.
    instructions: Counter,
}

impl View for MoveOSGasMeter {
    type V = MeterView;

    closed spec fn view(&self) -> MeterView {
        MeterView {
            counters: ResourceCounters {
                cost_table: self.cost_table@,
                stack_height: self.stack_height,
                stack_size: self.stack_size,
                instructions: self.instructions,
            },
            gas_left: self.gas_left,
            metering: self.charge,
            execution_gas_used: self.execution_gas_used,
            storage_gas_used: self.storage_gas_used,
        }
    }
}

impl Clone for MoveOSGasMeter {
    fn clone(&self) -> (r: Self)
        ensures
            r@ == self@,
    {
        proof {
            use_type_invariant(self);
        }
        MoveOSGasMeter {
            cost_table: self.cost_table.clone(),
            gas_left: self.gas_left,
            charge: self.charge,
            execution_gas_used: self.execution_gas_used,
            storage_gas_used: self.storage_gas_used,
            stack_height: self.stack_height,
            stack_size: self.stack_size,
            instructions: self.instructions,
        }
    }
}

impl MoveOSGasMeter {
    #[verifier::type_invariant]
    spec fn well_formed(self) -> bool {
        self@.wf()
    }

    /// Initialize the gas state with metering enabled.
    ///
    /// Charge for every operation and fail when there is no more gas to pay for operations.
    /// This is the instantiation that must be used when executing a user function.
    pub fn new(cost_table: CostTable, budget: u64) -> (r: Self)
        ensures
            r@ == MeterView::start(cost_table@, budget, true),
            r@.wf(),
    {
        let (stack_height_current_tier_mult, stack_height_next_tier_start) =
            cost_table.stack_height_tier(0);
        let (stack_size_current_tier_mult, stack_size_next_tier_start) = cost_table.stack_size_tier(
            0,
        );
        let (instructions_current_tier_mult, instructions_next_tier_start) =
            cost_table.instruction_tier(0);
        proof {
            ResourceCounters::lemma_start_wf(cost_table@);
        }
        Self {
            gas_left: budget,
            cost_table,
            charge: true,
            execution_gas_used: 0,
            storage_gas_used: 0,
            stack_height: Counter {
                current: 0,
                high_water_mark: 0,
                next_tier_start: stack_height_next_tier_start,
                current_tier_mult: stack_height_current_tier_mult,
            },
            stack_size: Counter {
                current: 0,
                high_water_mark: 0,
                next_tier_start: stack_size_next_tier_start,
                current_tier_mult: stack_size_current_tier_mult,
            },
            instructions: Counter {
                current: 0,
                high_water_mark: 0,
                next_tier_start: instructions_next_tier_start,
                current_tier_mult: instructions_current_tier_mult,
            },
        }
    }

    /// Initialize the gas state with metering disabled.
    ///
    /// It should be used by clients in very specific cases and when executing system
    /// code that does not have to charge the user.
    pub fn new_unmetered() -> (r: Self)
        ensures
            r@ == MeterView::start(zero_schedule(), 0, false),
            r@.wf(),
    {
        let flat = Counter {
            current: 0,
            high_water_mark: 0,
            next_tier_start: None,
            current_tier_mult: 0,
        };
        proof {
            lemma_zero_schedule_is_flat(0, STACK_HEIGHT_TIER_DEFAULT);
            lemma_zero_schedule_is_flat(0, STACK_SIZE_TIER_DEFAULT);
            lemma_zero_schedule_is_flat(0, INSTRUCTION_TIER_DEFAULT);
            ResourceCounters::lemma_start_wf(zero_schedule());
        }
        Self {
            cost_table: zero_cost_schedule(),
            gas_left: 0,
            charge: false,
            execution_gas_used: 0,
            storage_gas_used: 0,
            stack_height: flat,
            stack_size: flat,
            instructions: flat,
        }
    }

    /// Accounts for `pushes` new entries on the operand stack.
    pub fn push_stack(&mut self, pushes: u64) -> (r: Result<(), GasError>)
        ensures
            (final(self)@, r) == old(self)@.push_stack(pushes),
            final(self)@.wf(),
    {
        proof {
            use_type_invariant(&*self);
            self@.lemma_counting_wf(pushes);
        }
        let mut counter = self.stack_height;
        match counter.current.checked_add(pushes) {
            // We should never hit this.
            None => return Err(GasError::ArithmeticError),
            Some(new_height) => {
                if new_height > counter.high_water_mark {
                    counter.high_water_mark = new_height;
                }
                counter.current = new_height;
            },
        }

        if let Some(stack_height_tier_next) = counter.next_tier_start {
            if counter.current > stack_height_tier_next {
                let (next_mul, next_tier) = self.cost_table.stack_height_tier(counter.current);
                counter.current_tier_mult = next_mul;
                counter.next_tier_start = next_tier;
            }
        }
        self.stack_height = counter;
        Ok(())
    }

    /// Accounts for `amount` executed instructions.
    pub fn increase_instruction_count(&mut self, amount: u64) -> (r: Result<(), GasError>)
        ensures
            (final(self)@, r) == old(self)@.increase_instruction_count(amount),
            final(self)@.wf(),
    {
        proof {
            use_type_invariant(&*self);
            self@.lemma_counting_wf(amount);
        }
        let mut counter = self.instructions;
        match counter.current.checked_add(amount) {
            None => return Err(GasError::ArithmeticError),
            Some(new_pc) => {
                counter.high_water_mark = new_pc;
                counter.current = new_pc;
            },
        }

        if let Some(instr_tier_next) = counter.next_tier_start {
            if counter.current > instr_tier_next {
                let (instr_cost, next_tier) = self.cost_table.instruction_tier(counter.current);
                counter.current_tier_mult = instr_cost;
                counter.next_tier_start = next_tier;
            }
        }
        self.instructions = counter;
        Ok(())
    }

    /// Accounts for `size_amount` more abstract memory units on the operand stack.
    pub fn increase_stack_size(&mut self, size_amount: u64) -> (r: Result<(), GasError>)
        ensures
            (final(self)@, r) == old(self)@.increase_stack_size(size_amount),
            final(self)@.wf(),
    {
        proof {
            use_type_invariant(&*self);
            self@.lemma_counting_wf(size_amount);
        }
        let mut counter = self.stack_size;
        match counter.current.checked_add(size_amount) {
            None => return Err(GasError::ArithmeticError),
            Some(new_size) => {
                if new_size > counter.high_water_mark {
                    counter.high_water_mark = new_size;
                }
                counter.current = new_size;
            },
        }

        if let Some(stack_size_tier_next) = counter.next_tier_start {
            if counter.current > stack_size_tier_next {
                let (next_mul, next_tier) = self.cost_table.stack_size_tier(counter.current);
                counter.current_tier_mult = next_mul;
                counter.next_tier_start = next_tier;
            }
        }
        self.stack_size = counter;
        Ok(())
    }

    /// Accounts for `pops` entries leaving the operand stack. More pops than the
    /// stack is high leave the height at zero.
    pub fn pop_stack(&mut self, pops: u64)
        ensures
            final(self)@ == old(self)@.pop_stack(pops),
            final(self)@.wf(),
    {
        proof {
            use_type_invariant(&*self);
            self@.lemma_counting_wf(pops);
        }
        let mut counter = self.stack_height;
        counter.current = counter.current.saturating_sub(pops);
        self.stack_height = counter;
    }

    /// Charges for one operation and returns what it cost.
    ///
    /// The outgoing size `decr_size` is not priced and not tracked.
    pub fn charge(
        &mut self,
        num_instructions: u64,
        pushes: u64,
        pops: u64,
        incr_size: u64,
        decr_size: u64,
    ) -> (r: Result<u64, GasError>)
        ensures
            (final(self)@, r) == old(self)@.charge(
                num_instructions,
                pushes,
                pops,
                incr_size,
                decr_size,
            ),
            final(self)@.wf(),
    {
        proof {
            use_type_invariant(&*self);
            self@.lemma_charge_wf(num_instructions, pushes, pops, incr_size, decr_size);
        }
        if self.push_stack(pushes).is_err() {
            return Err(GasError::ArithmeticError);
        }
        if self.increase_instruction_count(num_instructions).is_err() {
            return Err(GasError::ArithmeticError);
        }
        if self.increase_stack_size(incr_size).is_err() {
            return Err(GasError::ArithmeticError);
        }
        assert(self@.counters == old(self)@.counters.counted(num_instructions, pushes, incr_size));
        assert(self.instructions.current_tier_mult * num_instructions >= 0) by (nonlinear_arith);
        assert(self.stack_size.current_tier_mult * incr_size >= 0) by (nonlinear_arith);
        assert(self.stack_height.current_tier_mult * pushes >= 0) by (nonlinear_arith);

        let instruction_gas = match self.instructions.current_tier_mult.checked_mul(
            num_instructions,
        ) {
            Some(gas) => gas,
            None => return Err(GasError::ArithmeticError),
        };
        let memory_gas = match self.stack_size.current_tier_mult.checked_mul(incr_size) {
            Some(gas) => gas,
            None => return Err(GasError::ArithmeticError),
        };
        let stack_height_gas = match self.stack_height.current_tier_mult.checked_mul(pushes) {
            Some(gas) => gas,
            None => return Err(GasError::ArithmeticError),
        };
        let gas_cost = match GasCost::new(instruction_gas, memory_gas, stack_height_gas).checked_total() {
            Some(total) => total,
            None => return Err(GasError::ArithmeticError),
        };
        if self.deduct_gas(gas_cost).is_err() {
            return Err(GasError::OutOfGas);
        }
        self.pop_stack(pops);

        Ok(gas_cost)
    }

    /// Takes `amount` from the gas that is left.
    pub fn deduct_gas(&mut self, amount: u64) -> (r: Result<(), GasError>)
        ensures
            (final(self)@, r) == old(self)@.deduct_gas(amount),
            final(self)@.wf(),
    {
        proof {
            use_type_invariant(&*self);
        }
        if !self.charge {
            return Ok(());
        }
        match self.gas_left.checked_sub(amount) {
            Some(gas_left) => {
                self.gas_left = gas_left;
                Ok(())
            },
            None => {
                self.gas_left = 0;
                Err(GasError::OutOfGas)
            },
        }
    }

    /// Turns the deduction of costs on or off. The counters run either way.
    pub fn set_metering(&mut self, enabled: bool)
        ensures
            final(self)@ == old(self)@.set_metering(enabled),
            final(self)@.wf(),
    {
        proof {
            use_type_invariant(&*self);
        }
        self.charge = enabled;
    }

    /// The gas that is left of the budget.
    pub fn balance_internal(&self) -> (gas: u64)
        ensures
            gas == self@.gas_left,
    {
        self.gas_left
    }

    /// The stack-height counter: height, highest height, cached tier.
    pub fn stack_height(&self) -> (c: Counter)
        ensures
            c == self@.counters.stack_height,
    {
        self.stack_height
    }

    /// The stack-size counter: size, largest size, cached tier.
    pub fn stack_size(&self) -> (c: Counter)
        ensures
            c == self@.counters.stack_size,
    {
        self.stack_size
    }

    /// The instruction counter: count and cached tier.
    pub fn instructions(&self) -> (c: Counter)
        ensures
            c == self@.counters.instructions,
    {
        self.instructions
    }

    /// The schedule this meter charges by.
    pub fn cost_table(&self) -> (t: &CostTable)
        ensures
            t@ == self@.counters.cost_table,
    {
        &self.cost_table
    }

    /// Charges for one operation and records its cost as execution gas.
    pub fn charge_internal_execution(
        &mut self,
        num_instructions: u64,
        pushes: u64,
        pops: u64,
        incr_size: u64,
        decr_size: u64,
    ) -> (r: Result<(), GasError>)
        ensures
            (final(self)@, r) == old(self)@.charge_internal_execution(
                num_instructions,
                pushes,
                pops,
                incr_size,
                decr_size,
            ),
            final(self)@.wf(),
    {
        let charge_result = self.charge(num_instructions, pushes, pops, incr_size, decr_size);
        match charge_result {
            Ok(gas_cost) => {
                self.charge_execution(gas_cost);
                Ok(())
            },
            Err(e) => Err(e),
        }
    }
}

impl ClassifiedGasMeter for MoveOSGasMeter {
    fn charge_execution(&mut self, gas_cost: u64)
        ensures
            final(self)@ == old(self)@.charge_execution(gas_cost),
            final(self)@.wf(),
    {
        proof {
            use_type_invariant(&*self);
        }
        let new_value = self.execution_gas_used.saturating_add(gas_cost);
        self.execution_gas_used = new_value;
    }

    fn charge_io_write(&mut self)
        ensures
            final(self)@ == old(self)@,
    {
    }

    fn charge_change_set(&mut self, _change_set: &ChangeSet)
        ensures
            final(self)@ == old(self)@,
    {
    }

    fn gas_statement(&self) -> (s: GasStatement)
        ensures
            s == self@.gas_statement(),
    {
        GasStatement {
            execution_gas_used: self.execution_gas_used,
            storage_gas_used: self.storage_gas_used,
        }
    }
}

impl SwitchableGasMeter for MoveOSGasMeter {
    fn stop_metering(&mut self)
        ensures
            final(self)@ == old(self)@.set_metering(false),
            final(self)@.wf(),
    {
        proof {
            use_type_invariant(&*self);
        }
        self.charge = false;
    }

    fn start_metering(&mut self)
        ensures
            final(self)@ == old(self)@.set_metering(true),
            final(self)@.wf(),
    {
        proof {
            use_type_invariant(&*self);
        }
        self.charge = true;
    }

    fn is_metering(&self) -> (on: bool)
        ensures
            on == self@.metering,
    {
        self.charge
    }
}

} // verus!
