//! The entry points of the meter as the virtual machine calls them: one for
//! each family of bytecode instructions and two for native calls.
//!
//! Every entry point describes its operation as
//! `(instructions, pushes, pops, size_in, size_out)` and hands that to the
//! charge engine. A value that the charge depends on is given by its abstract
//! memory size, a group of values of which only the number counts by that
//! number; types, addresses and values that no charge depends on are not
//! passed.
use crate::classify::ClassifiedGasMeter;
use crate::error::GasError;
use crate::instr::{
    get_simple_instruction_stack_change, SimpleInstruction, ADDRESS_SIZE, BOOL_SIZE,
    REFERENCE_SIZE, STRUCT_SIZE, U64_SIZE, VEC_SIZE,
};
use crate::meter::MoveOSGasMeter;
use crate::size::{clamped, sum_of, total_abstract_size};
use vstd::prelude::*;

verus! {

/// How many values a native call returned.
pub open spec fn returned_count(ret_vals: Option<&[u64]>) -> u64 {
    match ret_vals {
        Some(vals) => vals@.len() as u64,
        None => 0,
    }
}

/// The abstract size of what a native call returned.
pub open spec fn returned_size(ret_vals: Option<&[u64]>) -> u64 {
    match ret_vals {
        Some(vals) => clamped(sum_of(vals@) as int),
        None => 0,
    }
}

impl MoveOSGasMeter {
    /// An instruction that is charged by its kind alone.
    pub fn charge_simple_instr(&mut self, instr: SimpleInstruction) -> (r: Result<(), GasError>)
        ensures
            (final(self)@, r) == old(self)@.charge_internal_execution(
                1,
                instr.stack_change().1,
                instr.stack_change().0,
                instr.stack_change().3,
                instr.stack_change().2,
            ),
            final(self)@.wf(),
    {
        let (pops, pushes, pop_size, push_size) = get_simple_instruction_stack_change(instr);
        self.charge_internal_execution(1, pushes, pops, push_size, pop_size)
    }

    /// A conditional branch on true: one instruction.
    pub fn charge_br_true(&mut self, _target_offset: Option<u16>) -> (r: Result<(), GasError>)
        ensures
            (final(self)@, r) == old(self)@.charge_internal_execution(1, 0, 0, 0, 0),
            final(self)@.wf(),
    {
        self.charge_internal_execution(1, 0, 0, 0, 0)
    }

    /// A conditional branch on false: one instruction.
    pub fn charge_br_false(&mut self, _target_offset: Option<u16>) -> (r: Result<(), GasError>)
        ensures
            (final(self)@, r) == old(self)@.charge_internal_execution(1, 0, 0, 0, 0),
            final(self)@.wf(),
    {
        self.charge_internal_execution(1, 0, 0, 0, 0)
    }

    /// An unconditional branch: one instruction.
    pub fn charge_branch(&mut self, _target_offset: u16) -> (r: Result<(), GasError>)
        ensures
            (final(self)@, r) == old(self)@.charge_internal_execution(1, 0, 0, 0, 0),
            final(self)@.wf(),
    {
        self.charge_internal_execution(1, 0, 0, 0, 0)
    }

    /// Pops one value of size `popped_val`.
    pub fn charge_pop(&mut self, popped_val: u64) -> (r: Result<(), GasError>)
        ensures
            (final(self)@, r) == old(self)@.charge_internal_execution(1, 0, 1, 0, popped_val),
            final(self)@.wf(),
    {
        self.charge_internal_execution(1, 0, 1, 0, popped_val)
    }

    /// A call: the arguments, given by their sizes, leave the operand stack. What
    /// the callee pushes is charged in its own frame.
    pub fn charge_call(&mut self, _func_name: &str, args: &[u64], _num_locals: u64) -> (r: Result<
        (),
        GasError,
    >)
        ensures
            (final(self)@, r) == old(self)@.charge_internal_execution(
                1,
                0,
                args@.len() as u64,
                0,
                clamped(sum_of(args@) as int),
            ),
            final(self)@.wf(),
    {
        // We will have to perform this many pops for the call.
        let pops = args.len() as u64;
        // Size stays the same -- we're just moving it from the operand stack to the locals. But
        // the size on the operand stack is reduced by sum_{args} arg.size().
        let stack_reduction_size = total_abstract_size(0, args);
        self.charge_internal_execution(1, 0, pops, 0, stack_reduction_size)
    }

    /// A call of a generic function, charged like any other call.
    pub fn charge_call_generic(
        &mut self,
        _func_name: &str,
        args: &[u64],
        _num_locals: u64,
    ) -> (r: Result<(), GasError>)
        ensures
            (final(self)@, r) == old(self)@.charge_internal_execution(
                1,
                0,
                args@.len() as u64,
                0,
                clamped(sum_of(args@) as int),
            ),
            final(self)@.wf(),
    {
        // We have to perform this many pops from the operand stack for this function call.
        let pops = args.len() as u64;
        // Calculate the size reduction on the operand stack.
        let stack_reduction_size = total_abstract_size(0, args);
        // Charge for the pops, no pushes, and account for the stack size decrease. Also track the
        // `CallGeneric` instruction we must have encountered for this.
        self.charge_internal_execution(1, 0, pops, 0, stack_reduction_size)
    }

    /// Loads a constant of `size` bytes.
    pub fn charge_ld_const(&mut self, size: u64) -> (r: Result<(), GasError>)
        ensures
            (final(self)@, r) == old(self)@.charge_internal_execution(1, 1, 0, size, 0),
            final(self)@.wf(),
    {
        // Charge for the load from the locals onto the stack.
        self.charge_internal_execution(1, 1, 0, size, 0)
    }

    /// Called once the constant has been deserialised: nothing more is charged.
    pub fn charge_ld_const_after_deserialization(&mut self) -> (r: Result<(), GasError>)
        ensures
            final(self)@ == old(self)@,
            r is Ok,
    {
        // We already charged for this based on the bytes that we're loading so don't charge again.
        Ok(())
    }

    /// Copies a local of size `val` onto the stack.
    pub fn charge_copy_loc(&mut self, val: u64) -> (r: Result<(), GasError>)
        ensures
            (final(self)@, r) == old(self)@.charge_internal_execution(1, 1, 0, val, 0),
            final(self)@.wf(),
    {
        // Charge for the copy of the local onto the stack.
        self.charge_internal_execution(1, 1, 0, val, 0)
    }

    /// Moves a local of size `val` onto the stack.
    pub fn charge_move_loc(&mut self, val: u64) -> (r: Result<(), GasError>)
        ensures
            (final(self)@, r) == old(self)@.charge_internal_execution(1, 1, 0, val, 0),
            final(self)@.wf(),
    {
        // Charge for the move of the local on to the stack. Note that we charge here since we
        // aren't tracking the local size (at least not yet). If we were, this should be a net-zero
        // operation in terms of memory usage.
        self.charge_internal_execution(1, 1, 0, val, 0)
    }

    /// Stores the top of the stack, of size `val`, into a local.
    pub fn charge_store_loc(&mut self, val: u64) -> (r: Result<(), GasError>)
        ensures
            (final(self)@, r) == old(self)@.charge_internal_execution(1, 0, 1, 0, val),
            final(self)@.wf(),
    {
        // Charge for the storing of the value on the stack into a local. Note here that if we were
        // also accounting for the size of the locals that this would be a net-zero operation in
        // terms of memory.
        self.charge_internal_execution(1, 0, 1, 0, val)
    }

    /// Packs `num_fields` fields into one struct.
    pub fn charge_pack(&mut self, _is_generic: bool, num_fields: u64) -> (r: Result<(), GasError>)
        ensures
            (final(self)@, r) == old(self)@.charge_internal_execution(
                1,
                1,
                num_fields,
                STRUCT_SIZE,
                0,
            ),
            final(self)@.wf(),
    {
        // We perform `num_fields` number of pops.
        // The actual amount of memory on the stack is staying the same with the addition of some
        // extra size for the struct, so the size doesn't really change much.
        self.charge_internal_execution(1, 1, num_fields, STRUCT_SIZE, 0)
    }

    /// Unpacks one struct into its `num_fields` fields.
    pub fn charge_unpack(&mut self, _is_generic: bool, num_fields: u64) -> (r: Result<(), GasError>)
        ensures
            (final(self)@, r) == old(self)@.charge_internal_execution(
                1,
                num_fields,
                1,
                0,
                STRUCT_SIZE,
            ),
            final(self)@.wf(),
    {
        // We perform `num_fields` number of pushes.
        self.charge_internal_execution(1, num_fields, 1, 0, STRUCT_SIZE)
    }

    /// Reads a value of size `ref_val` through the reference on top of the stack.
    pub fn charge_read_ref(&mut self, ref_val: u64) -> (r: Result<(), GasError>)
        ensures
            (final(self)@, r) == old(self)@.charge_internal_execution(
                1,
                1,
                1,
                ref_val,
                REFERENCE_SIZE,
            ),
            final(self)@.wf(),
    {
        // We read the the reference so we are decreasing the size of the stack by the size of the
        // reference, and adding to it the size of the value that has been read from that
        // reference.
        self.charge_internal_execution(1, 1, 1, ref_val, REFERENCE_SIZE)
    }

    /// Writes a value of size `new_val` through a reference, over one of size
    /// `old_val`.
    pub fn charge_write_ref(&mut self, new_val: u64, old_val: u64) -> (r: Result<(), GasError>)
        ensures
            (final(self)@, r) == old(self)@.charge_internal_execution(1, 1, 2, new_val, old_val),
            final(self)@.wf(),
    {
        // The owner of the data that the reference points to is not on the stack. For now though,
        // we treat the write as adding to the stack size.
        self.charge_internal_execution(1, 1, 2, new_val, old_val)
    }

    /// Pops both operands and pushes a boolean. The sizes of the operands count
    /// towards the incoming size here, unlike in `charge_neq`.
    pub fn charge_eq(&mut self, lhs: u64, rhs: u64) -> (r: Result<(), GasError>)
        ensures
            (final(self)@, r) == old(self)@.charge_internal_execution(
                1,
                1,
                2,
                clamped(BOOL_SIZE + lhs + rhs),
                clamped(lhs + rhs),
            ),
            final(self)@.wf(),
    {
        let size_reduction = lhs.saturating_add(rhs);
        self.charge_internal_execution(
            1,
            1,
            2,
            BOOL_SIZE.saturating_add(size_reduction),
            size_reduction,
        )
    }

    /// Pops both operands and pushes a boolean.
    pub fn charge_neq(&mut self, lhs: u64, rhs: u64) -> (r: Result<(), GasError>)
        ensures
            (final(self)@, r) == old(self)@.charge_internal_execution(
                1,
                1,
                2,
                BOOL_SIZE,
                clamped(lhs + rhs),
            ),
            final(self)@.wf(),
    {
        let size_reduction = lhs.saturating_add(rhs);
        self.charge_internal_execution(1, 1, 2, BOOL_SIZE, size_reduction)
    }

    /// Borrows a resource from global storage: an address is popped and a
    /// reference pushed.
    pub fn charge_borrow_global(&mut self, _is_mut: bool, _is_generic: bool, _is_success: bool) -> (r:
        Result<(), GasError>)
        ensures
            (final(self)@, r) == old(self)@.charge_internal_execution(
                1,
                1,
                1,
                REFERENCE_SIZE,
                ADDRESS_SIZE,
            ),
            final(self)@.wf(),
    {
        self.charge_internal_execution(1, 1, 1, REFERENCE_SIZE, ADDRESS_SIZE)
    }

    /// Asks whether a resource exists: an address is popped and a boolean pushed.
    pub fn charge_exists(&mut self, _is_generic: bool, _exists: bool) -> (r: Result<(), GasError>)
        ensures
            (final(self)@, r) == old(self)@.charge_internal_execution(
                1,
                1,
                1,
                BOOL_SIZE,
                ADDRESS_SIZE,
            ),
            final(self)@.wf(),
    {
        self.charge_internal_execution(1, 1, 1, BOOL_SIZE, ADDRESS_SIZE)
    }

    /// `val` is the size of the resource that was moved out, if there was one.
    pub fn charge_move_from(&mut self, _is_generic: bool, val: Option<u64>) -> (r: Result<
        (),
        GasError,
    >)
        ensures
            (final(self)@, r) == old(self)@.charge_internal_execution(
                1,
                1,
                1,
                match val {
                    Some(size) => size,
                    None => 0,
                },
                ADDRESS_SIZE,
            ),
            final(self)@.wf(),
    {
        let size = match val {
            Some(size) => size,
            None => 0,
        };
        self.charge_internal_execution(1, 1, 1, size, ADDRESS_SIZE)
    }

    /// Moves a resource into global storage: the resource and a signer are popped.
    pub fn charge_move_to(&mut self, _is_generic: bool, _is_success: bool) -> (r: Result<
        (),
        GasError,
    >)
        ensures
            (final(self)@, r) == old(self)@.charge_internal_execution(1, 0, 2, 0, ADDRESS_SIZE),
            final(self)@.wf(),
    {
        self.charge_internal_execution(1, 0, 2, 0, ADDRESS_SIZE)
    }

    /// Packs `num_args` elements into one vector.
    pub fn charge_vec_pack(&mut self, num_args: u64) -> (r: Result<(), GasError>)
        ensures
            (final(self)@, r) == old(self)@.charge_internal_execution(
                1,
                1,
                num_args,
                VEC_SIZE,
                0,
            ),
            final(self)@.wf(),
    {
        // We will perform `num_args` number of pops.
        // The amount of data on the stack stays constant except we have some extra metadata for
        // the vector to hold the length of the vector.
        self.charge_internal_execution(1, 1, num_args, VEC_SIZE, 0)
    }

    /// Takes the length of a vector behind a reference.
    pub fn charge_vec_len(&mut self) -> (r: Result<(), GasError>)
        ensures
            (final(self)@, r) == old(self)@.charge_internal_execution(
                1,
                1,
                1,
                U64_SIZE,
                REFERENCE_SIZE,
            ),
            final(self)@.wf(),
    {
        self.charge_internal_execution(1, 1, 1, U64_SIZE, REFERENCE_SIZE)
    }

    /// Borrows an element of a vector: a reference and an index are popped.
    pub fn charge_vec_borrow(&mut self, _is_mut: bool, _is_success: bool) -> (r: Result<
        (),
        GasError,
    >)
        ensures
            (final(self)@, r) == old(self)@.charge_internal_execution(
                1,
                1,
                2,
                REFERENCE_SIZE,
                (REFERENCE_SIZE + U64_SIZE) as u64,
            ),
            final(self)@.wf(),
    {
        self.charge_internal_execution(1, 1, 2, REFERENCE_SIZE, REFERENCE_SIZE + U64_SIZE)
    }

    /// Appends a value to a vector: a reference and the value are popped.
    pub fn charge_vec_push_back(&mut self) -> (r: Result<(), GasError>)
        ensures
            (final(self)@, r) == old(self)@.charge_internal_execution(1, 0, 2, 0, REFERENCE_SIZE),
            final(self)@.wf(),
    {
        // The value was already on the stack, so we aren't increasing the number of bytes on the stack.
        self.charge_internal_execution(1, 0, 2, 0, REFERENCE_SIZE)
    }

    /// Takes the last value off a vector.
    pub fn charge_vec_pop_back(&mut self) -> (r: Result<(), GasError>)
        ensures
            (final(self)@, r) == old(self)@.charge_internal_execution(1, 1, 1, 0, REFERENCE_SIZE),
            final(self)@.wf(),
    {
        self.charge_internal_execution(1, 1, 1, 0, REFERENCE_SIZE)
    }

    /// Unpacks a vector into `expect_num_elements` values.
    pub fn charge_vec_unpack(&mut self, expect_num_elements: u64) -> (r: Result<(), GasError>)
        ensures
            (final(self)@, r) == old(self)@.charge_internal_execution(
                1,
                expect_num_elements,
                1,
                0,
                VEC_SIZE,
            ),
            final(self)@.wf(),
    {
        // Charge for the pushes
        let pushes = expect_num_elements;
        // The stack size stays pretty much the same modulo the additional vector size
        self.charge_internal_execution(1, pushes, 1, 0, VEC_SIZE)
    }

    /// Swaps two elements of a vector.
    pub fn charge_vec_swap(&mut self) -> (r: Result<(), GasError>)
        ensures
            (final(self)@, r) == old(self)@.charge_internal_execution(
                1,
                1,
                1,
                0,
                (REFERENCE_SIZE + U64_SIZE + U64_SIZE) as u64,
            ),
            final(self)@.wf(),
    {
        let size_decrease = REFERENCE_SIZE + U64_SIZE + U64_SIZE;
        self.charge_internal_execution(1, 1, 1, 0, size_decrease)
    }

    /// Called when a resource has been loaded: loading is not charged.
    pub fn charge_load_resource(&mut self, _bytes_loaded: u64) -> (r: Result<(), GasError>)
        ensures
            final(self)@ == old(self)@,
            r is Ok,
    {
        // We don't have resource loading so don't need to account for it.
        Ok(())
    }

    /// The charge after a native call has returned. `amount` is what the native
    /// function asks for; `ret_vals` holds the sizes of the values it returned.
    pub fn charge_native_function(&mut self, amount: u64, ret_vals: Option<&[u64]>) -> (r: Result<
        (),
        GasError,
    >)
        ensures
            (final(self)@, r) == old(self)@.charge_native_function(
                amount,
                returned_count(ret_vals),
                returned_size(ret_vals),
            ),
            final(self)@.wf(),
    {
        // Charge for the number of pushes on to the stack that the return of this function is
        // going to cause.
        let pushes = match ret_vals {
            Some(vals) => vals.len() as u64,
            None => 0,
        };
        // Calculate the number of bytes that are getting pushed onto the stack.
        let size_increase = match ret_vals {
            Some(vals) => total_abstract_size(0, vals),
            None => 0,
        };
        // Charge for the stack operations and record the cost as execution gas. We don't count
        // this as an "instruction" since we already accounted for the `Call` instruction in the
        // `charge_native_function_before_execution` call.
        match self.charge(0, pushes, 0, size_increase, 0) {
            Ok(gas_cost) => {
                self.charge_execution(gas_cost);
            },
            Err(e) => {
                return Err(e);
            },
        }
        // Now charge the gas that the native function told us to charge.
        self.deduct_gas(amount)
    }

    /// The charge before a native call runs. Each argument counts one unit on
    /// top of its size.
    pub fn charge_native_function_before_execution(&mut self, args: &[u64]) -> (r: Result<
        (),
        GasError,
    >)
        ensures
            (final(self)@, r) == old(self)@.charge_internal_execution(
                1,
                0,
                args@.len() as u64,
                0,
                clamped((args@.len() + sum_of(args@)) as int),
            ),
            final(self)@.wf(),
    {
        // Determine the number of pops that are going to be needed for this function call, and
        // charge for them.
        let pops = args.len() as u64;
        // Calculate the size decrease of the stack from the above pops.
        let stack_reduction_size = total_abstract_size(pops, args);
        // Track that this is going to be popping from the operand stack. We also increment the
        // instruction count as we need to account for the `Call` bytecode that initiated this
        // native call.
        self.charge_internal_execution(1, 0, pops, 0, stack_reduction_size)
    }

    /// Called when a frame is dropped: nothing is charged.
    pub fn charge_drop_frame(&mut self) -> (r: Result<(), GasError>)
        ensures
            final(self)@ == old(self)@,
            r is Ok,
    {
        Ok(())
    }
}

} // verus!
