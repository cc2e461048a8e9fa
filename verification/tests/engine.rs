use moveos_gas::classify::{ClassifiedGasMeter, GasStatement};
use moveos_gas::error::GasError;
use moveos_gas::meter::MoveOSGasMeter;
use moveos_gas::switch::SwitchableGasMeter;
use moveos_gas::table::{initial_cost_schedule, zero_cost_schedule, CostTable};
use move_core_types::effects::ChangeSet;
use std::collections::BTreeMap;

fn empty_schedule() -> CostTable {
    CostTable {
        instruction_tiers: BTreeMap::new(),
        stack_height_tiers: BTreeMap::new(),
        stack_size_tiers: BTreeMap::new(),
    }
}

#[test]
fn new_meter_starts_at_zero_in_the_first_tier() {
    let meter = MoveOSGasMeter::new(initial_cost_schedule(), 42);
    assert_eq!(meter.balance_internal(), 42);
    assert!(meter.is_metering());
    assert_eq!(meter.instructions().current, 0);
    assert_eq!(meter.instructions().current_tier_mult, 1);
    assert_eq!(meter.instructions().next_tier_start, Some(3000));
    assert_eq!(meter.stack_height().current, 0);
    assert_eq!(meter.stack_height().high_water_mark, 0);
    assert_eq!(meter.stack_height().current_tier_mult, 1);
    assert_eq!(meter.stack_height().next_tier_start, Some(400));
    assert_eq!(meter.stack_size().current, 0);
    assert_eq!(meter.stack_size().high_water_mark, 0);
    assert_eq!(meter.stack_size().current_tier_mult, 1);
    assert_eq!(meter.stack_size().next_tier_start, Some(2000));
    assert_eq!(
        meter.gas_statement(),
        GasStatement { execution_gas_used: 0, storage_gas_used: 0 }
    );
    assert_eq!(*meter.cost_table(), initial_cost_schedule());
}

#[test]
fn new_meter_with_an_empty_schedule_uses_the_defaults() {
    let meter = MoveOSGasMeter::new(empty_schedule(), 5);
    assert_eq!(meter.instructions().current_tier_mult, 1);
    assert_eq!(meter.instructions().next_tier_start, None);
    assert_eq!(meter.stack_height().current_tier_mult, 1);
    assert_eq!(meter.stack_size().current_tier_mult, 1);
}

#[test]
fn unmetered_meter_is_flat_and_off() {
    let mut meter = MoveOSGasMeter::new_unmetered();
    assert_eq!(meter.balance_internal(), 0);
    assert!(!meter.is_metering());
    assert_eq!(*meter.cost_table(), zero_cost_schedule());
    assert_eq!(meter.instructions().current_tier_mult, 0);
    assert_eq!(meter.instructions().next_tier_start, None);
    assert_eq!(meter.stack_height().current_tier_mult, 0);
    assert_eq!(meter.stack_height().next_tier_start, None);
    assert_eq!(meter.stack_size().current_tier_mult, 0);
    assert_eq!(meter.stack_size().next_tier_start, None);
    assert_eq!(meter.charge(3, 4, 1, 50, 0), Ok(0));
    assert_eq!(meter.balance_internal(), 0);
    assert_eq!(meter.instructions().current, 3);
    assert_eq!(meter.stack_height().current, 3);
    assert_eq!(meter.stack_size().current, 50);
    // turned on, it still charges nothing
    meter.start_metering();
    assert_eq!(meter.charge(3, 4, 1, 50, 0), Ok(0));
    assert_eq!(meter.balance_internal(), 0);
}

#[test]
fn charge_returns_the_cost_and_deducts_it() {
    let mut meter = MoveOSGasMeter::new(initial_cost_schedule(), 100);
    assert_eq!(meter.charge(1, 1, 0, 8, 0), Ok(10));
    assert_eq!(meter.balance_internal(), 90);
    assert_eq!(meter.charge(2, 3, 1, 5, 1_000_000), Ok(10));
    assert_eq!(meter.balance_internal(), 80);
    assert_eq!(meter.instructions().current, 3);
    assert_eq!(meter.stack_height().current, 3);
    assert_eq!(meter.stack_height().high_water_mark, 4);
    assert_eq!(meter.stack_size().current, 13);
    // charge alone records nothing as execution gas
    assert_eq!(meter.gas_statement().execution_gas_used, 0);
}

#[test]
fn charge_for_exactly_what_is_left_succeeds() {
    let mut meter = MoveOSGasMeter::new(initial_cost_schedule(), 10);
    assert_eq!(meter.charge(1, 1, 0, 8, 0), Ok(10));
    assert_eq!(meter.balance_internal(), 0);
    assert_eq!(meter.charge(0, 0, 5, 0, 9), Ok(0));
    assert_eq!(meter.charge(0, 1, 0, 0, 0), Err(GasError::OutOfGas));
}

#[test]
fn outgoing_size_is_neither_priced_nor_tracked() {
    let mut a = MoveOSGasMeter::new(initial_cost_schedule(), 1000);
    let mut b = MoveOSGasMeter::new(initial_cost_schedule(), 1000);
    assert_eq!(a.charge(1, 2, 1, 30, 0), Ok(33));
    assert_eq!(b.charge(1, 2, 1, 30, u64::MAX), Ok(33));
    assert_eq!(a.stack_size().current, 30);
    assert_eq!(b.stack_size().current, 30);
    assert_eq!(a.balance_internal(), b.balance_internal());
}

#[test]
fn out_of_gas_counts_the_growth_and_does_not_pop() {
    let mut meter = MoveOSGasMeter::new(initial_cost_schedule(), 5);
    assert_eq!(meter.push_stack(4), Ok(()));
    assert_eq!(meter.charge(1, 2, 3, 9, 0), Err(GasError::OutOfGas));
    assert_eq!(meter.balance_internal(), 0);
    assert_eq!(meter.instructions().current, 1);
    assert_eq!(meter.stack_height().current, 6);
    assert_eq!(meter.stack_height().high_water_mark, 6);
    assert_eq!(meter.stack_size().current, 9);
}

#[test]
fn counter_overflow_is_an_arithmetic_error_and_keeps_earlier_phases() {
    let mut meter = MoveOSGasMeter::new(zero_cost_schedule(), 77);
    assert_eq!(meter.charge(u64::MAX, 0, 0, 0, 0), Ok(0));
    assert_eq!(meter.instructions().current, u64::MAX);
    // the stack height grows, then the instruction count overflows
    assert_eq!(meter.charge(1, 5, 2, 3, 0), Err(GasError::ArithmeticError));
    assert_eq!(meter.stack_height().current, 5);
    assert_eq!(meter.instructions().current, u64::MAX);
    assert_eq!(meter.stack_size().current, 0);
    assert_eq!(meter.balance_internal(), 77);
}

#[test]
fn stack_height_overflow_changes_nothing() {
    let mut meter = MoveOSGasMeter::new(zero_cost_schedule(), 77);
    assert_eq!(meter.push_stack(u64::MAX), Ok(()));
    assert_eq!(meter.push_stack(1), Err(GasError::ArithmeticError));
    assert_eq!(meter.stack_height().current, u64::MAX);
    assert_eq!(meter.charge(1, 1, 0, 1, 0), Err(GasError::ArithmeticError));
    assert_eq!(meter.instructions().current, 0);
    assert_eq!(meter.stack_size().current, 0);
    assert_eq!(meter.balance_internal(), 77);
}

#[test]
fn stack_size_overflow_keeps_height_and_count() {
    let mut meter = MoveOSGasMeter::new(zero_cost_schedule(), 77);
    assert_eq!(meter.increase_stack_size(u64::MAX), Ok(()));
    assert_eq!(meter.increase_stack_size(1), Err(GasError::ArithmeticError));
    assert_eq!(meter.charge(1, 1, 1, 1, 0), Err(GasError::ArithmeticError));
    assert_eq!(meter.stack_height().current, 1);
    assert_eq!(meter.instructions().current, 1);
    assert_eq!(meter.stack_size().current, u64::MAX);
    assert_eq!(meter.balance_internal(), 77);
}

#[test]
fn instruction_count_overflow_changes_nothing() {
    let mut meter = MoveOSGasMeter::new(zero_cost_schedule(), 77);
    assert_eq!(meter.increase_instruction_count(u64::MAX), Ok(()));
    assert_eq!(meter.increase_instruction_count(1), Err(GasError::ArithmeticError));
    assert_eq!(meter.instructions().current, u64::MAX);
}

#[test]
fn product_overflow_is_an_arithmetic_error() {
    let mut meter = MoveOSGasMeter::new(initial_cost_schedule(), u64::MAX);
    // the size counter reaches the last tier, where a unit costs 100
    assert_eq!(meter.charge(0, 0, 0, u64::MAX, 0), Err(GasError::ArithmeticError));
    assert_eq!(meter.balance_internal(), u64::MAX);
    assert_eq!(meter.stack_size().current, u64::MAX);
    assert_eq!(meter.stack_size().current_tier_mult, 100);
}

#[test]
fn sum_overflow_is_an_arithmetic_error() {
    let mut meter = MoveOSGasMeter::new(empty_schedule(), u64::MAX);
    // each product fits, their sum does not
    assert_eq!(meter.charge(u64::MAX, 1, 0, 0, 0), Err(GasError::ArithmeticError));
    assert_eq!(meter.balance_internal(), u64::MAX);
    assert_eq!(meter.instructions().current, u64::MAX);
    assert_eq!(meter.stack_height().current, 1);
}

#[test]
fn largest_cost_that_fits_can_be_paid() {
    let mut meter = MoveOSGasMeter::new(empty_schedule(), u64::MAX);
    assert_eq!(meter.charge(u64::MAX, 0, 0, 0, 0), Ok(u64::MAX));
    assert_eq!(meter.balance_internal(), 0);
}

#[test]
fn pops_stop_at_zero() {
    let mut meter = MoveOSGasMeter::new(initial_cost_schedule(), 100);
    assert_eq!(meter.push_stack(3), Ok(()));
    meter.pop_stack(10);
    assert_eq!(meter.stack_height().current, 0);
    assert_eq!(meter.stack_height().high_water_mark, 3);
    meter.pop_stack(u64::MAX);
    assert_eq!(meter.stack_height().current, 0);
    assert_eq!(meter.push_stack(2), Ok(()));
    meter.pop_stack(1);
    assert_eq!(meter.stack_height().current, 1);
    assert_eq!(meter.stack_height().high_water_mark, 3);
}

#[test]
fn stack_height_tier_follows_the_high_water_mark() {
    let mut meter = MoveOSGasMeter::new(initial_cost_schedule(), 1_000_000);
    assert_eq!(meter.push_stack(400), Ok(()));
    // resting on the breakpoint
    assert_eq!(meter.stack_height().current_tier_mult, 1);
    assert_eq!(meter.stack_height().next_tier_start, Some(400));
    assert_eq!(meter.push_stack(100), Ok(()));
    assert_eq!(meter.stack_height().current_tier_mult, 2);
    assert_eq!(meter.stack_height().next_tier_start, Some(800));
    meter.pop_stack(450);
    assert_eq!(meter.stack_height().current, 50);
    assert_eq!(meter.stack_height().high_water_mark, 500);
    // a release does not lower the tier
    assert_eq!(meter.stack_height().current_tier_mult, 2);
    assert_eq!(meter.charge(0, 1, 0, 0, 0), Ok(2));
    assert_eq!(meter.stack_height().high_water_mark, 500);
}

#[test]
fn one_growth_can_pass_several_breakpoints() {
    let mut meter = MoveOSGasMeter::new(initial_cost_schedule(), 1_000_000);
    assert_eq!(meter.push_stack(1000), Ok(()));
    assert_eq!(meter.stack_height().current_tier_mult, 3);
    assert_eq!(meter.stack_height().next_tier_start, Some(1200));
    assert_eq!(meter.increase_stack_size(20_001), Ok(()));
    assert_eq!(meter.stack_size().current_tier_mult, 100);
    assert_eq!(meter.stack_size().next_tier_start, None);
    assert_eq!(meter.increase_instruction_count(6000), Ok(()));
    // landed exactly on a later breakpoint after passing an earlier one
    assert_eq!(meter.instructions().current_tier_mult, 3);
    assert_eq!(meter.instructions().next_tier_start, Some(8000));
}

#[test]
fn crossing_charge_is_priced_at_the_new_tier() {
    let mut meter = MoveOSGasMeter::new(initial_cost_schedule(), 1_000_000);
    assert_eq!(meter.charge(0, 0, 0, 1999, 0), Ok(1999));
    assert_eq!(meter.charge(0, 0, 0, 2, 0), Ok(4));
    assert_eq!(meter.stack_size().current, 2001);
    assert_eq!(meter.stack_size().current_tier_mult, 2);
}

#[test]
fn deduct_gas_takes_the_amount_or_everything() {
    let mut meter = MoveOSGasMeter::new(initial_cost_schedule(), 100);
    assert_eq!(meter.deduct_gas(40), Ok(()));
    assert_eq!(meter.balance_internal(), 60);
    assert_eq!(meter.deduct_gas(0), Ok(()));
    assert_eq!(meter.balance_internal(), 60);
    assert_eq!(meter.deduct_gas(61), Err(GasError::OutOfGas));
    assert_eq!(meter.balance_internal(), 0);
    assert_eq!(meter.deduct_gas(0), Ok(()));
}

#[test]
fn deduct_gas_does_nothing_when_metering_is_off() {
    let mut meter = MoveOSGasMeter::new(initial_cost_schedule(), 100);
    meter.set_metering(false);
    assert!(!meter.is_metering());
    assert_eq!(meter.deduct_gas(1_000), Ok(()));
    assert_eq!(meter.balance_internal(), 100);
    meter.set_metering(true);
    assert!(meter.is_metering());
    assert_eq!(meter.deduct_gas(1_000), Err(GasError::OutOfGas));
    assert_eq!(meter.balance_internal(), 0);
}

#[test]
fn metering_can_be_stopped_and_started() {
    let mut meter = MoveOSGasMeter::new(initial_cost_schedule(), 100);
    assert!(meter.is_metering());
    meter.stop_metering();
    assert!(!meter.is_metering());
    assert_eq!(meter.charge(1, 1, 0, 8, 0), Ok(10));
    assert_eq!(meter.balance_internal(), 100);
    meter.start_metering();
    assert!(meter.is_metering());
    assert_eq!(meter.charge(1, 1, 0, 8, 0), Ok(10));
    assert_eq!(meter.balance_internal(), 90);
}

#[test]
fn execution_gas_accumulates_and_does_not_wrap() {
    let mut meter = MoveOSGasMeter::new(initial_cost_schedule(), 100);
    meter.charge_execution(5);
    meter.charge_execution(7);
    assert_eq!(
        meter.gas_statement(),
        GasStatement { execution_gas_used: 12, storage_gas_used: 0 }
    );
    meter.charge_execution(u64::MAX);
    assert_eq!(meter.gas_statement().execution_gas_used, u64::MAX);
    meter.charge_execution(1);
    assert_eq!(meter.gas_statement().execution_gas_used, u64::MAX);
    assert_eq!(meter.balance_internal(), 100);
}

#[test]
fn storage_hooks_change_nothing() {
    let mut meter = MoveOSGasMeter::new(initial_cost_schedule(), 100);
    meter.charge_execution(3);
    meter.charge_io_write();
    meter.charge_change_set(&ChangeSet::new());
    assert_eq!(
        meter.gas_statement(),
        GasStatement { execution_gas_used: 3, storage_gas_used: 0 }
    );
    assert_eq!(meter.balance_internal(), 100);
    assert_eq!(meter.instructions().current, 0);
}

#[test]
fn charge_internal_execution_records_the_cost_on_success_only() {
    let mut meter = MoveOSGasMeter::new(initial_cost_schedule(), 15);
    assert_eq!(meter.charge_internal_execution(1, 1, 0, 8, 0), Ok(()));
    assert_eq!(meter.gas_statement().execution_gas_used, 10);
    assert_eq!(meter.charge_internal_execution(1, 1, 0, 8, 0), Err(GasError::OutOfGas));
    assert_eq!(meter.gas_statement().execution_gas_used, 10);
    assert_eq!(meter.balance_internal(), 0);
}

#[test]
fn unmetered_charges_are_still_recorded_as_execution_gas() {
    let mut meter = MoveOSGasMeter::new(initial_cost_schedule(), 15);
    meter.stop_metering();
    assert_eq!(meter.charge_internal_execution(1, 1, 0, 8, 0), Ok(()));
    assert_eq!(meter.charge_internal_execution(1, 1, 0, 8, 0), Ok(()));
    assert_eq!(meter.gas_statement().execution_gas_used, 20);
    assert_eq!(meter.balance_internal(), 15);
}

#[test]
fn a_clone_goes_its_own_way() {
    let mut meter = MoveOSGasMeter::new(initial_cost_schedule(), 100);
    assert_eq!(meter.charge_internal_execution(1, 1, 0, 8, 0), Ok(()));
    let mut copy = meter.clone();
    assert_eq!(copy.balance_internal(), 90);
    assert_eq!(copy.stack_size().current, 8);
    assert_eq!(copy.gas_statement().execution_gas_used, 10);
    assert_eq!(copy.charge_internal_execution(1, 1, 0, 8, 0), Ok(()));
    assert_eq!(copy.balance_internal(), 80);
    assert_eq!(meter.balance_internal(), 90);
    assert_eq!(meter.gas_statement().execution_gas_used, 10);
}
