use moveos_gas::cost::GasCost;
use moveos_gas::size::total_abstract_size;
use moveos_gas::table::{
    initial_cost_schedule, zero_cost_schedule, CostTable, INSTRUCTION_TIER_DEFAULT,
    STACK_HEIGHT_TIER_DEFAULT, STACK_SIZE_TIER_DEFAULT,
};
use std::collections::BTreeMap;

#[test]
fn defaults_are_one() {
    assert_eq!(INSTRUCTION_TIER_DEFAULT, 1);
    assert_eq!(STACK_HEIGHT_TIER_DEFAULT, 1);
    assert_eq!(STACK_SIZE_TIER_DEFAULT, 1);
}

#[test]
fn lookup_in_an_empty_table_gives_the_default() {
    let tiers: BTreeMap<u64, u64> = BTreeMap::new();
    assert_eq!(CostTable::get_current_and_future_tier(&tiers, 0, 7), (7, None));
    assert_eq!(CostTable::get_current_and_future_tier(&tiers, 5, 7), (7, None));
    assert_eq!(CostTable::get_current_and_future_tier(&tiers, u64::MAX, 9), (9, None));
}

#[test]
fn lookup_below_every_key_gives_the_default_and_the_smallest_key() {
    let mut tiers: BTreeMap<u64, u64> = BTreeMap::new();
    tiers.insert(20, 4);
    tiers.insert(10, 3);
    assert_eq!(CostTable::get_current_and_future_tier(&tiers, 0, 7), (7, Some(10)));
    assert_eq!(CostTable::get_current_and_future_tier(&tiers, 9, 7), (7, Some(10)));
}

#[test]
fn lookup_takes_the_floor_key_and_the_next_key() {
    let mut tiers: BTreeMap<u64, u64> = BTreeMap::new();
    tiers.insert(20, 4);
    tiers.insert(10, 3);
    tiers.insert(u64::MAX, 11);
    assert_eq!(CostTable::get_current_and_future_tier(&tiers, 10, 7), (3, Some(20)));
    assert_eq!(CostTable::get_current_and_future_tier(&tiers, 19, 7), (3, Some(20)));
    assert_eq!(CostTable::get_current_and_future_tier(&tiers, 20, 7), (4, Some(u64::MAX)));
    assert_eq!(
        CostTable::get_current_and_future_tier(&tiers, u64::MAX - 1, 7),
        (4, Some(u64::MAX))
    );
    assert_eq!(CostTable::get_current_and_future_tier(&tiers, u64::MAX, 7), (11, None));
}

#[test]
fn initial_instruction_tiers_have_the_published_breakpoints() {
    let table = initial_cost_schedule();
    let expected: [(u64, u64); 9] = [
        (0, 1),
        (3000, 2),
        (6000, 3),
        (8000, 5),
        (9000, 9),
        (9500, 16),
        (10000, 29),
        (10500, 50),
        (15000, 100),
    ];
    let got: Vec<(u64, u64)> = table.instruction_tiers.iter().map(|(k, v)| (*k, *v)).collect();
    assert_eq!(got, expected.to_vec());
}

#[test]
fn initial_stack_height_tiers_have_the_published_breakpoints() {
    let table = initial_cost_schedule();
    let expected: [(u64, u64); 9] = [
        (0, 1),
        (400, 2),
        (800, 3),
        (1200, 5),
        (1500, 9),
        (1800, 16),
        (2000, 29),
        (2200, 50),
        (5000, 100),
    ];
    let got: Vec<(u64, u64)> = table.stack_height_tiers.iter().map(|(k, v)| (*k, *v)).collect();
    assert_eq!(got, expected.to_vec());
}

#[test]
fn initial_stack_size_tiers_keep_the_later_entry_of_the_repeated_breakpoint() {
    let table = initial_cost_schedule();
    let expected: [(u64, u64); 8] = [
        (0, 1),
        (2000, 2),
        (5000, 3),
        (8000, 5),
        (10000, 9),
        (11000, 16),
        (11500, 50),
        (20000, 100),
    ];
    let got: Vec<(u64, u64)> = table.stack_size_tiers.iter().map(|(k, v)| (*k, *v)).collect();
    assert_eq!(got, expected.to_vec());
    assert_eq!(table.stack_size_tier(11499), (16, Some(11500)));
    assert_eq!(table.stack_size_tier(11500), (50, Some(20000)));
}

#[test]
fn initial_schedule_lookups() {
    let table = initial_cost_schedule();
    assert_eq!(table.instruction_tier(0), (1, Some(3000)));
    assert_eq!(table.instruction_tier(2999), (1, Some(3000)));
    assert_eq!(table.instruction_tier(3000), (2, Some(6000)));
    assert_eq!(table.instruction_tier(3001), (2, Some(6000)));
    assert_eq!(table.instruction_tier(14999), (50, Some(15000)));
    assert_eq!(table.instruction_tier(15000), (100, None));
    assert_eq!(table.instruction_tier(u64::MAX), (100, None));
    assert_eq!(table.stack_height_tier(0), (1, Some(400)));
    assert_eq!(table.stack_height_tier(400), (2, Some(800)));
    assert_eq!(table.stack_height_tier(1000), (3, Some(1200)));
    assert_eq!(table.stack_height_tier(5000), (100, None));
    assert_eq!(table.stack_size_tier(0), (1, Some(2000)));
    assert_eq!(table.stack_size_tier(19999), (50, Some(20000)));
    assert_eq!(table.stack_size_tier(20000), (100, None));
}

#[test]
fn zero_schedule_is_flat() {
    let table = zero_cost_schedule();
    assert_eq!(table.instruction_tiers.len(), 1);
    assert_eq!(table.stack_height_tiers.len(), 1);
    assert_eq!(table.stack_size_tiers.len(), 1);
    for x in [0u64, 1, 3000, u64::MAX] {
        assert_eq!(table.instruction_tier(x), (0, None));
        assert_eq!(table.stack_height_tier(x), (0, None));
        assert_eq!(table.stack_size_tier(x), (0, None));
    }
}

#[test]
fn each_dimension_looks_up_its_own_table() {
    let mut table = zero_cost_schedule();
    table.instruction_tiers.insert(5, 11);
    table.stack_height_tiers.insert(6, 12);
    table.stack_size_tiers.insert(7, 13);
    assert_eq!(table.instruction_tier(5), (11, None));
    assert_eq!(table.stack_height_tier(5), (0, Some(6)));
    assert_eq!(table.stack_size_tier(5), (0, Some(7)));
    assert_eq!(table.stack_height_tier(6), (12, None));
    assert_eq!(table.stack_size_tier(7), (13, None));
}

#[test]
fn cloned_schedule_equals_the_original() {
    let table = initial_cost_schedule();
    let copy = table.clone();
    assert_eq!(copy, table);
    assert_ne!(copy, zero_cost_schedule());
}

#[test]
fn gas_cost_total_is_the_sum() {
    let cost = GasCost::new(1, 8, 1);
    assert_eq!(cost.instruction_gas, 1);
    assert_eq!(cost.memory_gas, 8);
    assert_eq!(cost.stack_height_gas, 1);
    assert_eq!(cost.total(), 10);
    assert_eq!(cost.checked_total(), Some(10));
    assert_eq!(GasCost::new(0, 0, 0).total(), 0);
}

#[test]
fn gas_cost_total_does_not_wrap() {
    let cost = GasCost::new(u64::MAX, 1, 0);
    assert_eq!(cost.total(), u64::MAX);
    assert_eq!(cost.checked_total(), None);
    let cost = GasCost::new(u64::MAX - 2, 1, 1);
    assert_eq!(cost.total(), u64::MAX);
    assert_eq!(cost.checked_total(), Some(u64::MAX));
    let cost = GasCost::new(u64::MAX - 2, 1, 2);
    assert_eq!(cost.total(), u64::MAX);
    assert_eq!(cost.checked_total(), None);
}

#[test]
fn abstract_sizes_add_up() {
    assert_eq!(total_abstract_size(0, &[]), 0);
    assert_eq!(total_abstract_size(3, &[]), 3);
    assert_eq!(total_abstract_size(3, &[1, 2]), 6);
    assert_eq!(total_abstract_size(0, &[8, 8, 16]), 32);
}

#[test]
fn abstract_sizes_stay_at_the_maximum() {
    assert_eq!(total_abstract_size(1, &[u64::MAX]), u64::MAX);
    assert_eq!(total_abstract_size(0, &[u64::MAX, u64::MAX, 5]), u64::MAX);
    assert_eq!(total_abstract_size(0, &[u64::MAX - 1, 1]), u64::MAX);
}
