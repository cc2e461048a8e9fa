//! What holds of the meter over whole sequences of charges, and in its
//! boundary cases.
use crate::counter::Counter;
use crate::error::GasError;
use crate::model::{MeterView, ResourceCounters};
use crate::size::clamped;
use crate::table::{
    initial_schedule, lemma_zero_schedule_is_flat, zero_schedule, INSTRUCTION_TIER_DEFAULT,
    STACK_HEIGHT_TIER_DEFAULT, STACK_SIZE_TIER_DEFAULT,
};
use crate::tier::{
    lemma_multiplier_at_floor, lemma_multiplier_at_key, lemma_next_tier_start_meaning,
    lemma_tier_stable, no_key_within, tier_multiplier,
};
use vstd::prelude::*;

verus! {

/// One charge as the charge engine takes it.
pub struct ChargeOp {
    pub num_instructions: u64,
    pub pushes: u64,
    pub pops: u64,
    pub incr_size: u64,
    pub decr_size: u64,
}

impl ResourceCounters {
    /// The charge neither overflows a counter nor costs more than 64 bits hold.
    pub open spec fn admits(self, op: ChargeOp) -> bool {
        &&& self.counters_fit(op.num_instructions, op.pushes, op.incr_size)
        &&& self.cost(op.num_instructions, op.pushes, op.incr_size) <= u64::MAX
    }

    /// The cost of the charge.
    pub open spec fn cost_of(self, op: ChargeOp) -> int {
        self.cost(op.num_instructions, op.pushes, op.incr_size)
    }

    /// The counters after a successful charge: grown, then popped.
    pub open spec fn settle(self, op: ChargeOp) -> ResourceCounters {
        self.counted(op.num_instructions, op.pushes, op.incr_size).pop_stack(op.pops)
    }

    /// Every charge of the sequence, made in order, is admitted.
    pub open spec fn admits_all(self, ops: Seq<ChargeOp>) -> bool
        decreases ops.len(),
    {
        ops.len() == 0 || (self.admits(ops[0]) && self.settle(ops[0]).admits_all(ops.drop_first()))
    }

    /// The sum of the costs of the charges, made in order.
    pub open spec fn total_cost(self, ops: Seq<ChargeOp>) -> int
        decreases ops.len(),
    {
        if ops.len() == 0 {
            0
        } else {
            self.cost_of(ops[0]) + self.settle(ops[0]).total_cost(ops.drop_first())
        }
    }

    /// The counters after all charges of the sequence.
    pub open spec fn after(self, ops: Seq<ChargeOp>) -> ResourceCounters
        decreases ops.len(),
    {
        if ops.len() == 0 {
            self
        } else {
            self.settle(ops[0]).after(ops.drop_first())
        }
    }
}

impl MeterView {
    /// One charge, recorded as execution gas where it succeeds.
    pub open spec fn apply(self, op: ChargeOp) -> (MeterView, Result<(), GasError>) {
        self.charge_internal_execution(
            op.num_instructions,
            op.pushes,
            op.pops,
            op.incr_size,
            op.decr_size,
        )
    }

    /// The meter after the charges of the sequence, made in order up to and
    /// including the first that fails.
    pub open spec fn run(self, ops: Seq<ChargeOp>) -> MeterView
        decreases ops.len(),
    {
        if ops.len() == 0 {
            self
        } else if self.apply(ops[0]).1 is Ok {
            self.apply(ops[0]).0.run(ops.drop_first())
        } else {
            self.apply(ops[0]).0
        }
    }

    /// The first failure among the charges of the sequence, or `Ok`.
    pub open spec fn outcome(self, ops: Seq<ChargeOp>) -> Result<(), GasError>
        decreases ops.len(),
    {
        if ops.len() == 0 {
            Ok(())
        } else if self.apply(ops[0]).1 is Ok {
            self.apply(ops[0]).0.outcome(ops.drop_first())
        } else {
            self.apply(ops[0]).1
        }
    }
}

/// What one charge does, case by case: an arithmetic error exactly where a
/// counter or the cost overflows, with the gas untouched; out of gas exactly
/// where metering is on and the cost exceeds the gas that is left, which is
/// then zero, the counters having grown and nothing popped; success
/// otherwise, with the cost deducted when metering is on and recorded as
/// execution gas.
pub proof fn lemma_apply(v: MeterView, op: ChargeOp)
    requires
        v.wf(),
    ensures
        !v.counters.admits(op) ==> {
            &&& v.apply(op).1 == Err::<(), GasError>(GasError::ArithmeticError)
            &&& v.apply(op).0.gas_left == v.gas_left
            &&& v.apply(op).0.gas_statement() == v.gas_statement()
        },
        v.counters.admits(op) && v.metering && v.counters.cost_of(op) > v.gas_left ==> {
            &&& v.apply(op).1 == Err::<(), GasError>(GasError::OutOfGas)
            &&& v.apply(op).0 == MeterView {
                counters: v.counters.counted(op.num_instructions, op.pushes, op.incr_size),
                gas_left: 0,
                ..v
            }
        },
        v.counters.admits(op) && !(v.metering && v.counters.cost_of(op) > v.gas_left) ==> {
            &&& v.apply(op).1 is Ok
            &&& v.apply(op).0 == MeterView {
                counters: v.counters.settle(op),
                gas_left: if v.metering {
                    (v.gas_left - v.counters.cost_of(op)) as u64
                } else {
                    v.gas_left
                },
                execution_gas_used: clamped(v.execution_gas_used + v.counters.cost_of(op)),
                ..v
            }
        },
        v.counters.counters_fit(op.num_instructions, op.pushes, op.incr_size)
            ==> v.counters.cost_of(op) >= 0,
        v.apply(op).0.wf(),
        v.apply(op).0.metering == v.metering,
        v.apply(op).0.counters.cost_table == v.counters.cost_table,
{
    v.lemma_charge_wf(op.num_instructions, op.pushes, op.pops, op.incr_size, op.decr_size);
    if v.counters.counters_fit(op.num_instructions, op.pushes, op.incr_size) {
        v.counters.lemma_counted_wf(op.num_instructions, op.pushes, op.incr_size);
    }
}

/// The costs of an admitted sequence are never negative, and the counters stay
/// well-formed along it.
pub proof fn lemma_total_cost_bounds(c: ResourceCounters, ops: Seq<ChargeOp>)
    requires
        c.wf(),
        c.admits_all(ops),
    ensures
        c.total_cost(ops) >= 0,
        c.after(ops).wf(),
        c.after(ops).cost_table == c.cost_table,
    decreases ops.len(),
{
    if ops.len() > 0 {
        let op = ops[0];
        c.lemma_counted_wf(op.num_instructions, op.pushes, op.incr_size);
        c.counted(op.num_instructions, op.pushes, op.incr_size).lemma_phases_wf(op.pops);
        lemma_total_cost_bounds(c.settle(op), ops.drop_first());
    }
}

/// Whatever a charge comes to, the gas that is left does not grow, and does
/// not move at all with metering off; the instruction count, the stack size
/// and every high-water mark do not shrink; the schedule and the switch stay
/// as they are.
pub proof fn lemma_charge_is_monotone(v: MeterView, op: ChargeOp)
    requires
        v.wf(),
    ensures
        v.apply(op).0.gas_left <= v.gas_left,
        !v.metering ==> v.apply(op).0.gas_left == v.gas_left,
        v.apply(op).0.counters.instructions.current >= v.counters.instructions.current,
        v.apply(op).0.counters.stack_size.current >= v.counters.stack_size.current,
        v.apply(op).0.counters.stack_height.high_water_mark
            >= v.counters.stack_height.high_water_mark,
        v.apply(op).0.counters.stack_size.high_water_mark
            >= v.counters.stack_size.high_water_mark,
        v.apply(op).0.execution_gas_used >= v.execution_gas_used,
        v.apply(op).0.storage_gas_used == v.storage_gas_used,
        v.apply(op).0.counters.cost_table == v.counters.cost_table,
        v.apply(op).0.metering == v.metering,
{
    lemma_apply(v, op);
    let c = v.counters;
    c.lemma_phases_wf(op.pushes);
    if c.stack_height.fits(op.pushes) {
        c.stack_height.lemma_grow_wf(
            c.cost_table.stack_height_tiers,
            STACK_HEIGHT_TIER_DEFAULT,
            op.pushes,
        );
        let pushed = c.push_stack(op.pushes);
        pushed.lemma_phases_wf(op.num_instructions);
        if pushed.instructions.fits(op.num_instructions) {
            pushed.instructions.lemma_grow_wf(
                c.cost_table.instruction_tiers,
                INSTRUCTION_TIER_DEFAULT,
                op.num_instructions,
            );
            let stepped = pushed.increase_instruction_count(op.num_instructions);
            if stepped.stack_size.fits(op.incr_size) {
                stepped.stack_size.lemma_grow_wf(
                    c.cost_table.stack_size_tiers,
                    STACK_SIZE_TIER_DEFAULT,
                    op.incr_size,
                );
            }
        }
    }
}

/// A sequence of charges that overflows nowhere and costs no more in total
/// than the gas that is left succeeds as a whole: the gas left at the end is
/// the gas at the start less the sum of the costs, and the sum is what has
/// been recorded as execution gas.
pub proof fn lemma_charges_within_budget(v: MeterView, ops: Seq<ChargeOp>)
    requires
        v.wf(),
        v.metering,
        v.counters.admits_all(ops),
        v.counters.total_cost(ops) <= v.gas_left,
    ensures
        v.outcome(ops) is Ok,
        v.run(ops).gas_left == v.gas_left - v.counters.total_cost(ops),
        v.run(ops).counters == v.counters.after(ops),
        v.run(ops).execution_gas_used == clamped(
            v.execution_gas_used + v.counters.total_cost(ops),
        ),
        v.run(ops).storage_gas_used == v.storage_gas_used,
        v.run(ops).metering,
    decreases ops.len(),
{
    if ops.len() > 0 {
        let op = ops[0];
        lemma_apply(v, op);
        v.counters.lemma_counted_wf(op.num_instructions, op.pushes, op.incr_size);
        v.counters.counted(op.num_instructions, op.pushes, op.incr_size).lemma_phases_wf(op.pops);
        lemma_total_cost_bounds(v.counters.settle(op), ops.drop_first());
        lemma_charges_within_budget(v.apply(op).0, ops.drop_first());
    }
}

/// After charges that were all paid for, the first charge whose cost exceeds
/// the gas that is left fails for want of gas and leaves no gas. Its growth
/// has been counted; nothing is popped, nothing is recorded as spent, and what
/// the earlier charges recorded stays.
pub proof fn lemma_first_unaffordable_charge(v: MeterView, ops: Seq<ChargeOp>, op: ChargeOp)
    requires
        v.wf(),
        v.metering,
        v.counters.admits_all(ops),
        v.counters.total_cost(ops) <= v.gas_left,
        v.counters.after(ops).admits(op),
        v.counters.total_cost(ops) + v.counters.after(ops).cost_of(op) > v.gas_left,
    ensures
        v.outcome(ops) is Ok,
        v.run(ops).apply(op).1 == Err::<(), GasError>(GasError::OutOfGas),
        v.run(ops).apply(op).0 == (MeterView {
            counters: v.run(ops).counters.counted(op.num_instructions, op.pushes, op.incr_size),
            gas_left: 0,
            ..v.run(ops)
        }),
{
    lemma_charges_within_budget(v, ops);
    lemma_total_cost_bounds(v.counters, ops);
    lemma_apply(v.run(ops), op);
}

/// With metering off the gas that is left never changes and no charge fails
/// for want of gas; the counters run as they do with metering on.
pub proof fn lemma_unmetered_gas_is_invariant(v: MeterView, ops: Seq<ChargeOp>)
    requires
        v.wf(),
        !v.metering,
    ensures
        v.run(ops).gas_left == v.gas_left,
        v.outcome(ops) != Err::<(), GasError>(GasError::OutOfGas),
        v.counters.admits_all(ops) ==> v.outcome(ops) is Ok && v.run(ops).counters
            == v.counters.after(ops),
        v.counters.admits_all(ops) <==> v.outcome(ops) is Ok,
    decreases ops.len(),
{
    if ops.len() > 0 {
        let op = ops[0];
        lemma_apply(v, op);
        lemma_unmetered_gas_is_invariant(v.apply(op).0, ops.drop_first());
    }
}

/// The stack height after the charges: each adds its pushes and then takes
/// away its pops, stopping at zero.
pub open spec fn height_after(height: int, ops: Seq<ChargeOp>) -> int
    decreases ops.len(),
{
    if ops.len() == 0 {
        height
    } else {
        let raised = height + ops[0].pushes;
        height_after(
            if raised >= ops[0].pops {
                raised - ops[0].pops
            } else {
                0
            },
            ops.drop_first(),
        )
    }
}

/// The greatest stack height reached during the charges, or `peak` where that
/// is greater. The height of a charge is taken after its pushes.
pub open spec fn height_peak(peak: int, height: int, ops: Seq<ChargeOp>) -> int
    decreases ops.len(),
{
    if ops.len() == 0 {
        peak
    } else {
        let raised = height + ops[0].pushes;
        height_peak(
            if raised > peak {
                raised
            } else {
                peak
            },
            if raised >= ops[0].pops {
                raised - ops[0].pops
            } else {
                0
            },
            ops.drop_first(),
        )
    }
}

/// The sum of the incoming sizes of the charges.
pub open spec fn size_added(ops: Seq<ChargeOp>) -> int
    decreases ops.len(),
{
    if ops.len() == 0 {
        0
    } else {
        ops[0].incr_size + size_added(ops.drop_first())
    }
}

/// The sum of the instruction counts of the charges.
pub open spec fn instructions_added(ops: Seq<ChargeOp>) -> int
    decreases ops.len(),
{
    if ops.len() == 0 {
        0
    } else {
        ops[0].num_instructions + instructions_added(ops.drop_first())
    }
}

/// Over a sequence of successful charges the stack height is the sum of the
/// pushes less the pops, each subtraction stopping at zero; the stack size is
/// the sum of the incoming sizes, from which outgoing sizes are not taken;
/// the instruction count is the sum of the counts; and each high-water mark
/// is the greatest value that its counter has reached.
pub proof fn lemma_counters_follow_charges(c: ResourceCounters, ops: Seq<ChargeOp>)
    requires
        c.wf(),
        c.admits_all(ops),
    ensures
        c.after(ops).stack_height.current == height_after(c.stack_height.current as int, ops),
        c.after(ops).stack_height.high_water_mark == height_peak(
            c.stack_height.high_water_mark as int,
            c.stack_height.current as int,
            ops,
        ),
        c.after(ops).stack_size.current == c.stack_size.current + size_added(ops),
        c.after(ops).stack_size.high_water_mark == c.after(ops).stack_size.current,
        c.after(ops).instructions.current == c.instructions.current + instructions_added(ops),
    decreases ops.len(),
{
    if ops.len() > 0 {
        let op = ops[0];
        c.lemma_counted_wf(op.num_instructions, op.pushes, op.incr_size);
        let grown = c.counted(op.num_instructions, op.pushes, op.incr_size);
        grown.lemma_phases_wf(op.pops);
        c.stack_height.lemma_grow_wf(
            c.cost_table.stack_height_tiers,
            STACK_HEIGHT_TIER_DEFAULT,
            op.pushes,
        );
        c.instructions.lemma_grow_wf(
            c.cost_table.instruction_tiers,
            INSTRUCTION_TIER_DEFAULT,
            op.num_instructions,
        );
        c.stack_size.lemma_grow_wf(
            c.cost_table.stack_size_tiers,
            STACK_SIZE_TIER_DEFAULT,
            op.incr_size,
        );
        lemma_counters_follow_charges(c.settle(op), ops.drop_first());
    }
}

/// The cached multiplier of a well-formed counter is the multiplier that its
/// tier table gives for the counter's value, wherever no breakpoint separates
/// the value from the high-water mark and the counter does not await a
/// breakpoint. Where it awaits one, the cached multiplier is not yet that of
/// the high-water mark: a breakpoint takes effect only once the counter has
/// passed it. A release does not lower the tier.
pub proof fn lemma_cached_multiplier(c: Counter, tiers: Map<u64, u64>, default: u64)
    requires
        c.wf(tiers, default),
    ensures
        !c.awaits_breakpoint(tiers) && no_key_within(tiers, c.current, c.high_water_mark)
            ==> c.current_tier_mult == tier_multiplier(tiers, c.current, default),
        c.awaits_breakpoint(tiers) <==> c.current_tier_mult != tier_multiplier(
            tiers,
            c.high_water_mark,
            default,
        ),
{
    lemma_next_tier_start_meaning(tiers, c.high_water_mark);
    if c.next_tier_start == Some(c.high_water_mark) {
        lemma_next_tier_start_meaning(tiers, (c.high_water_mark - 1) as u64);
        lemma_multiplier_at_key(tiers, default, c.high_water_mark);
    }
    if no_key_within(tiers, c.current, c.high_water_mark) {
        lemma_tier_stable(tiers, default, c.current, c.high_water_mark);
    }
}

/// In every well-formed meter, and so after every charge, the cached
/// multiplier of the instruction count and of the stack size is the one that
/// the schedule gives for the counter, unless the counter awaits a
/// breakpoint; the same holds of the stack height while the stack is at its
/// greatest height.
pub proof fn lemma_cached_multipliers(v: MeterView)
    requires
        v.wf(),
    ensures
        !v.counters.instructions.awaits_breakpoint(v.counters.cost_table.instruction_tiers)
            <==> v.counters.instructions.current_tier_mult
            == v.counters.cost_table.instruction_tier(v.counters.instructions.current).0,
        !v.counters.stack_size.awaits_breakpoint(v.counters.cost_table.stack_size_tiers)
            <==> v.counters.stack_size.current_tier_mult == v.counters.cost_table.stack_size_tier(
            v.counters.stack_size.current,
        ).0,
        v.counters.stack_height.current == v.counters.stack_height.high_water_mark ==> (
        !v.counters.stack_height.awaits_breakpoint(v.counters.cost_table.stack_height_tiers)
            <==> v.counters.stack_height.current_tier_mult
            == v.counters.cost_table.stack_height_tier(v.counters.stack_height.current).0),
{
    let c = v.counters;
    lemma_cached_multiplier(c.instructions, c.cost_table.instruction_tiers, INSTRUCTION_TIER_DEFAULT);
    lemma_cached_multiplier(c.stack_size, c.cost_table.stack_size_tiers, STACK_SIZE_TIER_DEFAULT);
    lemma_cached_multiplier(c.stack_height, c.cost_table.stack_height_tiers, STACK_HEIGHT_TIER_DEFAULT);
}

/// A well-formed counter priced by the flat table `0 -> 0` has multiplier 0
/// cached and no breakpoint ahead.
pub proof fn lemma_flat_counter(c: Counter, default: u64)
    requires
        c.wf(map![0u64 => 0u64], default),
    ensures
        c.current_tier_mult == 0,
        c.next_tier_start is None,
{
    lemma_zero_schedule_is_flat(c.high_water_mark, default);
    if c.high_water_mark >= 1 {
        lemma_zero_schedule_is_flat((c.high_water_mark - 1) as u64, default);
    }
}

/// Under the unmetered schedule every charge costs nothing, whatever its
/// deltas: it fails only where a counter overflows, it never fails for want
/// of gas, and it leaves the gas and the recorded totals as they are.
pub proof fn lemma_zero_schedule_costs_nothing(v: MeterView, op: ChargeOp)
    requires
        v.wf(),
        v.counters.cost_table == zero_schedule(),
    ensures
        v.counters.counters_fit(op.num_instructions, op.pushes, op.incr_size)
            ==> v.counters.cost_of(op) == 0,
        v.charge(op.num_instructions, op.pushes, op.pops, op.incr_size, op.decr_size).1 == (
        if v.counters.counters_fit(op.num_instructions, op.pushes, op.incr_size) {
            Ok::<u64, GasError>(0)
        } else {
            Err::<u64, GasError>(GasError::ArithmeticError)
        }),
        v.apply(op).1 is Ok <==> v.counters.counters_fit(
            op.num_instructions,
            op.pushes,
            op.incr_size,
        ),
        v.apply(op).0.gas_left == v.gas_left,
        v.apply(op).0.gas_statement() == v.gas_statement(),
        v.apply(op).0.counters.cost_table == zero_schedule(),
        v.apply(op).0.wf(),
{
    lemma_apply(v, op);
    if v.counters.counters_fit(op.num_instructions, op.pushes, op.incr_size) {
        v.counters.lemma_counted_wf(op.num_instructions, op.pushes, op.incr_size);
        let grown = v.counters.counted(op.num_instructions, op.pushes, op.incr_size);
        lemma_flat_counter(grown.instructions, INSTRUCTION_TIER_DEFAULT);
        lemma_flat_counter(grown.stack_size, STACK_SIZE_TIER_DEFAULT);
        lemma_flat_counter(grown.stack_height, STACK_HEIGHT_TIER_DEFAULT);
        assert(grown.instructions.current_tier_mult * op.num_instructions == 0) by (nonlinear_arith)
            requires
                grown.instructions.current_tier_mult == 0,
        ;
        assert(grown.stack_size.current_tier_mult * op.incr_size == 0) by (nonlinear_arith)
            requires
                grown.stack_size.current_tier_mult == 0,
        ;
        assert(grown.stack_height.current_tier_mult * op.pushes == 0) by (nonlinear_arith)
            requires
                grown.stack_height.current_tier_mult == 0,
        ;
    }
}

/// A delta of `u64::MAX` ends the charge with an arithmetic error and leaves
/// the gas alone, in each priced dimension (instructions, pushes, incoming
/// size) whose counter is already above zero or whose multiplier after the
/// growth is at least 2. Pops and outgoing sizes never cause an error.
pub proof fn lemma_max_delta_is_arithmetic_error(v: MeterView, op: ChargeOp)
    requires
        v.wf(),
        ({
            ||| op.pushes == u64::MAX && (v.counters.stack_height.current > 0
                || v.counters.push_stack(op.pushes).stack_height.current_tier_mult >= 2)
            ||| op.num_instructions == u64::MAX && (v.counters.instructions.current > 0
                || v.counters.increase_instruction_count(
                op.num_instructions,
            ).instructions.current_tier_mult >= 2)
            ||| op.incr_size == u64::MAX && (v.counters.stack_size.current > 0
                || v.counters.increase_stack_size(op.incr_size).stack_size.current_tier_mult >= 2)
        }),
    ensures
        v.charge(op.num_instructions, op.pushes, op.pops, op.incr_size, op.decr_size).1 == Err::<
            u64,
            GasError,
        >(GasError::ArithmeticError),
        v.apply(op).1 == Err::<(), GasError>(GasError::ArithmeticError),
        v.apply(op).0.gas_left == v.gas_left,
        v.apply(op).0.gas_statement() == v.gas_statement(),
{
    lemma_apply(v, op);
    if v.counters.counters_fit(op.num_instructions, op.pushes, op.incr_size) {
        v.counters.lemma_counted_wf(op.num_instructions, op.pushes, op.incr_size);
        let grown = v.counters.counted(op.num_instructions, op.pushes, op.incr_size);
        let a = grown.instructions.current_tier_mult;
        let b = grown.stack_size.current_tier_mult;
        let c = grown.stack_height.current_tier_mult;
        assert(a * op.num_instructions >= 0 && b * op.incr_size >= 0 && c * op.pushes >= 0)
            by (nonlinear_arith);
        if op.pushes == u64::MAX && c >= 2 {
            assert(c * op.pushes > u64::MAX) by (nonlinear_arith)
                requires
                    c >= 2,
                    op.pushes == u64::MAX,
            ;
        } else if op.num_instructions == u64::MAX && a >= 2 {
            assert(a * op.num_instructions > u64::MAX) by (nonlinear_arith)
                requires
                    a >= 2,
                    op.num_instructions == u64::MAX,
            ;
        } else {
            assert(b * op.incr_size > u64::MAX) by (nonlinear_arith)
                requires
                    b >= 2,
                    op.incr_size == u64::MAX,
            ;
        }
    }
}

/// A counter at zero that grows by `u64::MAX` is priced by the last tier of
/// its table.
pub proof fn lemma_growth_to_the_top(c: Counter, tiers: Map<u64, u64>, default: u64, top: u64)
    requires
        c.wf(tiers, default),
        c.current == 0,
        tiers.contains_key(top),
        forall|k: u64| tiers.contains_key(k) ==> k <= top,
        top < u64::MAX,
    ensures
        c.grow(tiers, default, u64::MAX).current_tier_mult == tiers[top],
{
    let mark = c.high_water_mark;
    lemma_next_tier_start_meaning(tiers, mark);
    if mark >= 1 {
        lemma_next_tier_start_meaning(tiers, (mark - 1) as u64);
    }
    assert(crate::tier::is_floor_key(tiers, u64::MAX, top));
    lemma_multiplier_at_floor(tiers, u64::MAX, default, top);
    if c.next_tier_start is None {
        assert(crate::tier::is_floor_key(tiers, mark, top));
        lemma_multiplier_at_floor(tiers, mark, default, top);
    }
}

/// Under the production schedule a delta of `u64::MAX` in instructions,
/// pushes or incoming size always ends the charge with an arithmetic error
/// and leaves the gas alone.
pub proof fn lemma_max_delta_under_initial_schedule(v: MeterView, op: ChargeOp)
    requires
        v.wf(),
        v.counters.cost_table == initial_schedule(),
        op.pushes == u64::MAX || op.num_instructions == u64::MAX || op.incr_size == u64::MAX,
    ensures
        v.apply(op).1 == Err::<(), GasError>(GasError::ArithmeticError),
        v.apply(op).0.gas_left == v.gas_left,
{
    let c = v.counters;
    if op.pushes == u64::MAX && c.stack_height.current == 0 {
        lemma_growth_to_the_top(
            c.stack_height,
            c.cost_table.stack_height_tiers,
            STACK_HEIGHT_TIER_DEFAULT,
            5000,
        );
    }
    if op.num_instructions == u64::MAX && c.instructions.current == 0 {
        lemma_growth_to_the_top(
            c.instructions,
            c.cost_table.instruction_tiers,
            INSTRUCTION_TIER_DEFAULT,
            15000,
        );
    }
    if op.incr_size == u64::MAX && c.stack_size.current == 0 {
        lemma_growth_to_the_top(
            c.stack_size,
            c.cost_table.stack_size_tiers,
            STACK_SIZE_TIER_DEFAULT,
            20000,
        );
    }
    lemma_max_delta_is_arithmetic_error(v, op);
}

} // verus!
