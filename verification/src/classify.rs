//! Classification of consumed gas into execution and storage.
use move_core_types::effects::ChangeSet;
use vstd::prelude::*;

verus! {

/// `move_core_types::effects::ChangeSet`, the changes that a transaction makes
/// to modules and resources. Nothing is claimed of it: the meter takes a
/// reference to one and does not look inside.
#[verifier::external_type_specification]
#[verifier::external_body]
pub struct ExChangeSet(move_core_types::effects::ChangeSet);

/// What a transaction has consumed, by kind.
#[derive(Clone, Copy, Debug, PartialEq, Eq, Structural)]
pub struct GasStatement {
    pub execution_gas_used: u64,
    pub storage_gas_used: u64,
}

impl GasStatement {
    /// The statement after `gas_cost` more execution gas; the total stays at
    /// `u64::MAX` once it has reached it.
    pub open spec fn with_execution(self, gas_cost: u64) -> GasStatement {
        GasStatement {
            execution_gas_used: if self.execution_gas_used + gas_cost <= u64::MAX {
                (self.execution_gas_used + gas_cost) as u64
            } else {
                u64::MAX
            },
            ..self
        }
    }
}

/// A meter that keeps separate totals for execution and storage.
pub trait ClassifiedGasMeter {
    /// Records `gas_cost` as spent on execution.
    fn charge_execution(&mut self, gas_cost: u64);

    /// Hook for the cost of writes to storage.
    fn charge_io_write(&mut self);

    /// Hook for the cost of a change set.
    fn charge_change_set(&mut self, change_set: &ChangeSet);

    /// The totals recorded so far.
    fn gas_statement(&self) -> GasStatement;
}

} // verus!
