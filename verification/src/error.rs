//! The two ways in which a charge can fail.
use vstd::prelude::*;

verus! {

/// Why a charge was refused. Both are fatal to the transaction.
#[derive(Clone, Copy, Debug, PartialEq, Eq, Structural)]
pub enum GasError {
    /// The computed cost exceeds the gas that is left.
    OutOfGas,
    /// A counter update or a cost computation does not fit in 64 bits.
    ArithmeticError,
}

} // verus!
