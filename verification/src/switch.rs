//! Switching the deduction of gas on and off.
use vstd::prelude::*;

verus! {

/// A meter whose deduction of gas can be suspended and resumed.
pub trait SwitchableGasMeter {
    /// Suspends the deduction of gas.
    fn stop_metering(&mut self);

    /// Resumes the deduction of gas.
    fn start_metering(&mut self);

    /// Whether gas is deducted at present.
    fn is_metering(&self) -> bool;
}

} // verus!
