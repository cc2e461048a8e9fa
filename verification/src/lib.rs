//! A tiered gas meter for a stack-based bytecode virtual machine.
//!
//! Every bytecode instruction and every native call is priced from three tier
//! schedules (instruction count, operand-stack height, operand-stack size),
//! the price is deducted from a finite budget, and execution stops with an
//! out-of-gas error once the budget is exhausted.
pub mod classify;
pub mod cost;
pub mod counter;
pub mod error;
pub mod instr;
pub mod laws;
pub mod meter;
pub mod model;
pub mod size;
pub mod switch;
pub mod table;
pub mod tier;
pub mod vm;
