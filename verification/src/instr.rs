//! The simple instructions and what each does to the operand stack.
//!
//! The meter is asked before operand types are known, so where a width is open
//! the map assumes the smallest operand popped and the largest result pushed:
//! a charge may be too high, never too low.
use vstd::prelude::*;

verus! {

/// The size in bytes for a reference on the stack
pub const REFERENCE_SIZE: u64 = 8;

/// The size of a struct in bytes
pub const STRUCT_SIZE: u64 = 2;

/// The size of a vector (without its containing data) in bytes
pub const VEC_SIZE: u64 = 8;

/// The size of a boolean on the stack
pub const BOOL_SIZE: u64 = 1;

/// The size of an 8-bit integer on the stack
pub const U8_SIZE: u64 = 1;

/// The size of a 16-bit integer on the stack
pub const U16_SIZE: u64 = 2;

/// The size of a 32-bit integer on the stack
pub const U32_SIZE: u64 = 4;

/// The size of a 64-bit integer on the stack
pub const U64_SIZE: u64 = 8;

/// The size of a 128-bit integer on the stack
pub const U128_SIZE: u64 = 16;

/// The size of a 256-bit integer on the stack
pub const U256_SIZE: u64 = 32;

/// The size of an account address on the stack
pub const ADDRESS_SIZE: u64 = 32;

/// The instructions that are charged by their kind alone.
#[derive(Clone, Copy, Debug, PartialEq, Eq, Structural)]
pub enum SimpleInstruction {
    Nop,
    Ret,
    LdU8,
    LdU16,
    LdU32,
    LdU64,
    LdU128,
    LdU256,
    LdTrue,
    LdFalse,
    FreezeRef,
    MutBorrowLoc,
    ImmBorrowLoc,
    ImmBorrowField,
    MutBorrowField,
    ImmBorrowFieldGeneric,
    MutBorrowFieldGeneric,
    CastU8,
    CastU16,
    CastU32,
    CastU64,
    CastU128,
    CastU256,
    Add,
    Sub,
    Mul,
    Mod,
    Div,
    BitOr,
    BitAnd,
    Xor,
    Shl,
    Shr,
    Or,
    And,
    Not,
    Lt,
    Gt,
    Le,
    Ge,
    Abort,
}

impl SimpleInstruction {
    /// For a literal load, the size of the literal.
    pub open spec fn loaded_size(self) -> Option<u64> {
        match self {
            SimpleInstruction::LdU8 => Some(U8_SIZE),
            SimpleInstruction::LdU16 => Some(U16_SIZE),
            SimpleInstruction::LdU32 => Some(U32_SIZE),
            SimpleInstruction::LdU64 => Some(U64_SIZE),
            SimpleInstruction::LdU128 => Some(U128_SIZE),
            SimpleInstruction::LdU256 => Some(U256_SIZE),
            SimpleInstruction::LdTrue | SimpleInstruction::LdFalse => Some(BOOL_SIZE),
            _ => None,
        }
    }

    /// For a cast, the size of the type cast to.
    pub open spec fn cast_size(self) -> Option<u64> {
        match self {
            SimpleInstruction::CastU8 => Some(U8_SIZE),
            SimpleInstruction::CastU16 => Some(U16_SIZE),
            SimpleInstruction::CastU32 => Some(U32_SIZE),
            SimpleInstruction::CastU64 => Some(U64_SIZE),
            SimpleInstruction::CastU128 => Some(U128_SIZE),
            SimpleInstruction::CastU256 => Some(U256_SIZE),
            _ => None,
        }
    }

    /// Leaves the stack as it is. The pops of `Ret` are charged at the call.
    pub open spec fn is_neutral(self) -> bool {
        self is Nop || self is Ret
    }

    /// Borrows a local: nothing is popped.
    pub open spec fn borrows_local(self) -> bool {
        self is ImmBorrowLoc || self is MutBorrowLoc
    }

    /// Turns the reference on top of the stack into another reference.
    pub open spec fn maps_reference(self) -> bool {
        ||| self is FreezeRef
        ||| self is ImmBorrowField
        ||| self is MutBorrowField
        ||| self is ImmBorrowFieldGeneric
        ||| self is MutBorrowFieldGeneric
    }

    /// Arithmetic, bitwise and shift operations on two integers.
    pub open spec fn is_integer_binary(self) -> bool {
        ||| self is Add
        ||| self is Sub
        ||| self is Mul
        ||| self is Mod
        ||| self is Div
        ||| self is BitOr
        ||| self is BitAnd
        ||| self is Xor
        ||| self is Shl
        ||| self is Shr
    }

    /// Logical operations on two booleans.
    pub open spec fn is_logical_binary(self) -> bool {
        self is Or || self is And
    }

    /// Comparisons of two integers.
    pub open spec fn is_relational(self) -> bool {
        self is Lt || self is Gt || self is Le || self is Ge
    }

    /// What the instruction does to the operand stack, as
    /// `(pops, pushes, pop_size, push_size)`.
    pub open spec fn stack_change(self) -> (u64, u64, u64, u64) {
        if self.is_neutral() {
            (0, 0, 0, 0)
        } else if self.loaded_size() is Some {
            (0, 1, 0, self.loaded_size()->0)
        } else if self.borrows_local() {
            (0, 1, 0, REFERENCE_SIZE)
        } else if self.maps_reference() {
            (1, 1, REFERENCE_SIZE, REFERENCE_SIZE)
        } else if self.cast_size() is Some {
            (1, 1, U8_SIZE, self.cast_size()->0)
        } else if self.is_integer_binary() {
            (2, 1, (U8_SIZE + U8_SIZE) as u64, U256_SIZE)
        } else if self.is_logical_binary() {
            (2, 1, (BOOL_SIZE + BOOL_SIZE) as u64, BOOL_SIZE)
        } else if self.is_relational() {
            (2, 1, (U8_SIZE + U8_SIZE) as u64, BOOL_SIZE)
        } else if self is Not {
            (1, 1, BOOL_SIZE, BOOL_SIZE)
        } else {
            // Abort
            (1, 0, U64_SIZE, 0)
        }
    }
}

/// What a simple instruction does to the operand stack, as
/// `(pops, pushes, pop_size, push_size)`.
pub fn get_simple_instruction_stack_change(instr: SimpleInstruction) -> (r: (u64, u64, u64, u64))
    ensures
        r == instr.stack_change(),
{
    match instr {
        // NB: The `Ret` pops are accounted for in `Call` instructions, so we say `Ret` has no pops.
        SimpleInstruction::Nop | SimpleInstruction::Ret => (0, 0, 0, 0),
        SimpleInstruction::LdU8 => (0, 1, 0, U8_SIZE),
        SimpleInstruction::LdU16 => (0, 1, 0, U16_SIZE),
        SimpleInstruction::LdU32 => (0, 1, 0, U32_SIZE),
        SimpleInstruction::LdU64 => (0, 1, 0, U64_SIZE),
        SimpleInstruction::LdU128 => (0, 1, 0, U128_SIZE),
        SimpleInstruction::LdU256 => (0, 1, 0, U256_SIZE),
        SimpleInstruction::LdTrue | SimpleInstruction::LdFalse => (0, 1, 0, BOOL_SIZE),
        SimpleInstruction::FreezeRef => (1, 1, REFERENCE_SIZE, REFERENCE_SIZE),
        SimpleInstruction::ImmBorrowLoc | SimpleInstruction::MutBorrowLoc => (
            0,
            1,
            0,
            REFERENCE_SIZE,
        ),
        SimpleInstruction::ImmBorrowField
        | SimpleInstruction::MutBorrowField
        | SimpleInstruction::ImmBorrowFieldGeneric
        | SimpleInstruction::MutBorrowFieldGeneric => (1, 1, REFERENCE_SIZE, REFERENCE_SIZE),
        // Since we don't have the size of the value being cast here we take a conservative
        // over-approximation: it is _always_ getting cast from the smallest integer type.
        SimpleInstruction::CastU8 => (1, 1, U8_SIZE, U8_SIZE),
        SimpleInstruction::CastU16 => (1, 1, U8_SIZE, U16_SIZE),
        SimpleInstruction::CastU32 => (1, 1, U8_SIZE, U32_SIZE),
        SimpleInstruction::CastU64 => (1, 1, U8_SIZE, U64_SIZE),
        SimpleInstruction::CastU128 => (1, 1, U8_SIZE, U128_SIZE),
        SimpleInstruction::CastU256 => (1, 1, U8_SIZE, U256_SIZE),
        // NB: We don't know the size of what integers we're dealing with, so we conservatively
        // over-approximate by popping the smallest integers, and push the largest.
        SimpleInstruction::Add
        | SimpleInstruction::Sub
        | SimpleInstruction::Mul
        | SimpleInstruction::Mod
        | SimpleInstruction::Div => (2, 1, U8_SIZE + U8_SIZE, U256_SIZE),
        SimpleInstruction::BitOr | SimpleInstruction::BitAnd | SimpleInstruction::Xor => (
            2,
            1,
            U8_SIZE + U8_SIZE,
            U256_SIZE,
        ),
        SimpleInstruction::Shl | SimpleInstruction::Shr => (2, 1, U8_SIZE + U8_SIZE, U256_SIZE),
        SimpleInstruction::Or | SimpleInstruction::And => (
            2,
            1,
            BOOL_SIZE + BOOL_SIZE,
            BOOL_SIZE,
        ),
        SimpleInstruction::Lt
        | SimpleInstruction::Gt
        | SimpleInstruction::Le
        | SimpleInstruction::Ge => (2, 1, U8_SIZE + U8_SIZE, BOOL_SIZE),
        SimpleInstruction::Not => (1, 1, BOOL_SIZE, BOOL_SIZE),
        SimpleInstruction::Abort => (1, 0, U64_SIZE, 0),
    }
}

} // verus!
