use moveos_gas::instr::{
    get_simple_instruction_stack_change, SimpleInstruction, ADDRESS_SIZE, BOOL_SIZE,
    REFERENCE_SIZE, STRUCT_SIZE, U128_SIZE, U16_SIZE, U256_SIZE, U32_SIZE, U64_SIZE, U8_SIZE,
    VEC_SIZE,
};

#[test]
fn size_constants() {
    assert_eq!(REFERENCE_SIZE, 8);
    assert_eq!(STRUCT_SIZE, 2);
    assert_eq!(VEC_SIZE, 8);
    assert_eq!(BOOL_SIZE, 1);
    assert_eq!(U8_SIZE, 1);
    assert_eq!(U16_SIZE, 2);
    assert_eq!(U32_SIZE, 4);
    assert_eq!(U64_SIZE, 8);
    assert_eq!(U128_SIZE, 16);
    assert_eq!(U256_SIZE, 32);
    assert_eq!(ADDRESS_SIZE, 32);
}

#[test]
fn neutral_instructions_change_nothing() {
    assert_eq!(get_simple_instruction_stack_change(SimpleInstruction::Nop), (0, 0, 0, 0));
    assert_eq!(get_simple_instruction_stack_change(SimpleInstruction::Ret), (0, 0, 0, 0));
}

#[test]
fn literal_loads_push_the_size_of_the_literal() {
    assert_eq!(get_simple_instruction_stack_change(SimpleInstruction::LdU8), (0, 1, 0, 1));
    assert_eq!(get_simple_instruction_stack_change(SimpleInstruction::LdU16), (0, 1, 0, 2));
    assert_eq!(get_simple_instruction_stack_change(SimpleInstruction::LdU32), (0, 1, 0, 4));
    assert_eq!(get_simple_instruction_stack_change(SimpleInstruction::LdU64), (0, 1, 0, 8));
    assert_eq!(get_simple_instruction_stack_change(SimpleInstruction::LdU128), (0, 1, 0, 16));
    assert_eq!(get_simple_instruction_stack_change(SimpleInstruction::LdU256), (0, 1, 0, 32));
    assert_eq!(get_simple_instruction_stack_change(SimpleInstruction::LdTrue), (0, 1, 0, 1));
    assert_eq!(get_simple_instruction_stack_change(SimpleInstruction::LdFalse), (0, 1, 0, 1));
}

#[test]
fn borrows_push_a_reference() {
    assert_eq!(get_simple_instruction_stack_change(SimpleInstruction::ImmBorrowLoc), (0, 1, 0, 8));
    assert_eq!(get_simple_instruction_stack_change(SimpleInstruction::MutBorrowLoc), (0, 1, 0, 8));
    for instr in [
        SimpleInstruction::FreezeRef,
        SimpleInstruction::ImmBorrowField,
        SimpleInstruction::MutBorrowField,
        SimpleInstruction::ImmBorrowFieldGeneric,
        SimpleInstruction::MutBorrowFieldGeneric,
    ] {
        assert_eq!(get_simple_instruction_stack_change(instr), (1, 1, 8, 8));
    }
}

#[test]
fn casts_pop_the_smallest_integer_and_push_the_target() {
    assert_eq!(get_simple_instruction_stack_change(SimpleInstruction::CastU8), (1, 1, 1, 1));
    assert_eq!(get_simple_instruction_stack_change(SimpleInstruction::CastU16), (1, 1, 1, 2));
    assert_eq!(get_simple_instruction_stack_change(SimpleInstruction::CastU32), (1, 1, 1, 4));
    assert_eq!(get_simple_instruction_stack_change(SimpleInstruction::CastU64), (1, 1, 1, 8));
    assert_eq!(get_simple_instruction_stack_change(SimpleInstruction::CastU128), (1, 1, 1, 16));
    assert_eq!(get_simple_instruction_stack_change(SimpleInstruction::CastU256), (1, 1, 1, 32));
}

#[test]
fn integer_operations_pop_two_small_and_push_one_large() {
    for instr in [SimpleInstruction::Add, SimpleInstruction::Sub, SimpleInstruction::Mul, SimpleInstruction::Mod, SimpleInstruction::Div, SimpleInstruction::BitOr, SimpleInstruction::BitAnd, SimpleInstruction::Xor, SimpleInstruction::Shl, SimpleInstruction::Shr] {
        assert_eq!(get_simple_instruction_stack_change(instr), (2, 1, 2, 32));
    }
}

#[test]
fn logical_and_relational_operations_push_a_boolean() {
    for instr in [SimpleInstruction::Or, SimpleInstruction::And, SimpleInstruction::Lt, SimpleInstruction::Gt, SimpleInstruction::Le, SimpleInstruction::Ge] {
        assert_eq!(get_simple_instruction_stack_change(instr), (2, 1, 2, 1));
    }
    assert_eq!(get_simple_instruction_stack_change(SimpleInstruction::Not), (1, 1, 1, 1));
}

#[test]
fn abort_pops_its_code() {
    assert_eq!(get_simple_instruction_stack_change(SimpleInstruction::Abort), (1, 0, 8, 0));
}
