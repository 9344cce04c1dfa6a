use vstd::prelude::*;

verus! {

/// The instruction classes that the cost table tells apart.
#[derive(Clone, Copy, Debug, PartialEq, Eq, Structural)]
pub enum Instruction {
    LocalGet,
    LocalSet,
    LocalTee,
    GlobalGet,
    GlobalSet,
    I32Load,
    I64Load,
    F32Load,
    F64Load,
    Other,
}

/// The weight charged for one executed instruction of a class.
pub open spec fn instruction_cost(op: Instruction) -> u64 {
    match op {
        Instruction::LocalGet => 1,
        Instruction::LocalSet => 2,
        Instruction::LocalTee => 3,
        Instruction::GlobalGet => 4,
        Instruction::GlobalSet => 5,
        Instruction::I32Load => 6,
        Instruction::I64Load => 7,
        Instruction::F32Load => 8,
        Instruction::F64Load => 9,
        Instruction::Other => 1,
    }
}

/// The cost of one instruction: total, deterministic and at least one.
pub fn wasm_cost_function(op: &Instruction) -> (r: u64)
    ensures
        r == instruction_cost(*op),
        r >= 1,
{
    match op {
        Instruction::LocalGet => 1,
        Instruction::LocalSet => 2,
        Instruction::LocalTee => 3,
        Instruction::GlobalGet => 4,
        Instruction::GlobalSet => 5,
        Instruction::I32Load => 6,
        Instruction::I64Load => 7,
        Instruction::F32Load => 8,
        Instruction::F64Load => 9,
        Instruction::Other => 1,
    }
}

} // verus!
