use vstd::prelude::*;

pub mod alu_commands;
pub mod bit_commands;
pub mod call_commands;
pub mod jump_commands;
pub mod load_commands;
pub mod misc_commands;
pub mod return_commands;
pub mod rotate_commands;

use crate::cpu::instructions::Instruction;
use crate::cpu::{Cpu, CpuState};

verus! {

/// What executing `ins` in state `s` does: the new state, with the program counter not
/// yet moved, and the address of the next instruction.
pub open spec fn execute_spec(s: CpuState, ins: Instruction) -> (CpuState, u16) {
    match ins {
        Instruction::Load(i) => load_commands::load_spec(s, i),
        Instruction::Arithmetic(i) => alu_commands::arithmetic_spec(s, i),
        Instruction::Misc(i) => misc_commands::misc_spec(s, i),
        Instruction::Rotate(i) => rotate_commands::rotate_spec(s, i),
        Instruction::Jump(i) => jump_commands::jump_spec(s, i),
        Instruction::Bit(i) => bit_commands::bit_spec(s, i),
        Instruction::Call(i) => call_commands::call_spec(s, i),
        Instruction::Return(i) => return_commands::return_spec(s, i),
    }
}

/// An executable instruction of one category. `execute` applies it to the processor
/// and returns the address of the next instruction, leaving `pc` itself to the caller.
pub trait Command {
    spec fn instruction_spec(&self) -> Instruction;

    fn execute(&self, cpu: &mut Cpu) -> (r: u16)
        requires
            self.instruction_spec().is_valid(),
        ensures
            (final(cpu)@, r) == execute_spec(old(cpu)@, self.instruction_spec()),
    ;
}

} // verus!
