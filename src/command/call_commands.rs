use vstd::prelude::*;

use crate::cpu::instructions::{CallInstruction, FlagCondition, Instruction};
use crate::cpu::{Cpu, CpuState};
use super::Command;

verus! {

/// CALL pushes the address after the three-byte instruction and jumps to the immediate
/// address; a conditional call whose condition fails only moves past itself.
pub open spec fn call_spec(s: CpuState, i: CallInstruction) -> (CpuState, u16) {
    let taken = match i {
        CallInstruction::Call => true,
        CallInstruction::CallCond(c) => s.condition(c),
    };
    if taken {
        (s.push(s.pc.wrapping_add(3)), s.imm16())
    } else {
        (s, s.pc.wrapping_add(3))
    }
}

/// Executes subroutine calls.
pub struct CallCommand {
    pub instruction: CallInstruction,
}

impl CallCommand {
    pub fn new(instruction: CallInstruction) -> (r: CallCommand)
        ensures
            r.instruction == instruction,
    {
        CallCommand { instruction }
    }

    fn call(&self, cpu: &mut Cpu) -> (r: u16)
        ensures
            (final(cpu)@, r) == call_spec(old(cpu)@, CallInstruction::Call),
    {
        let address = cpu.read_next_mem_16();
        let return_address = cpu.pc.wrapping_add(3);
        cpu.push(return_address);
        address
    }

    fn call_conditional(&self, cpu: &mut Cpu, condition: &FlagCondition) -> (r: u16)
        ensures
            (final(cpu)@, r) == call_spec(old(cpu)@, CallInstruction::CallCond(*condition)),
    {
        if cpu.resolve_flag_condition(condition) {
            self.call(cpu)
        } else {
            cpu.pc.wrapping_add(3)
        }
    }
}

impl Command for CallCommand {
    open spec fn instruction_spec(&self) -> Instruction {
        Instruction::Call(self.instruction)
    }

    fn execute(&self, cpu: &mut Cpu) -> (r: u16) {
        match &self.instruction {
            CallInstruction::Call => self.call(cpu),
            CallInstruction::CallCond(condition) => self.call_conditional(cpu, condition),
        }
    }
}

} // verus!
