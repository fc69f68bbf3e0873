use vstd::prelude::*;

use crate::cpu::instructions::{FlagCondition, Instruction, ReturnInstruction};
use crate::cpu::{Cpu, CpuState};
use super::Command;

verus! {

/// RST pushes the address of the next instruction and jumps to its vector; RET pops
/// the return address (RETI also enables interrupts); a conditional return whose
/// condition fails moves past its single byte.
pub open spec fn return_spec(s: CpuState, i: ReturnInstruction) -> (CpuState, u16) {
    match i {
        ReturnInstruction::Rst(vector) => (s.push(s.pc.wrapping_add(1)), vector as u16),
        ReturnInstruction::Ret => (s.drop_top(), s.stack_top()),
        ReturnInstruction::RetCond(c) => if s.condition(c) {
            (s.drop_top(), s.stack_top())
        } else {
            (s, s.pc.wrapping_add(1))
        },
        ReturnInstruction::Reti => (CpuState { interrupts_enabled: true, ..s.drop_top() }, s.stack_top()),
    }
}

/// Executes returns and restarts.
pub struct ReturnCommand {
    pub instruction: ReturnInstruction,
}

impl ReturnCommand {
    pub fn new(instruction: ReturnInstruction) -> (r: ReturnCommand)
        ensures
            r.instruction == instruction,
    {
        ReturnCommand { instruction }
    }

    fn rst(&self, cpu: &mut Cpu, vector: u8) -> (r: u16)
        ensures
            (final(cpu)@, r) == return_spec(old(cpu)@, ReturnInstruction::Rst(vector)),
    {
        let return_address = cpu.pc.wrapping_add(1);
        cpu.push(return_address);
        vector as u16
    }

    fn ret(&self, cpu: &mut Cpu) -> (r: u16)
        ensures
            (final(cpu)@, r) == return_spec(old(cpu)@, ReturnInstruction::Ret),
    {
        cpu.pop()
    }

    fn ret_conditional(&self, cpu: &mut Cpu, condition: &FlagCondition) -> (r: u16)
        ensures
            (final(cpu)@, r) == return_spec(old(cpu)@, ReturnInstruction::RetCond(*condition)),
    {
        if cpu.resolve_flag_condition(condition) {
            cpu.pop()
        } else {
            cpu.pc.wrapping_add(1)
        }
    }

    fn reti(&self, cpu: &mut Cpu) -> (r: u16)
        ensures
            (final(cpu)@, r) == return_spec(old(cpu)@, ReturnInstruction::Reti),
    {
        let address = cpu.pop();
        cpu.interrupts_enabled = true;
        address
    }
}

impl Command for ReturnCommand {
    open spec fn instruction_spec(&self) -> Instruction {
        Instruction::Return(self.instruction)
    }

    fn execute(&self, cpu: &mut Cpu) -> (r: u16) {
        match &self.instruction {
            ReturnInstruction::Rst(vector) => self.rst(cpu, *vector),
            ReturnInstruction::Ret => self.ret(cpu),
            ReturnInstruction::RetCond(condition) => self.ret_conditional(cpu, condition),
            ReturnInstruction::Reti => self.reti(cpu),
        }
    }
}

} // verus!
