use vstd::prelude::*;

use crate::cpu::alu::{self, signed};
use crate::cpu::instructions::{FlagCondition, Instruction, JumpInstruction};
use crate::cpu::{Cpu, CpuState};
use super::Command;

verus! {

/// Target of a relative jump: the address after the two-byte instruction plus the
/// signed displacement, wrapping.
pub open spec fn relative_target(s: CpuState) -> u16 {
    ((s.pc.wrapping_add(2) as int + signed(s.imm8())) % 65536) as u16
}

/// Jumps change nothing but the program counter. A conditional jump whose condition
/// fails moves past itself: three bytes for JP, two for JR.
pub open spec fn jump_spec(s: CpuState, i: JumpInstruction) -> (CpuState, u16) {
    match i {
        JumpInstruction::Jp => (s, s.imm16()),
        JumpInstruction::JpCond(c) => (
            s,
            if s.condition(c) {
                s.imm16()
            } else {
                s.pc.wrapping_add(3)
            },
        ),
        JumpInstruction::JpHL => (s, s.hl()),
        JumpInstruction::Jr => (s, relative_target(s)),
        JumpInstruction::JrCond(c) => (
            s,
            if s.condition(c) {
                relative_target(s)
            } else {
                s.pc.wrapping_add(2)
            },
        ),
    }
}

/// Executes absolute and relative jumps.
pub struct JumpCommand {
    pub instruction: JumpInstruction,
}

impl JumpCommand {
    pub fn new(instruction: JumpInstruction) -> (r: JumpCommand)
        ensures
            r.instruction == instruction,
    {
        JumpCommand { instruction }
    }

    fn jp(&self, cpu: &Cpu) -> (r: u16)
        ensures
            r == cpu@.imm16(),
    {
        cpu.read_next_mem_16()
    }

    fn jp_cc(&self, cpu: &Cpu, condition: &FlagCondition) -> (r: u16)
        ensures
            (cpu@, r) == jump_spec(cpu@, JumpInstruction::JpCond(*condition)),
    {
        if cpu.resolve_flag_condition(condition) {
            self.jp(cpu)
        } else {
            cpu.pc.wrapping_add(3)
        }
    }

    fn jp_hl(&self, cpu: &Cpu) -> (r: u16)
        ensures
            r == cpu@.hl(),
    {
        cpu.registers.get_hl()
    }

    fn jr(&self, cpu: &Cpu) -> (r: u16)
        ensures
            r == relative_target(cpu@),
    {
        let offset = cpu.read_next_mem();
        alu::offset(cpu.pc.wrapping_add(2), offset)
    }

    fn jr_cc(&self, cpu: &Cpu, condition: &FlagCondition) -> (r: u16)
        ensures
            (cpu@, r) == jump_spec(cpu@, JumpInstruction::JrCond(*condition)),
    {
        if cpu.resolve_flag_condition(condition) {
            self.jr(cpu)
        } else {
            cpu.pc.wrapping_add(2)
        }
    }
}

impl Command for JumpCommand {
    open spec fn instruction_spec(&self) -> Instruction {
        Instruction::Jump(self.instruction)
    }

    fn execute(&self, cpu: &mut Cpu) -> (r: u16) {
        match &self.instruction {
            JumpInstruction::Jp => self.jp(cpu),
            JumpInstruction::JpCond(condition) => self.jp_cc(cpu, condition),
            JumpInstruction::JpHL => self.jp_hl(cpu),
            JumpInstruction::Jr => self.jr(cpu),
            JumpInstruction::JrCond(condition) => self.jr_cc(cpu, condition),
        }
    }
}

} // verus!
