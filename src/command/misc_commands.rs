use vstd::prelude::*;

use crate::cpu::alu::{self, daa_spec, shift_flags};
use crate::cpu::instructions::{Instruction, MiscInstruction};
use crate::cpu::registers::{FlagRegister, Register};
use crate::cpu::{Cpu, CpuState};
use super::Command;

verus! {

/// NOP, SWAP, DAA, CPL, CCF, SCF, HALT, STOP, DI and EI. SWAP is CB-prefixed (two
/// bytes), STOP is followed by a padding byte (two bytes), the rest are one byte.
pub open spec fn misc_spec(s: CpuState, i: MiscInstruction) -> (CpuState, u16) {
    let a = s.reg(Register::A);
    let f = s.flags();
    let next = s.pc.wrapping_add(1);
    match i {
        MiscInstruction::Nop => (s, next),
        MiscInstruction::Swap(r) => {
            let v = s.operand8(r);
            let result = (v << 4u8) | (v >> 4u8);
            (s.store8(r, result).with_flags(shift_flags(result, false)), s.pc.wrapping_add(2))
        },
        MiscInstruction::DAA => {
            let (v, flags) = daa_spec(a, f);
            (s.set_reg(Register::A, v).with_flags(flags), next)
        },
        MiscInstruction::CPL => (
            s.set_reg(Register::A, !a).with_flags(FlagRegister { subtract: true, half_carry: true, ..f }),
            next,
        ),
        MiscInstruction::CCF => (
            s.with_flags(FlagRegister { subtract: false, half_carry: false, carry: !f.carry, ..f }),
            next,
        ),
        MiscInstruction::SCF => (
            s.with_flags(FlagRegister { subtract: false, half_carry: false, carry: true, ..f }),
            next,
        ),
        MiscInstruction::HALT => (CpuState { halted: true, ..s }, next),
        MiscInstruction::STOP => (CpuState { stopped: true, ..s }, s.pc.wrapping_add(2)),
        MiscInstruction::DI => (CpuState { interrupts_enabled: false, ..s }, next),
        MiscInstruction::EI => (CpuState { interrupts_enabled: true, ..s }, next),
    }
}

/// Executes the miscellaneous instructions.
pub struct MiscCommand {
    pub instruction: MiscInstruction,
}

impl MiscCommand {
    pub fn new(instruction: MiscInstruction) -> (r: MiscCommand)
        ensures
            r.instruction == instruction,
    {
        MiscCommand { instruction }
    }

    fn nop(&self, cpu: &Cpu) -> (r: u16)
        ensures
            r == cpu.pc.wrapping_add(1),
    {
        cpu.pc.wrapping_add(1)
    }

    fn swap(&self, cpu: &mut Cpu, from: &Register) -> (r: u16)
        requires
            from.is_operand8(),
        ensures
            (final(cpu)@, r) == misc_spec(old(cpu)@, MiscInstruction::Swap(*from)),
    {
        let (value, _) = cpu.extract_operand(from);
        let (result, flags) = alu::swap(value);
        cpu.store_operand(from, result);
        cpu.set_flags(flags);
        cpu.pc.wrapping_add(2)
    }

    fn daa(&self, cpu: &mut Cpu) -> (r: u16)
        ensures
            (final(cpu)@, r) == misc_spec(old(cpu)@, MiscInstruction::DAA),
    {
        let (result, flags) = alu::daa(cpu.registers.a, cpu.registers.f);
        cpu.registers.a = result;
        cpu.set_flags(flags);
        cpu.pc.wrapping_add(1)
    }

    fn cpl(&self, cpu: &mut Cpu) -> (r: u16)
        ensures
            (final(cpu)@, r) == misc_spec(old(cpu)@, MiscInstruction::CPL),
    {
        cpu.registers.a = !cpu.registers.a;
        cpu.registers.f.subtract = true;
        cpu.registers.f.half_carry = true;
        cpu.pc.wrapping_add(1)
    }

    fn ccf(&self, cpu: &mut Cpu) -> (r: u16)
        ensures
            (final(cpu)@, r) == misc_spec(old(cpu)@, MiscInstruction::CCF),
    {
        cpu.registers.f.subtract = false;
        cpu.registers.f.half_carry = false;
        cpu.registers.f.carry = !cpu.registers.f.carry;
        cpu.pc.wrapping_add(1)
    }

    fn scf(&self, cpu: &mut Cpu) -> (r: u16)
        ensures
            (final(cpu)@, r) == misc_spec(old(cpu)@, MiscInstruction::SCF),
    {
        cpu.registers.f.subtract = false;
        cpu.registers.f.half_carry = false;
        cpu.registers.f.carry = true;
        cpu.pc.wrapping_add(1)
    }
}

impl Command for MiscCommand {
    open spec fn instruction_spec(&self) -> Instruction {
        Instruction::Misc(self.instruction)
    }

    fn execute(&self, cpu: &mut Cpu) -> (r: u16) {
        match &self.instruction {
            MiscInstruction::Nop => self.nop(cpu),
            MiscInstruction::Swap(from) => self.swap(cpu, from),
            MiscInstruction::DAA => self.daa(cpu),
            MiscInstruction::CPL => self.cpl(cpu),
            MiscInstruction::CCF => self.ccf(cpu),
            MiscInstruction::SCF => self.scf(cpu),
            MiscInstruction::HALT => {
                cpu.halted = true;
                cpu.pc.wrapping_add(1)
            },
            MiscInstruction::STOP => {
                cpu.stopped = true;
                cpu.pc.wrapping_add(2)
            },
            MiscInstruction::DI => {
                cpu.interrupts_enabled = false;
                cpu.pc.wrapping_add(1)
            },
            MiscInstruction::EI => {
                cpu.interrupts_enabled = true;
                cpu.pc.wrapping_add(1)
            },
        }
    }
}

} // verus!
