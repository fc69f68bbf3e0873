use vstd::prelude::*;

use crate::cpu::alu::{self, bottom_bit, shift_flags, top_bit};
use crate::cpu::instructions::{Instruction, RotateInstruction};
use crate::cpu::registers::{FlagRegister, Register};
use crate::cpu::{Cpu, CpuState};
use super::Command;

verus! {

/// The byte a rotate or shift produces from `v`, with carry flag `c` coming in, and
/// the bit that goes to the carry flag.
pub open spec fn shift_result(i: RotateInstruction, v: u8, c: bool) -> (u8, bool) {
    match i {
        RotateInstruction::RLCA | RotateInstruction::RLC(_) => ((v << 1u8) | (v >> 7u8), top_bit(v)),
        RotateInstruction::RLA | RotateInstruction::RL(_) => (
            (v << 1u8) | (if c { 1u8 } else { 0u8 }),
            top_bit(v),
        ),
        RotateInstruction::RRCA | RotateInstruction::RRC(_) => ((v >> 1u8) | (v << 7u8), bottom_bit(v)),
        RotateInstruction::RRA | RotateInstruction::RR(_) => (
            (v >> 1u8) | (if c { 0x80u8 } else { 0u8 }),
            bottom_bit(v),
        ),
        RotateInstruction::SLA(_) => (v << 1u8, top_bit(v)),
        RotateInstruction::SRA(_) => ((v >> 1u8) | (v & 0x80u8), bottom_bit(v)),
        RotateInstruction::SRL(_) => (v >> 1u8, bottom_bit(v)),
    }
}

/// The accumulator forms RLCA, RLA, RRCA, RRA (one byte) clear Z whatever the
/// result; the CB-prefixed forms (two bytes) set Z on a zero result.
pub open spec fn rotate_spec(s: CpuState, i: RotateInstruction) -> (CpuState, u16) {
    let c = s.flags().carry;
    match i {
        RotateInstruction::RLCA | RotateInstruction::RLA | RotateInstruction::RRCA | RotateInstruction::RRA => {
            let (v, carry) = shift_result(i, s.reg(Register::A), c);
            (
                s.set_reg(Register::A, v).with_flags(
                    FlagRegister { zero: false, subtract: false, half_carry: false, carry },
                ),
                s.pc.wrapping_add(1),
            )
        },
        RotateInstruction::RLC(r) | RotateInstruction::RL(r) | RotateInstruction::RRC(r)
        | RotateInstruction::RR(r) | RotateInstruction::SLA(r) | RotateInstruction::SRA(r)
        | RotateInstruction::SRL(r) => {
            let (v, carry) = shift_result(i, s.operand8(r), c);
            (s.store8(r, v).with_flags(shift_flags(v, carry)), s.pc.wrapping_add(2))
        },
    }
}

/// Executes rotates and shifts.
pub struct RotateCommand {
    pub instruction: RotateInstruction,
}

impl RotateCommand {
    pub fn new(instruction: RotateInstruction) -> (r: RotateCommand)
        ensures
            r.instruction == instruction,
    {
        RotateCommand { instruction }
    }

    /// Stores an accumulator rotation's result with Z cleared.
    fn finish_accumulator(&self, cpu: &mut Cpu, result: (u8, FlagRegister)) -> (r: u16)
        ensures
            r == old(cpu).pc.wrapping_add(1),
            final(cpu)@ == old(cpu)@.set_reg(Register::A, result.0).with_flags(
                FlagRegister { zero: false, ..result.1 },
            ),
    {
        cpu.registers.a = result.0;
        cpu.set_flags(FlagRegister { zero: false, ..result.1 });
        cpu.pc.wrapping_add(1)
    }

    /// Stores a CB-prefixed rotation's result and flags.
    fn finish_operand(&self, cpu: &mut Cpu, register: &Register, result: (u8, FlagRegister)) -> (r: u16)
        requires
            register.is_operand8(),
        ensures
            r == old(cpu).pc.wrapping_add(2),
            final(cpu)@ == old(cpu)@.store8(*register, result.0).with_flags(result.1),
    {
        cpu.store_operand(register, result.0);
        cpu.set_flags(result.1);
        cpu.pc.wrapping_add(2)
    }

    fn rlca(&self, cpu: &mut Cpu) -> (r: u16)
        ensures
            (final(cpu)@, r) == rotate_spec(old(cpu)@, RotateInstruction::RLCA),
    {
        let result = alu::rlc(cpu.registers.a);
        self.finish_accumulator(cpu, result)
    }

    fn rla(&self, cpu: &mut Cpu) -> (r: u16)
        ensures
            (final(cpu)@, r) == rotate_spec(old(cpu)@, RotateInstruction::RLA),
    {
        let result = alu::rl(cpu.registers.a, cpu.registers.f.carry);
        self.finish_accumulator(cpu, result)
    }

    fn rrca(&self, cpu: &mut Cpu) -> (r: u16)
        ensures
            (final(cpu)@, r) == rotate_spec(old(cpu)@, RotateInstruction::RRCA),
    {
        let result = alu::rrc(cpu.registers.a);
        self.finish_accumulator(cpu, result)
    }

    fn rra(&self, cpu: &mut Cpu) -> (r: u16)
        ensures
            (final(cpu)@, r) == rotate_spec(old(cpu)@, RotateInstruction::RRA),
    {
        let result = alu::rr(cpu.registers.a, cpu.registers.f.carry);
        self.finish_accumulator(cpu, result)
    }

    fn rlc(&self, cpu: &mut Cpu, register: &Register) -> (r: u16)
        requires
            register.is_operand8(),
        ensures
            (final(cpu)@, r) == rotate_spec(old(cpu)@, RotateInstruction::RLC(*register)),
    {
        let (value, _) = cpu.extract_operand(register);
        let result = alu::rlc(value);
        self.finish_operand(cpu, register, result)
    }

    fn rl(&self, cpu: &mut Cpu, register: &Register) -> (r: u16)
        requires
            register.is_operand8(),
        ensures
            (final(cpu)@, r) == rotate_spec(old(cpu)@, RotateInstruction::RL(*register)),
    {
        let (value, _) = cpu.extract_operand(register);
        let result = alu::rl(value, cpu.registers.f.carry);
        self.finish_operand(cpu, register, result)
    }

    fn rrc(&self, cpu: &mut Cpu, register: &Register) -> (r: u16)
        requires
            register.is_operand8(),
        ensures
            (final(cpu)@, r) == rotate_spec(old(cpu)@, RotateInstruction::RRC(*register)),
    {
        let (value, _) = cpu.extract_operand(register);
        let result = alu::rrc(value);
        self.finish_operand(cpu, register, result)
    }

    fn rr(&self, cpu: &mut Cpu, register: &Register) -> (r: u16)
        requires
            register.is_operand8(),
        ensures
            (final(cpu)@, r) == rotate_spec(old(cpu)@, RotateInstruction::RR(*register)),
    {
        let (value, _) = cpu.extract_operand(register);
        let result = alu::rr(value, cpu.registers.f.carry);
        self.finish_operand(cpu, register, result)
    }

    fn sla(&self, cpu: &mut Cpu, register: &Register) -> (r: u16)
        requires
            register.is_operand8(),
        ensures
            (final(cpu)@, r) == rotate_spec(old(cpu)@, RotateInstruction::SLA(*register)),
    {
        let (value, _) = cpu.extract_operand(register);
        let result = alu::sla(value);
        self.finish_operand(cpu, register, result)
    }

    fn sra(&self, cpu: &mut Cpu, register: &Register) -> (r: u16)
        requires
            register.is_operand8(),
        ensures
            (final(cpu)@, r) == rotate_spec(old(cpu)@, RotateInstruction::SRA(*register)),
    {
        let (value, _) = cpu.extract_operand(register);
        let result = alu::sra(value);
        self.finish_operand(cpu, register, result)
    }

    fn srl(&self, cpu: &mut Cpu, register: &Register) -> (r: u16)
        requires
            register.is_operand8(),
        ensures
            (final(cpu)@, r) == rotate_spec(old(cpu)@, RotateInstruction::SRL(*register)),
    {
        let (value, _) = cpu.extract_operand(register);
        let result = alu::srl(value);
        self.finish_operand(cpu, register, result)
    }
}

impl Command for RotateCommand {
    open spec fn instruction_spec(&self) -> Instruction {
        Instruction::Rotate(self.instruction)
    }

    fn execute(&self, cpu: &mut Cpu) -> (r: u16) {
        match &self.instruction {
            RotateInstruction::RLCA => self.rlca(cpu),
            RotateInstruction::RLA => self.rla(cpu),
            RotateInstruction::RRCA => self.rrca(cpu),
            RotateInstruction::RRA => self.rra(cpu),
            RotateInstruction::RLC(register) => self.rlc(cpu, register),
            RotateInstruction::RL(register) => self.rl(cpu, register),
            RotateInstruction::RRC(register) => self.rrc(cpu, register),
            RotateInstruction::RR(register) => self.rr(cpu, register),
            RotateInstruction::SLA(register) => self.sla(cpu, register),
            RotateInstruction::SRA(register) => self.sra(cpu, register),
            RotateInstruction::SRL(register) => self.srl(cpu, register),
        }
    }
}

} // verus!
