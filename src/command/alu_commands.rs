use vstd::prelude::*;

use crate::cpu::alu::{self, add16_spec, add_signed_spec, add_spec, dec_spec, inc_spec, logic_flags, sub_spec};
use crate::cpu::instructions::{ArithmeticInstruction, Instruction};
use crate::cpu::registers::{FlagRegister, Register};
use crate::cpu::{Cpu, CpuState};
use super::Command;

verus! {

/// The program counter after an 8-bit ALU instruction with source `r`.
pub open spec fn alu_next_pc(s: CpuState, r: Register) -> u16 {
    if r == Register::D8 {
        s.pc.wrapping_add(2)
    } else {
        s.pc.wrapping_add(1)
    }
}

/// A with `result` and the flags replaced.
pub open spec fn with_accumulator(s: CpuState, result: (u8, FlagRegister)) -> CpuState {
    s.set_reg(Register::A, result.0).with_flags(result.1)
}

pub open spec fn arithmetic_spec(s: CpuState, i: ArithmeticInstruction) -> (CpuState, u16) {
    let a = s.reg(Register::A);
    let carry = s.flags().carry;
    match i {
        ArithmeticInstruction::Add(r) => (with_accumulator(s, add_spec(a, s.operand8(r), false)), alu_next_pc(s, r)),
        ArithmeticInstruction::Adc(r) => (with_accumulator(s, add_spec(a, s.operand8(r), carry)), alu_next_pc(s, r)),
        ArithmeticInstruction::Sub(r) => (with_accumulator(s, sub_spec(a, s.operand8(r), false)), alu_next_pc(s, r)),
        ArithmeticInstruction::Sbc(r) => (with_accumulator(s, sub_spec(a, s.operand8(r), carry)), alu_next_pc(s, r)),
        ArithmeticInstruction::And(r) => {
            let v = a & s.operand8(r);
            (with_accumulator(s, (v, logic_flags(v, true))), alu_next_pc(s, r))
        },
        ArithmeticInstruction::Or(r) => {
            let v = a | s.operand8(r);
            (with_accumulator(s, (v, logic_flags(v, false))), alu_next_pc(s, r))
        },
        ArithmeticInstruction::Xor(r) => {
            let v = a ^ s.operand8(r);
            (with_accumulator(s, (v, logic_flags(v, false))), alu_next_pc(s, r))
        },
        ArithmeticInstruction::Cp(r) => (s.with_flags(sub_spec(a, s.operand8(r), false).1), alu_next_pc(s, r)),
        ArithmeticInstruction::Inc(r) => {
            let (v, f) = inc_spec(s.operand8(r), carry);
            (s.store8(r, v).with_flags(f), s.pc.wrapping_add(1))
        },
        ArithmeticInstruction::Dec(r) => {
            let (v, f) = dec_spec(s.operand8(r), carry);
            (s.store8(r, v).with_flags(f), s.pc.wrapping_add(1))
        },
        ArithmeticInstruction::Inc16(r) => (s.set_reg16(r, s.reg16(r).wrapping_add(1)), s.pc.wrapping_add(1)),
        ArithmeticInstruction::Dec16(r) => (s.set_reg16(r, s.reg16(r).wrapping_sub(1)), s.pc.wrapping_add(1)),
        ArithmeticInstruction::Add16(r) => {
            let (v, f) = add16_spec(s.hl(), s.reg16(r), s.flags().zero);
            (s.set_reg16(Register::HL, v).with_flags(f), s.pc.wrapping_add(1))
        },
        ArithmeticInstruction::Add16SP => {
            let (v, f) = add_signed_spec(s.sp(), s.imm8());
            (s.set_reg16(Register::SP, v).with_flags(f), s.pc.wrapping_add(2))
        },
    }
}

/// Executes 8-bit and 16-bit arithmetic and logic.
pub struct ArithmeticCommand {
    pub instruction: ArithmeticInstruction,
}

impl ArithmeticCommand {
    pub fn new(instruction: ArithmeticInstruction) -> (r: ArithmeticCommand)
        ensures
            r.instruction == instruction,
    {
        ArithmeticCommand { instruction }
    }

    /// Reads the source, combines it with A by `op`, and stores result and flags.
    fn alu_operation(&self, cpu: &mut Cpu, from: &Register, op: u8) -> (r: u16)
        requires
            from.is_operand8() || *from == Register::D8,
            op < 8,
        ensures
            r == alu_next_pc(old(cpu)@, *from),
            final(cpu)@ == ({
                let s = old(cpu)@;
                let a = s.reg(Register::A);
                let b = s.operand8(*from);
                let carry = s.flags().carry;
                if op == 0 {
                    with_accumulator(s, add_spec(a, b, false))
                } else if op == 1 {
                    with_accumulator(s, add_spec(a, b, carry))
                } else if op == 2 {
                    with_accumulator(s, sub_spec(a, b, false))
                } else if op == 3 {
                    with_accumulator(s, sub_spec(a, b, carry))
                } else if op == 4 {
                    with_accumulator(s, (a & b, logic_flags(a & b, true)))
                } else if op == 5 {
                    with_accumulator(s, (a | b, logic_flags(a | b, false)))
                } else if op == 6 {
                    with_accumulator(s, (a ^ b, logic_flags(a ^ b, false)))
                } else {
                    s.with_flags(sub_spec(a, b, false).1)
                }
            }),
    {
        let (value, pc) = cpu.extract_operand(from);
        let a = cpu.registers.a;
        let carry = cpu.registers.f.carry;
        let (result, flags) = if op == 0 {
            alu::add(a, value, false)
        } else if op == 1 {
            alu::add(a, value, carry)
        } else if op == 2 {
            alu::sub(a, value, false)
        } else if op == 3 {
            alu::sub(a, value, carry)
        } else if op == 4 {
            alu::and(a, value)
        } else if op == 5 {
            alu::or(a, value)
        } else if op == 6 {
            alu::xor(a, value)
        } else {
            let (_, f) = alu::sub(a, value, false);
            (a, f)
        };
        cpu.registers.a = result;
        cpu.set_flags(flags);
        pc
    }

    fn add(&self, cpu: &mut Cpu, from: &Register, with_carry: bool) -> (r: u16)
        requires
            from.is_operand8() || *from == Register::D8,
        ensures
            r == alu_next_pc(old(cpu)@, *from),
            final(cpu)@ == with_accumulator(
                old(cpu)@,
                add_spec(old(cpu)@.reg(Register::A), old(cpu)@.operand8(*from), with_carry && old(cpu)@.flags().carry),
            ),
    {
        self.alu_operation(cpu, from, if with_carry { 1 } else { 0 })
    }

    fn sub(&self, cpu: &mut Cpu, from: &Register, with_carry: bool) -> (r: u16)
        requires
            from.is_operand8() || *from == Register::D8,
        ensures
            r == alu_next_pc(old(cpu)@, *from),
            final(cpu)@ == with_accumulator(
                old(cpu)@,
                sub_spec(old(cpu)@.reg(Register::A), old(cpu)@.operand8(*from), with_carry && old(cpu)@.flags().carry),
            ),
    {
        self.alu_operation(cpu, from, if with_carry { 3 } else { 2 })
    }

    fn and(&self, cpu: &mut Cpu, from: &Register) -> (r: u16)
        requires
            from.is_operand8() || *from == Register::D8,
        ensures
            (final(cpu)@, r) == arithmetic_spec(old(cpu)@, ArithmeticInstruction::And(*from)),
    {
        self.alu_operation(cpu, from, 4)
    }

    fn xor(&self, cpu: &mut Cpu, from: &Register) -> (r: u16)
        requires
            from.is_operand8() || *from == Register::D8,
        ensures
            (final(cpu)@, r) == arithmetic_spec(old(cpu)@, ArithmeticInstruction::Xor(*from)),
    {
        self.alu_operation(cpu, from, 6)
    }

    fn or(&self, cpu: &mut Cpu, from: &Register) -> (r: u16)
        requires
            from.is_operand8() || *from == Register::D8,
        ensures
            (final(cpu)@, r) == arithmetic_spec(old(cpu)@, ArithmeticInstruction::Or(*from)),
    {
        self.alu_operation(cpu, from, 5)
    }

    fn compare(&self, cpu: &mut Cpu, from: &Register) -> (r: u16)
        requires
            from.is_operand8() || *from == Register::D8,
        ensures
            (final(cpu)@, r) == arithmetic_spec(old(cpu)@, ArithmeticInstruction::Cp(*from)),
    {
        self.alu_operation(cpu, from, 7)
    }

    fn inc(&self, cpu: &mut Cpu, register: &Register) -> (r: u16)
        requires
            register.is_operand8(),
        ensures
            (final(cpu)@, r) == arithmetic_spec(old(cpu)@, ArithmeticInstruction::Inc(*register)),
    {
        let (value, pc) = cpu.extract_operand(register);
        let (result, flags) = alu::inc(value, cpu.registers.f.carry);
        cpu.store_operand(register, result);
        cpu.set_flags(flags);
        pc
    }

    fn dec(&self, cpu: &mut Cpu, register: &Register) -> (r: u16)
        requires
            register.is_operand8(),
        ensures
            (final(cpu)@, r) == arithmetic_spec(old(cpu)@, ArithmeticInstruction::Dec(*register)),
    {
        let (value, pc) = cpu.extract_operand(register);
        let (result, flags) = alu::dec(value, cpu.registers.f.carry);
        cpu.store_operand(register, result);
        cpu.set_flags(flags);
        pc
    }

    fn inc16(&self, cpu: &mut Cpu, register: &Register) -> (r: u16)
        requires
            register.is_arith16(),
        ensures
            (final(cpu)@, r) == arithmetic_spec(old(cpu)@, ArithmeticInstruction::Inc16(*register)),
    {
        let value = cpu.registers.get_16(register);
        cpu.registers.set_16(register, value.wrapping_add(1));
        cpu.pc.wrapping_add(1)
    }

    fn dec16(&self, cpu: &mut Cpu, register: &Register) -> (r: u16)
        requires
            register.is_arith16(),
        ensures
            (final(cpu)@, r) == arithmetic_spec(old(cpu)@, ArithmeticInstruction::Dec16(*register)),
    {
        let value = cpu.registers.get_16(register);
        cpu.registers.set_16(register, value.wrapping_sub(1));
        cpu.pc.wrapping_add(1)
    }

    fn add16(&self, cpu: &mut Cpu, register: &Register) -> (r: u16)
        requires
            register.is_arith16(),
        ensures
            (final(cpu)@, r) == arithmetic_spec(old(cpu)@, ArithmeticInstruction::Add16(*register)),
    {
        let value = cpu.registers.get_16(register);
        let hl = cpu.registers.get_hl();
        let (result, flags) = alu::add16(hl, value, cpu.registers.f.zero);
        cpu.registers.set_hl(result);
        cpu.set_flags(flags);
        cpu.pc.wrapping_add(1)
    }

    fn add16_sp(&self, cpu: &mut Cpu) -> (r: u16)
        ensures
            (final(cpu)@, r) == arithmetic_spec(old(cpu)@, ArithmeticInstruction::Add16SP),
    {
        let e = cpu.read_next_mem();
        let (result, flags) = alu::add_signed(cpu.registers.sp.get(), e);
        cpu.registers.sp.set(result);
        cpu.set_flags(flags);
        cpu.pc.wrapping_add(2)
    }
}

impl Command for ArithmeticCommand {
    open spec fn instruction_spec(&self) -> Instruction {
        Instruction::Arithmetic(self.instruction)
    }

    fn execute(&self, cpu: &mut Cpu) -> (r: u16) {
        match &self.instruction {
            ArithmeticInstruction::Add(from) => self.add(cpu, from, false),
            ArithmeticInstruction::Adc(from) => self.add(cpu, from, true),
            ArithmeticInstruction::Sub(from) => self.sub(cpu, from, false),
            ArithmeticInstruction::Sbc(from) => self.sub(cpu, from, true),
            ArithmeticInstruction::And(from) => self.and(cpu, from),
            ArithmeticInstruction::Or(from) => self.or(cpu, from),
            ArithmeticInstruction::Xor(from) => self.xor(cpu, from),
            ArithmeticInstruction::Cp(from) => self.compare(cpu, from),
            ArithmeticInstruction::Inc(register) => self.inc(cpu, register),
            ArithmeticInstruction::Dec(register) => self.dec(cpu, register),
            ArithmeticInstruction::Inc16(register) => self.inc16(cpu, register),
            ArithmeticInstruction::Dec16(register) => self.dec16(cpu, register),
            ArithmeticInstruction::Add16(register) => self.add16(cpu, register),
            ArithmeticInstruction::Add16SP => self.add16_sp(cpu),
        }
    }
}

} // verus!
