use vstd::prelude::*;

use crate::cpu::alu::{self, bit_clear};
use crate::cpu::instructions::{BitInstruction, Instruction};
use crate::cpu::registers::{FlagRegister, Register};
use crate::cpu::{Cpu, CpuState};
use super::Command;

verus! {

/// BIT, RES and SET on a register or `(HL)`; all CB-prefixed, two bytes.
pub open spec fn bit_spec(s: CpuState, i: BitInstruction) -> (CpuState, u16) {
    let next = s.pc.wrapping_add(2);
    match i {
        BitInstruction::Bit(n, r) => (
            s.with_flags(
                FlagRegister { zero: bit_clear(s.operand8(r), n), subtract: false, half_carry: true, ..s.flags() },
            ),
            next,
        ),
        BitInstruction::Res(n, r) => (s.store8(r, s.operand8(r) & !(1u8 << n)), next),
        BitInstruction::SetBit(n, r) => (s.store8(r, s.operand8(r) | (1u8 << n)), next),
    }
}

/// Executes bit tests, resets and sets.
pub struct BitCommand {
    pub instruction: BitInstruction,
}

impl BitCommand {
    pub fn new(instruction: BitInstruction) -> (r: BitCommand)
        ensures
            r.instruction == instruction,
    {
        BitCommand { instruction }
    }

    fn bit(&self, cpu: &mut Cpu, bit: u8, from: &Register) -> (r: u16)
        requires
            bit < 8,
            from.is_operand8(),
        ensures
            (final(cpu)@, r) == bit_spec(old(cpu)@, BitInstruction::Bit(bit, *from)),
    {
        let (value, _) = cpu.extract_operand(from);
        let flags = alu::bit_test(value, bit, cpu.registers.f.carry);
        cpu.set_flags(flags);
        cpu.pc.wrapping_add(2)
    }

    fn res(&self, cpu: &mut Cpu, bit: u8, from: &Register) -> (r: u16)
        requires
            bit < 8,
            from.is_operand8(),
        ensures
            (final(cpu)@, r) == bit_spec(old(cpu)@, BitInstruction::Res(bit, *from)),
    {
        let (value, _) = cpu.extract_operand(from);
        cpu.store_operand(from, alu::reset_bit(value, bit));
        cpu.pc.wrapping_add(2)
    }

    fn set(&self, cpu: &mut Cpu, bit: u8, from: &Register) -> (r: u16)
        requires
            bit < 8,
            from.is_operand8(),
        ensures
            (final(cpu)@, r) == bit_spec(old(cpu)@, BitInstruction::SetBit(bit, *from)),
    {
        let (value, _) = cpu.extract_operand(from);
        cpu.store_operand(from, alu::set_bit(value, bit));
        cpu.pc.wrapping_add(2)
    }
}

impl Command for BitCommand {
    open spec fn instruction_spec(&self) -> Instruction {
        Instruction::Bit(self.instruction)
    }

    fn execute(&self, cpu: &mut Cpu) -> (r: u16) {
        match &self.instruction {
            BitInstruction::Bit(bit, from) => self.bit(cpu, *bit, from),
            BitInstruction::Res(bit, from) => self.res(cpu, *bit, from),
            BitInstruction::SetBit(bit, from) => self.set(cpu, *bit, from),
        }
    }
}

} // verus!
