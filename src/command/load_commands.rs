use vstd::prelude::*;

use crate::cpu::alu::{self, add_signed_spec};
use crate::cpu::instructions::{is_pointer_pair, Instruction, LoadInstruction};
use crate::cpu::registers::{lemma_flags_round_trip, lemma_pair_round_trip, lemma_word_parts, pack_flags, Register};
use crate::memory::{lemma_word_write_read, MEMORY_SIZE};
use crate::cpu::{io_address, Cpu, CpuState};
use super::Command;

verus! {

/// 8-bit loads. `(pair)` is the byte a pair addresses, `(nn)` the byte at the
/// immediate address.
pub open spec fn load8_spec(s: CpuState, to: Register, from: Register) -> (CpuState, u16) {
    if to == Register::D16 {
        (s.write(s.imm16(), s.reg(from)), s.pc.wrapping_add(3))
    } else if is_pointer_pair(to) {
        if from == Register::D8 {
            (s.write(s.reg16(to), s.imm8()), s.pc.wrapping_add(2))
        } else {
            (s.write(s.reg16(to), s.reg(from)), s.pc.wrapping_add(1))
        }
    } else if from == Register::D8 {
        (s.set_reg(to, s.imm8()), s.pc.wrapping_add(2))
    } else if from == Register::D16 {
        (s.set_reg(to, s.read(s.imm16())), s.pc.wrapping_add(3))
    } else if is_pointer_pair(from) {
        (s.set_reg(to, s.read(s.reg16(from))), s.pc.wrapping_add(1))
    } else {
        (s.set_reg(to, s.reg(from)), s.pc.wrapping_add(1))
    }
}

/// 16-bit loads: `SP <- HL`, `HL <- SP + e8` (flags as ADD SP,e8), `(nn) <- SP`, and
/// `pair <- nn`.
pub open spec fn load16_spec(s: CpuState, to: Register, from: Register) -> (CpuState, u16) {
    if to == Register::SP && from == Register::HL {
        (s.set_reg16(Register::SP, s.hl()), s.pc.wrapping_add(1))
    } else if to == Register::SP && from == Register::D8 {
        let (v, f) = add_signed_spec(s.sp(), s.imm8());
        (s.set_reg16(Register::HL, v).with_flags(f), s.pc.wrapping_add(2))
    } else if to == Register::D16 {
        (s.write16(s.imm16(), s.sp()), s.pc.wrapping_add(3))
    } else {
        (s.set_reg16(to, s.imm16()), s.pc.wrapping_add(3))
    }
}

pub open spec fn load_spec(s: CpuState, i: LoadInstruction) -> (CpuState, u16) {
    let a = s.reg(Register::A);
    match i {
        LoadInstruction::Ld8(to, from) => load8_spec(s, to, from),
        LoadInstruction::Ld16(to, from) => load16_spec(s, to, from),
        LoadInstruction::LdCa => (s.write(io_address(s.reg(Register::C)), a), s.pc.wrapping_add(1)),
        LoadInstruction::LdAc => (s.set_reg(Register::A, s.read(io_address(s.reg(Register::C)))), s.pc.wrapping_add(1)),
        LoadInstruction::LdNa => (s.write(io_address(s.imm8()), a), s.pc.wrapping_add(2)),
        LoadInstruction::LdAn => (s.set_reg(Register::A, s.read(io_address(s.imm8()))), s.pc.wrapping_add(2)),
        LoadInstruction::LdHi => (
            s.write(s.hl(), a).set_reg16(Register::HL, s.hl().wrapping_add(1)),
            s.pc.wrapping_add(1),
        ),
        LoadInstruction::LdHd => (
            s.write(s.hl(), a).set_reg16(Register::HL, s.hl().wrapping_sub(1)),
            s.pc.wrapping_add(1),
        ),
        LoadInstruction::LdAHi => (
            s.set_reg(Register::A, s.read(s.hl())).set_reg16(Register::HL, s.hl().wrapping_add(1)),
            s.pc.wrapping_add(1),
        ),
        LoadInstruction::LdAHd => (
            s.set_reg(Register::A, s.read(s.hl())).set_reg16(Register::HL, s.hl().wrapping_sub(1)),
            s.pc.wrapping_add(1),
        ),
        LoadInstruction::Push(r) => (s.push(s.reg16(r)), s.pc.wrapping_add(1)),
        LoadInstruction::Pop(r) => (s.drop_top().set_reg16(r, s.stack_top()), s.pc.wrapping_add(1)),
    }
}

/// Executes loads, stack pushes and pops.
pub struct LoadCommand {
    pub instruction: LoadInstruction,
}

impl LoadCommand {
    pub fn new(instruction: LoadInstruction) -> (r: LoadCommand)
        ensures
            r.instruction == instruction,
    {
        LoadCommand { instruction }
    }

    fn push(&self, cpu: &mut Cpu, register: &Register) -> (r: u16)
        requires
            register.is_stack_pair(),
        ensures
            (final(cpu)@, r) == load_spec(old(cpu)@, LoadInstruction::Push(*register)),
    {
        let value = cpu.registers.get_16(register);
        cpu.push(value);
        cpu.pc.wrapping_add(1)
    }

    fn pop(&self, cpu: &mut Cpu, register: &Register) -> (r: u16)
        requires
            register.is_stack_pair(),
        ensures
            (final(cpu)@, r) == load_spec(old(cpu)@, LoadInstruction::Pop(*register)),
    {
        let value = cpu.pop();
        cpu.registers.set_16(register, value);
        cpu.pc.wrapping_add(1)
    }

    fn load_8(&self, cpu: &mut Cpu, to: &Register, from: &Register) -> (r: u16)
        requires
            LoadInstruction::Ld8(*to, *from).is_valid(),
        ensures
            (final(cpu)@, r) == load8_spec(old(cpu)@, *to, *from),
    {
        match (to, from) {
            (Register::D16, _) => {
                let value = cpu.registers.get(from);
                let address = cpu.read_next_mem_16();
                cpu.memory.write(address, value);
                cpu.pc.wrapping_add(3)
            },
            (Register::BC | Register::DE | Register::HL, Register::D8) => {
                let value = cpu.read_next_mem();
                let address = cpu.registers.get_16(to);
                cpu.memory.write(address, value);
                cpu.pc.wrapping_add(2)
            },
            (Register::BC | Register::DE | Register::HL, _) => {
                let value = cpu.registers.get(from);
                let address = cpu.registers.get_16(to);
                cpu.memory.write(address, value);
                cpu.pc.wrapping_add(1)
            },
            (_, Register::D8) => {
                let value = cpu.read_next_mem();
                cpu.registers.set(to, value);
                cpu.pc.wrapping_add(2)
            },
            (_, Register::D16) => {
                let address = cpu.read_next_mem_16();
                let value = cpu.memory.read(address);
                cpu.registers.set(to, value);
                cpu.pc.wrapping_add(3)
            },
            (_, Register::BC | Register::DE | Register::HL) => {
                let address = cpu.registers.get_16(from);
                let value = cpu.memory.read(address);
                cpu.registers.set(to, value);
                cpu.pc.wrapping_add(1)
            },
            _ => {
                let value = cpu.registers.get(from);
                cpu.registers.set(to, value);
                cpu.pc.wrapping_add(1)
            },
        }
    }

    fn load_16(&self, cpu: &mut Cpu, to: &Register, from: &Register) -> (r: u16)
        requires
            LoadInstruction::Ld16(*to, *from).is_valid(),
        ensures
            (final(cpu)@, r) == load16_spec(old(cpu)@, *to, *from),
    {
        match (to, from) {
            (Register::SP, Register::HL) => {
                let value = cpu.registers.get_hl();
                cpu.registers.sp.set(value);
                cpu.pc.wrapping_add(1)
            },
            (Register::SP, Register::D8) => {
                let e = cpu.read_next_mem();
                let (value, flags) = alu::add_signed(cpu.registers.sp.get(), e);
                cpu.registers.set_hl(value);
                cpu.set_flags(flags);
                cpu.pc.wrapping_add(2)
            },
            (Register::D16, _) => {
                let address = cpu.read_next_mem_16();
                cpu.memory.write_16(address, cpu.registers.sp.get());
                cpu.pc.wrapping_add(3)
            },
            _ => {
                let value = cpu.read_next_mem_16();
                cpu.registers.set_16(to, value);
                cpu.pc.wrapping_add(3)
            },
        }
    }

    fn load_special(&self, cpu: &mut Cpu) -> (r: u16)
        requires
            !(self.instruction is Ld8 || self.instruction is Ld16 || self.instruction is Push
                || self.instruction is Pop),
        ensures
            (final(cpu)@, r) == load_spec(old(cpu)@, self.instruction),
    {
        match self.instruction {
            LoadInstruction::LdCa => {
                let address = 0xFF00u16 + cpu.registers.c as u16;
                cpu.memory.write(address, cpu.registers.a);
                cpu.pc.wrapping_add(1)
            },
            LoadInstruction::LdAc => {
                let address = 0xFF00u16 + cpu.registers.c as u16;
                cpu.registers.a = cpu.memory.read(address);
                cpu.pc.wrapping_add(1)
            },
            LoadInstruction::LdNa => {
                let address = 0xFF00u16 + cpu.read_next_mem() as u16;
                cpu.memory.write(address, cpu.registers.a);
                cpu.pc.wrapping_add(2)
            },
            LoadInstruction::LdAn => {
                let address = 0xFF00u16 + cpu.read_next_mem() as u16;
                cpu.registers.a = cpu.memory.read(address);
                cpu.pc.wrapping_add(2)
            },
            LoadInstruction::LdHi => {
                let address = cpu.registers.get_hl();
                cpu.memory.write(address, cpu.registers.a);
                cpu.registers.set_hl(address.wrapping_add(1));
                cpu.pc.wrapping_add(1)
            },
            LoadInstruction::LdHd => {
                let address = cpu.registers.get_hl();
                cpu.memory.write(address, cpu.registers.a);
                cpu.registers.set_hl(address.wrapping_sub(1));
                cpu.pc.wrapping_add(1)
            },
            LoadInstruction::LdAHi => {
                let address = cpu.registers.get_hl();
                cpu.registers.a = cpu.memory.read(address);
                cpu.registers.set_hl(address.wrapping_add(1));
                cpu.pc.wrapping_add(1)
            },
            _ => {
                let address = cpu.registers.get_hl();
                cpu.registers.a = cpu.memory.read(address);
                cpu.registers.set_hl(address.wrapping_sub(1));
                cpu.pc.wrapping_add(1)
            },
        }
    }
}

impl Command for LoadCommand {
    open spec fn instruction_spec(&self) -> Instruction {
        Instruction::Load(self.instruction)
    }

    fn execute(&self, cpu: &mut Cpu) -> (r: u16) {
        match &self.instruction {
            LoadInstruction::Push(register) => self.push(cpu, register),
            LoadInstruction::Pop(register) => self.pop(cpu, register),
            LoadInstruction::Ld8(to, from) => self.load_8(cpu, to, from),
            LoadInstruction::Ld16(to, from) => self.load_16(cpu, to, from),
            _ => self.load_special(cpu),
        }
    }
}

/// Pushing a pair and popping it again restores the pair's value and the stack pointer.
pub proof fn lemma_push_pop(s: CpuState, pair: Register)
    requires
        pair.is_stack_pair(),
        s.memory.len() == MEMORY_SIZE,
    ensures
        ({
            let pushed = load_spec(s, LoadInstruction::Push(pair)).0;
            let popped = load_spec(pushed, LoadInstruction::Pop(pair)).0;
            popped.reg16(pair) == s.reg16(pair) && popped.sp() == s.sp()
        }),
{
    let v = s.reg16(pair);
    let pushed = load_spec(s, LoadInstruction::Push(pair)).0;
    let sp = s.sp().wrapping_sub(2);
    lemma_word_write_read(s.memory, sp, v);
    assert(pushed.stack_top() == v);
    if pair == Register::AF {
        lemma_word_parts(s.registers.a, pack_flags(s.registers.f));
        lemma_flags_round_trip(s.registers.f);
        assert(v & 0x000Fu16 == 0u16) by (bit_vector)
            requires
                v as u8 & 0x0Fu8 == 0u8,
        ;
    }
    lemma_pair_round_trip(pushed.drop_top().registers, pair, v);
}

} // verus!
