use vstd::prelude::*;

pub mod alu;
pub mod instructions;
pub mod registers;

use crate::memory::{byte_at, loaded, with_word, word_at, Memory};
use self::alu::signed;
use self::instructions::{decode, CallInstruction, FlagCondition, Instruction, JumpInstruction, ReturnInstruction};
use self::registers::{FlagRegister, Register, Registers, StackPointer};
use crate::command::alu_commands::ArithmeticCommand;
use crate::command::bit_commands::BitCommand;
use crate::command::call_commands::CallCommand;
use crate::command::jump_commands::JumpCommand;
use crate::command::load_commands::LoadCommand;
use crate::command::misc_commands::MiscCommand;
use crate::command::return_commands::ReturnCommand;
use crate::command::rotate_commands::RotateCommand;
use crate::command::{execute_spec, Command};

verus! {

/// The processor as a mathematical value: registers, program counter, the 64 KiB
/// memory image, and the interrupt-enable, halted and stopped flags.
pub struct CpuState {
    pub registers: Registers,
    pub pc: u16,
    pub memory: Seq<u8>,
    pub interrupts_enabled: bool,
    pub halted: bool,
    pub stopped: bool,
}

/// The address `0xFF00 + offset` of the I/O page.
pub open spec fn io_address(offset: u8) -> u16 {
    (0xFF00 + offset as int) as u16
}

impl CpuState {
    pub open spec fn read(self, address: u16) -> u8 {
        byte_at(self.memory, address)
    }

    pub open spec fn read16(self, address: u16) -> u16 {
        word_at(self.memory, address)
    }

    /// The byte after the opcode.
    pub open spec fn imm8(self) -> u8 {
        self.read(self.pc.wrapping_add(1))
    }

    /// The little-endian word after the opcode.
    pub open spec fn imm16(self) -> u16 {
        self.read16(self.pc.wrapping_add(1))
    }

    pub open spec fn flags(self) -> FlagRegister {
        self.registers.f
    }

    pub open spec fn sp(self) -> u16 {
        self.registers.sp.value
    }

    pub open spec fn reg(self, r: Register) -> u8 {
        self.registers.get_spec(r)
    }

    pub open spec fn reg16(self, r: Register) -> u16 {
        self.registers.get16_spec(r)
    }

    pub open spec fn hl(self) -> u16 {
        self.reg16(Register::HL)
    }

    /// An 8-bit operand: the immediate byte for `D8`, the byte at HL for `HL`, else
    /// the register.
    pub open spec fn operand8(self, r: Register) -> u8 {
        if r == Register::D8 {
            self.imm8()
        } else if r == Register::HL {
            self.read(self.hl())
        } else {
            self.reg(r)
        }
    }

    pub open spec fn write(self, address: u16, value: u8) -> CpuState {
        CpuState { memory: self.memory.update(address as int, value), ..self }
    }

    pub open spec fn write16(self, address: u16, value: u16) -> CpuState {
        CpuState { memory: with_word(self.memory, address, value), ..self }
    }

    pub open spec fn with_registers(self, registers: Registers) -> CpuState {
        CpuState { registers, ..self }
    }

    pub open spec fn with_flags(self, f: FlagRegister) -> CpuState {
        self.with_registers(Registers { f, ..self.registers })
    }

    pub open spec fn set_reg(self, r: Register, value: u8) -> CpuState {
        self.with_registers(self.registers.set_spec(r, value))
    }

    pub open spec fn set_reg16(self, r: Register, value: u16) -> CpuState {
        self.with_registers(self.registers.set16_spec(r, value))
    }

    /// Stores into an 8-bit operand: the byte at HL for `HL`, else the register.
    pub open spec fn store8(self, r: Register, value: u8) -> CpuState {
        if r == Register::HL {
            self.write(self.hl(), value)
        } else {
            self.set_reg(r, value)
        }
    }

    /// NZ, Z, NC, C against the zero and carry flags.
    pub open spec fn condition(self, c: FlagCondition) -> bool {
        match c {
            FlagCondition::NZ => !self.flags().zero,
            FlagCondition::Z => self.flags().zero,
            FlagCondition::NC => !self.flags().carry,
            FlagCondition::C => self.flags().carry,
        }
    }

    /// SP lowered by two, then `value` stored little-endian at the new SP.
    pub open spec fn push(self, value: u16) -> CpuState {
        let sp = self.sp().wrapping_sub(2);
        self.set_reg16(Register::SP, sp).write16(sp, value)
    }

    /// The word at SP.
    pub open spec fn stack_top(self) -> u16 {
        self.read16(self.sp())
    }

    /// SP raised by two.
    pub open spec fn drop_top(self) -> CpuState {
        self.set_reg16(Register::SP, self.sp().wrapping_add(2))
    }
}

/// A memory image after the boot image is written at 0x0000 and the game image at 0x0100.
pub open spec fn booted(mem: Seq<u8>, boot_rom: Seq<u8>, game_rom: Seq<u8>) -> Seq<u8> {
    loaded(loaded(mem, 0, boot_rom), 0x100, game_rom)
}

/// The fatal conditions of a step.
#[derive(Clone, Copy, Debug, PartialEq, Eq, Structural)]
pub enum StepError {
    /// The byte at `pc` (or after the 0xCB prefix) encodes no instruction.
    InvalidOpcode { pc: u16, opcode: u8 },
    /// The instruction at `pc` left the program counter where it was.
    PcStuck { pc: u16 },
}

/// The opcode byte fetched at PC and whether it came after the 0xCB prefix.
pub open spec fn fetch(s: CpuState) -> (u8, bool) {
    let first = s.read(s.pc);
    if first == 0xCB {
        (s.read(s.pc.wrapping_add(1)), true)
    } else {
        (first, false)
    }
}

/// One fetch-decode-execute step: the state after it and its outcome. An invalid
/// opcode changes nothing; otherwise the instruction's effect is committed with its
/// new program counter, and the step fails when that equals the old one.
#[verifier::opaque]
pub open spec fn step_spec(s: CpuState) -> (CpuState, Result<(), StepError>) {
    let (byte, prefixed) = fetch(s);
    match decode(byte, prefixed) {
        None => (s, Err(StepError::InvalidOpcode { pc: s.pc, opcode: byte })),
        Some(ins) => {
            let (after, next_pc) = execute_spec(s, ins);
            (
                CpuState { pc: next_pc, ..after },
                if next_pc == s.pc {
                    Err(StepError::PcStuck { pc: s.pc })
                } else {
                    Ok(())
                },
            )
        },
    }
}

/// An instruction that can move the program counter anywhere: a jump, call or return.
pub open spec fn is_control_transfer(ins: Instruction) -> bool {
    ins is Jump || ins is Call || ins is Return
}

/// A step that decodes an instruction which is no jump, call or return, taken where
/// the program counter cannot wrap past 0xFFFF, moves the program counter forward (by
/// the instruction's length) and succeeds.
pub proof fn lemma_step_advances_pc(s: CpuState)
    requires
        decode(fetch(s).0, fetch(s).1) matches Some(ins) && !is_control_transfer(ins),
        s.pc <= 0xFFFC,
    ensures
        step_spec(s).0.pc > s.pc,
        step_spec(s).0.pc <= s.pc + 3,
        step_spec(s).1 is Ok,
{
    reveal(step_spec);
}

/// A step that decodes `JR e8` moves the program counter to the address after the
/// instruction plus `e8` read as a signed byte, wrapping, and changes nothing else.
pub proof fn lemma_step_relative_jump(s: CpuState)
    requires
        decode(fetch(s).0, fetch(s).1) == Some(Instruction::Jump(JumpInstruction::Jr)),
    ensures
        step_spec(s).0.pc as int == (s.pc as int + 2 + signed(s.imm8())) % 65536,
        step_spec(s).0 == (CpuState { pc: step_spec(s).0.pc, ..s }),
{
    reveal(step_spec);
}

/// A conditional jump, call or return whose condition fails moves the program counter
/// past itself (three bytes for JP and CALL, two for JR, one for RET) and changes
/// nothing else.
pub proof fn lemma_condition_false_falls_through(s: CpuState, c: FlagCondition)
    requires
        !s.condition(c),
    ensures
        execute_spec(s, Instruction::Jump(JumpInstruction::JpCond(c))) == (s, s.pc.wrapping_add(3)),
        execute_spec(s, Instruction::Jump(JumpInstruction::JrCond(c))) == (s, s.pc.wrapping_add(2)),
        execute_spec(s, Instruction::Call(CallInstruction::CallCond(c))) == (s, s.pc.wrapping_add(3)),
        execute_spec(s, Instruction::Return(ReturnInstruction::RetCond(c))) == (s, s.pc.wrapping_add(1)),
{
}

/// Up to `n` steps from `s`, stopping at the first that fails: the state reached and
/// the outcome of the last step taken.
pub open spec fn run_steps(s: CpuState, n: nat) -> (CpuState, Result<(), StepError>)
    decreases n,
{
    if n == 0 {
        (s, Ok(()))
    } else {
        let (next, outcome) = step_spec(s);
        if outcome is Err {
            (next, outcome)
        } else {
            run_steps(next, (n - 1) as nat)
        }
    }
}

/// Number of steps of the boot sequence, run from address 0x0000.
pub const BOOT_STEPS: u64 = 0xFF;

/// Address the game starts at once the boot sequence is over.
pub const GAME_ENTRY: u16 = 0x100;

/// The boot sequence from `s` (BOOT_STEPS steps from address 0), then, unless it
/// failed, `n` steps from the game entry point.
pub open spec fn run_spec(s: CpuState, n: nat) -> (CpuState, Result<(), StepError>) {
    let (booted_state, outcome) = run_steps(CpuState { pc: 0, ..s }, BOOT_STEPS as nat);
    if outcome is Err {
        (booted_state, outcome)
    } else {
        run_steps(CpuState { pc: GAME_ENTRY, ..booted_state }, n)
    }
}

/// The processor: registers, program counter, memory and interrupt state.
pub struct Cpu {
    pub interrupts_enabled: bool,
    pub registers: Registers,
    pub pc: u16,
    pub memory: Memory,
    pub halted: bool,
    pub stopped: bool,
}

impl View for Cpu {
    type V = CpuState;

    open spec fn view(&self) -> CpuState {
        CpuState {
            registers: self.registers,
            pc: self.pc,
            memory: self.memory@,
            interrupts_enabled: self.interrupts_enabled,
            halted: self.halted,
            stopped: self.stopped,
        }
    }
}

impl Cpu {
    /// The state of a fresh processor.
    pub open spec fn new_spec() -> CpuState {
        CpuState {
            registers: Registers {
                a: 0,
                b: 0,
                c: 0,
                d: 0,
                e: 0,
                f: FlagRegister { zero: false, subtract: false, half_carry: false, carry: false },
                h: 0,
                l: 0,
                sp: StackPointer { value: 0 },
            },
            pc: 0,
            memory: Seq::new(0x10000, |i: int| 0u8),
            interrupts_enabled: false,
            halted: false,
            stopped: false,
        }
    }

    /// All registers, flags, memory and the program counter zero; interrupts disabled.
    pub fn new() -> (r: Cpu)
        ensures
            r@ == Cpu::new_spec(),
    {
        Cpu {
            interrupts_enabled: false,
            registers: Registers::new(),
            pc: 0,
            memory: Memory::new(),
            halted: false,
            stopped: false,
        }
    }

    /// Writes the boot image at 0x0000 and the game image from 0x0100 on; nothing
    /// else changes.
    pub fn boot(&mut self, boot_rom: Vec<u8>, game_rom: Vec<u8>)
        requires
            boot_rom@.len() <= 0x10000,
            game_rom@.len() <= 0xFF00,
        ensures
            final(self)@ == (CpuState { memory: booted(old(self)@.memory, boot_rom@, game_rom@), ..old(self)@ }),
    {
        self.memory.write_vec(0x0, boot_rom);
        self.memory.write_vec(0x100, game_rom);
    }

    /// Executes a decoded instruction and returns the address of the next one; `pc`
    /// itself is left to the caller.
    pub fn execute(&mut self, instruction: Instruction, _prefixed: bool) -> (r: u16)
        requires
            instruction.is_valid(),
        ensures
            (final(self)@, r) == execute_spec(old(self)@, instruction),
    {
        match instruction {
            Instruction::Load(i) => LoadCommand::new(i).execute(self),
            Instruction::Arithmetic(i) => ArithmeticCommand::new(i).execute(self),
            Instruction::Misc(i) => MiscCommand::new(i).execute(self),
            Instruction::Rotate(i) => RotateCommand::new(i).execute(self),
            Instruction::Jump(i) => JumpCommand::new(i).execute(self),
            Instruction::Bit(i) => BitCommand::new(i).execute(self),
            Instruction::Call(i) => CallCommand::new(i).execute(self),
            Instruction::Return(i) => ReturnCommand::new(i).execute(self),
        }
    }

    /// Fetches the opcode at PC (and the byte after a 0xCB prefix), decodes it,
    /// executes it and commits the new program counter.
    pub fn step(&mut self) -> (r: Result<(), StepError>)
        ensures
            (final(self)@, r) == step_spec(old(self)@),
    {
        proof {
            reveal(step_spec);
        }
        let opcode = self.memory.read(self.pc);
        let prefixed = opcode == 0xCB;
        let byte = if prefixed {
            self.memory.read(self.pc.wrapping_add(1))
        } else {
            opcode
        };
        match Instruction::from_byte(byte, prefixed) {
            None => Err(StepError::InvalidOpcode { pc: self.pc, opcode: byte }),
            Some(instruction) => {
                let old_pc = self.pc;
                let next_pc = self.execute(instruction, prefixed);
                self.pc = next_pc;
                if next_pc == old_pc {
                    Err(StepError::PcStuck { pc: old_pc })
                } else {
                    Ok(())
                }
            },
        }
    }

    /// Runs up to `n` steps, stopping at the first that fails.
    pub fn run_for(&mut self, n: u64) -> (r: Result<(), StepError>)
        ensures
            (final(self)@, r) == run_steps(old(self)@, n as nat),
    {
        let ghost start = self@;
        let mut i: u64 = 0;
        while i < n
            invariant
                i <= n,
                start == old(self)@,
                run_steps(start, n as nat) == run_steps(self@, (n - i) as nat),
            decreases n - i,
        {
            let ghost before = self@;
            let outcome = self.step();
            if outcome.is_err() {
                assert(run_steps(before, (n - i) as nat) == (self@, outcome));
                return outcome;
            }
            i = i + 1;
        }
        Ok(())
    }

    /// The boot sequence (BOOT_STEPS steps from address 0x0000), then `n` steps of the
    /// game from 0x0100; stops at the first step that fails.
    pub fn run(&mut self, n: u64) -> (r: Result<(), StepError>)
        ensures
            (final(self)@, r) == run_spec(old(self)@, n as nat),
    {
        self.pc = 0;
        let outcome = self.run_for(BOOT_STEPS);
        if outcome.is_err() {
            return outcome;
        }
        self.pc = GAME_ENTRY;
        self.run_for(n)
    }

    /// The byte after the opcode.
    pub(crate) fn read_next_mem(&self) -> (r: u8)
        ensures
            r == self@.imm8(),
    {
        self.memory.read(self.pc.wrapping_add(1))
    }

    /// The word after the opcode.
    pub(crate) fn read_next_mem_16(&self) -> (r: u16)
        ensures
            r == self@.imm16(),
    {
        self.memory.read_16(self.pc.wrapping_add(1))
    }

    pub(crate) fn get_memory_by_hl(&self) -> (r: u8)
        ensures
            r == self@.read(self@.hl()),
    {
        self.memory.read(self.registers.get_hl())
    }

    /// An 8-bit operand and the program counter after an instruction that takes it
    /// from the unprefixed table: one byte more for an immediate.
    pub(crate) fn extract_operand(&self, from: &Register) -> (r: (u8, u16))
        requires
            from.is_operand8() || *from == Register::D8,
        ensures
            r.0 == self@.operand8(*from),
            r.1 == if *from == Register::D8 {
                self.pc.wrapping_add(2)
            } else {
                self.pc.wrapping_add(1)
            },
    {
        match from {
            Register::D8 => (self.read_next_mem(), self.pc.wrapping_add(2)),
            Register::HL => (self.get_memory_by_hl(), self.pc.wrapping_add(1)),
            _ => (self.registers.get(from), self.pc.wrapping_add(1)),
        }
    }

    /// Stores into a register or, for `HL`, into the byte it addresses.
    pub(crate) fn store_operand(&mut self, to: &Register, value: u8)
        requires
            to.is_operand8(),
        ensures
            final(self)@ == old(self)@.store8(*to, value),
    {
        match to {
            Register::HL => {
                let address = self.registers.get_hl();
                self.memory.write(address, value);
            },
            _ => self.registers.set(to, value),
        }
    }

    pub(crate) fn resolve_flag_condition(&self, condition: &FlagCondition) -> (r: bool)
        ensures
            r == self@.condition(*condition),
    {
        match condition {
            FlagCondition::NZ => !self.registers.f.zero,
            FlagCondition::Z => self.registers.f.zero,
            FlagCondition::NC => !self.registers.f.carry,
            FlagCondition::C => self.registers.f.carry,
        }
    }

    pub(crate) fn set_flags(&mut self, f: FlagRegister)
        ensures
            final(self)@ == old(self)@.with_flags(f),
    {
        self.registers.f = f;
    }

    /// Pushes a word onto the stack.
    pub(crate) fn push(&mut self, value: u16)
        ensures
            final(self)@ == old(self)@.push(value),
    {
        let sp = self.registers.sp.get().wrapping_sub(2);
        self.registers.sp.set(sp);
        self.memory.write_16(sp, value);
    }

    /// Pops the word at the top of the stack.
    pub(crate) fn pop(&mut self) -> (r: u16)
        ensures
            r == old(self)@.stack_top(),
            final(self)@ == old(self)@.drop_top(),
    {
        let value = self.memory.read_16(self.registers.sp.get());
        self.registers.sp.set(self.registers.sp.get().wrapping_add(2));
        value
    }
}

} // verus!
