use vstd::prelude::*;

use super::registers::Register;

verus! {

/// Condition tested by conditional jumps, calls and returns.
#[derive(Clone, Copy, Debug, PartialEq, Eq, Structural)]
pub enum FlagCondition {
    /// Zero flag clear.
    NZ,
    /// Zero flag set.
    Z,
    /// Carry flag clear.
    NC,
    /// Carry flag set.
    C,
}

#[derive(Clone, Copy, Debug, PartialEq, Eq, Structural)]
pub enum LoadInstruction {
    /// 8-bit load `to <- from`; a pair selector means the byte it addresses, `D16` the
    /// byte at an immediate address.
    Ld8(Register, Register),
    /// 16-bit load `to <- from`; `Ld16(SP, D8)` is `HL <- SP + e8` and
    /// `Ld16(D16, SP)` stores SP at an immediate address.
    Ld16(Register, Register),
    /// `(0xFF00 + C) <- A`
    LdCa,
    /// `A <- (0xFF00 + C)`
    LdAc,
    /// `(0xFF00 + n8) <- A`
    LdNa,
    /// `A <- (0xFF00 + n8)`
    LdAn,
    /// `(HL) <- A`, then HL is incremented.
    LdHi,
    /// `(HL) <- A`, then HL is decremented.
    LdHd,
    /// `A <- (HL)`, then HL is incremented.
    LdAHi,
    /// `A <- (HL)`, then HL is decremented.
    LdAHd,
    /// Push a pair onto the stack.
    Push(Register),
    /// Pop a pair from the stack.
    Pop(Register),
}

#[derive(Clone, Copy, Debug, PartialEq, Eq, Structural)]
pub enum ArithmeticInstruction {
    /// `A <- A + x`
    Add(Register),
    /// `HL <- HL + pair`
    Add16(Register),
    /// `SP <- SP + e8`
    Add16SP,
    /// `A <- A + x + carry`
    Adc(Register),
    /// `A <- A - x`
    Sub(Register),
    /// `A <- A - x - carry`
    Sbc(Register),
    /// `A <- A & x`
    And(Register),
    /// `A <- A | x`
    Or(Register),
    /// `A <- A ^ x`
    Xor(Register),
    /// Flags of `A - x`, A unchanged.
    Cp(Register),
    /// 8-bit increment.
    Inc(Register),
    /// 16-bit increment.
    Inc16(Register),
    /// 8-bit decrement.
    Dec(Register),
    /// 16-bit decrement.
    Dec16(Register),
}

#[derive(Clone, Copy, Debug, PartialEq, Eq, Structural)]
pub enum MiscInstruction {
    Nop,
    /// Exchange the two nibbles of a register or of `(HL)`.
    Swap(Register),
    /// Decimal adjust of A.
    DAA,
    /// Complement A.
    CPL,
    /// Complement the carry flag.
    CCF,
    /// Set the carry flag.
    SCF,
    HALT,
    STOP,
    /// Disable interrupts.
    DI,
    /// Enable interrupts.
    EI,
}

#[derive(Clone, Copy, Debug, PartialEq, Eq, Structural)]
pub enum RotateInstruction {
    RLCA,
    RLA,
    RRCA,
    RRA,
    RLC(Register),
    RL(Register),
    RRC(Register),
    RR(Register),
    SLA(Register),
    SRA(Register),
    SRL(Register),
}

#[derive(Clone, Copy, Debug, PartialEq, Eq, Structural)]
pub enum JumpInstruction {
    /// Jump to the immediate address.
    Jp,
    JpCond(FlagCondition),
    /// Jump to the address in HL.
    JpHL,
    /// Jump by a signed displacement.
    Jr,
    JrCond(FlagCondition),
}

#[derive(Clone, Copy, Debug, PartialEq, Eq, Structural)]
pub enum BitInstruction {
    /// Test a bit.
    Bit(u8, Register),
    /// Set a bit.
    SetBit(u8, Register),
    /// Clear a bit.
    Res(u8, Register),
}

#[derive(Clone, Copy, Debug, PartialEq, Eq, Structural)]
pub enum CallInstruction {
    Call,
    CallCond(FlagCondition),
}

#[derive(Clone, Copy, Debug, PartialEq, Eq, Structural)]
pub enum ReturnInstruction {
    /// Call the restart vector.
    Rst(u8),
    Ret,
    RetCond(FlagCondition),
    /// Return and enable interrupts.
    Reti,
}

/// A decoded instruction.
#[derive(Clone, Copy, Debug, PartialEq, Eq, Structural)]
pub enum Instruction {
    Load(LoadInstruction),
    Arithmetic(ArithmeticInstruction),
    Misc(MiscInstruction),
    Rotate(RotateInstruction),
    Jump(JumpInstruction),
    Bit(BitInstruction),
    Call(CallInstruction),
    Return(ReturnInstruction),
}

/// A pair that addresses memory in an 8-bit load.
pub open spec fn is_pointer_pair(r: Register) -> bool {
    r == Register::BC || r == Register::DE || r == Register::HL
}

/// An 8-bit ALU source: a register, `(HL)` or an immediate byte.
pub open spec fn is_alu_source(r: Register) -> bool {
    r.is_operand8() || r == Register::D8
}

impl LoadInstruction {
    pub open spec fn is_valid(self) -> bool {
        match self {
            LoadInstruction::Ld8(to, from) => {
                ||| to.is_reg8() && (from.is_reg8() || from == Register::D8 || is_pointer_pair(from)
                    || from == Register::D16)
                ||| is_pointer_pair(to) && from.is_reg8()
                ||| to == Register::HL && from == Register::D8
                ||| to == Register::D16 && from.is_reg8()
            },
            LoadInstruction::Ld16(to, from) => {
                ||| to.is_arith16() && from == Register::D16
                ||| to == Register::SP && from == Register::HL
                ||| to == Register::D16 && from == Register::SP
                ||| to == Register::SP && from == Register::D8
            },
            LoadInstruction::Push(r) => r.is_stack_pair(),
            LoadInstruction::Pop(r) => r.is_stack_pair(),
            _ => true,
        }
    }
}

impl ArithmeticInstruction {
    pub open spec fn is_valid(self) -> bool {
        match self {
            ArithmeticInstruction::Add(r) => is_alu_source(r),
            ArithmeticInstruction::Adc(r) => is_alu_source(r),
            ArithmeticInstruction::Sub(r) => is_alu_source(r),
            ArithmeticInstruction::Sbc(r) => is_alu_source(r),
            ArithmeticInstruction::And(r) => is_alu_source(r),
            ArithmeticInstruction::Or(r) => is_alu_source(r),
            ArithmeticInstruction::Xor(r) => is_alu_source(r),
            ArithmeticInstruction::Cp(r) => is_alu_source(r),
            ArithmeticInstruction::Add16(r) => r.is_arith16(),
            ArithmeticInstruction::Add16SP => true,
            ArithmeticInstruction::Inc(r) => r.is_operand8(),
            ArithmeticInstruction::Dec(r) => r.is_operand8(),
            ArithmeticInstruction::Inc16(r) => r.is_arith16(),
            ArithmeticInstruction::Dec16(r) => r.is_arith16(),
        }
    }
}

impl RotateInstruction {
    pub open spec fn is_valid(self) -> bool {
        match self {
            RotateInstruction::RLC(r) => r.is_operand8(),
            RotateInstruction::RL(r) => r.is_operand8(),
            RotateInstruction::RRC(r) => r.is_operand8(),
            RotateInstruction::RR(r) => r.is_operand8(),
            RotateInstruction::SLA(r) => r.is_operand8(),
            RotateInstruction::SRA(r) => r.is_operand8(),
            RotateInstruction::SRL(r) => r.is_operand8(),
            _ => true,
        }
    }
}

impl BitInstruction {
    pub open spec fn is_valid(self) -> bool {
        match self {
            BitInstruction::Bit(n, r) => n < 8 && r.is_operand8(),
            BitInstruction::SetBit(n, r) => n < 8 && r.is_operand8(),
            BitInstruction::Res(n, r) => n < 8 && r.is_operand8(),
        }
    }
}

impl MiscInstruction {
    pub open spec fn is_valid(self) -> bool {
        match self {
            MiscInstruction::Swap(r) => r.is_operand8(),
            _ => true,
        }
    }
}

impl Instruction {
    /// The operands are ones the instruction's category accepts.
    pub open spec fn is_valid(self) -> bool {
        match self {
            Instruction::Load(i) => i.is_valid(),
            Instruction::Arithmetic(i) => i.is_valid(),
            Instruction::Misc(i) => i.is_valid(),
            Instruction::Rotate(i) => i.is_valid(),
            Instruction::Bit(i) => i.is_valid(),
            _ => true,
        }
    }
}

/// The operand selected by a 3-bit register code: B, C, D, E, H, L, (HL), A.
pub open spec fn register_of_code(code: u8) -> Register {
    if code == 0 {
        Register::B
    } else if code == 1 {
        Register::C
    } else if code == 2 {
        Register::D
    } else if code == 3 {
        Register::E
    } else if code == 4 {
        Register::H
    } else if code == 5 {
        Register::L
    } else if code == 6 {
        Register::HL
    } else {
        Register::A
    }
}

/// The CB-prefixed table. Bits 7-6 select the block (rotate/shift group, BIT, RES,
/// SET), bits 5-3 the operation or bit index, bits 2-0 the operand.
pub open spec fn decode_prefixed(byte: u8) -> Instruction {
    let r = register_of_code(byte & 7u8);
    let row = (byte >> 3u8) & 7u8;
    let block = byte >> 6u8;
    if block == 0 {
        if row == 0 {
            Instruction::Rotate(RotateInstruction::RLC(r))
        } else if row == 1 {
            Instruction::Rotate(RotateInstruction::RRC(r))
        } else if row == 2 {
            Instruction::Rotate(RotateInstruction::RL(r))
        } else if row == 3 {
            Instruction::Rotate(RotateInstruction::RR(r))
        } else if row == 4 {
            Instruction::Rotate(RotateInstruction::SLA(r))
        } else if row == 5 {
            Instruction::Rotate(RotateInstruction::SRA(r))
        } else if row == 6 {
            Instruction::Misc(MiscInstruction::Swap(r))
        } else {
            Instruction::Rotate(RotateInstruction::SRL(r))
        }
    } else if block == 1 {
        Instruction::Bit(BitInstruction::Bit(row, r))
    } else if block == 2 {
        Instruction::Bit(BitInstruction::Res(row, r))
    } else {
        Instruction::Bit(BitInstruction::SetBit(row, r))
    }
}

/// The 8-bit ALU block 0x80-0xBF: bits 5-3 select ADD, ADC, SUB, SBC, AND, XOR, OR, CP.
pub open spec fn decode_alu_block(byte: u8) -> ArithmeticInstruction {
    let r = register_of_code(byte & 7u8);
    let op = (byte >> 3u8) & 7u8;
    if op == 0 {
        ArithmeticInstruction::Add(r)
    } else if op == 1 {
        ArithmeticInstruction::Adc(r)
    } else if op == 2 {
        ArithmeticInstruction::Sub(r)
    } else if op == 3 {
        ArithmeticInstruction::Sbc(r)
    } else if op == 4 {
        ArithmeticInstruction::And(r)
    } else if op == 5 {
        ArithmeticInstruction::Xor(r)
    } else if op == 6 {
        ArithmeticInstruction::Or(r)
    } else {
        ArithmeticInstruction::Cp(r)
    }
}

/// The opcodes outside the two regular blocks 0x40-0x7F and 0x80-0xBF; `None` for the
/// bytes that encode no instruction (and for 0xCB, the prefix itself).
pub open spec fn decode_irregular(byte: u8) -> Option<Instruction> {
    match byte {
        0x00u8 => Some(Instruction::Misc(MiscInstruction::Nop)),
        0x01u8 => Some(Instruction::Load(LoadInstruction::Ld16(Register::BC, Register::D16))),
        0x02u8 => Some(Instruction::Load(LoadInstruction::Ld8(Register::BC, Register::A))),
        0x03u8 => Some(Instruction::Arithmetic(ArithmeticInstruction::Inc16(Register::BC))),
        0x04u8 => Some(Instruction::Arithmetic(ArithmeticInstruction::Inc(Register::B))),
        0x05u8 => Some(Instruction::Arithmetic(ArithmeticInstruction::Dec(Register::B))),
        0x06u8 => Some(Instruction::Load(LoadInstruction::Ld8(Register::B, Register::D8))),
        0x07u8 => Some(Instruction::Rotate(RotateInstruction::RLCA)),
        0x08u8 => Some(Instruction::Load(LoadInstruction::Ld16(Register::D16, Register::SP))),
        0x09u8 => Some(Instruction::Arithmetic(ArithmeticInstruction::Add16(Register::BC))),
        0x0Au8 => Some(Instruction::Load(LoadInstruction::Ld8(Register::A, Register::BC))),
        0x0Bu8 => Some(Instruction::Arithmetic(ArithmeticInstruction::Dec16(Register::BC))),
        0x0Cu8 => Some(Instruction::Arithmetic(ArithmeticInstruction::Inc(Register::C))),
        0x0Du8 => Some(Instruction::Arithmetic(ArithmeticInstruction::Dec(Register::C))),
        0x0Eu8 => Some(Instruction::Load(LoadInstruction::Ld8(Register::C, Register::D8))),
        0x0Fu8 => Some(Instruction::Rotate(RotateInstruction::RRCA)),
        0x10u8 => Some(Instruction::Misc(MiscInstruction::STOP)),
        0x11u8 => Some(Instruction::Load(LoadInstruction::Ld16(Register::DE, Register::D16))),
        0x12u8 => Some(Instruction::Load(LoadInstruction::Ld8(Register::DE, Register::A))),
        0x13u8 => Some(Instruction::Arithmetic(ArithmeticInstruction::Inc16(Register::DE))),
        0x14u8 => Some(Instruction::Arithmetic(ArithmeticInstruction::Inc(Register::D))),
        0x15u8 => Some(Instruction::Arithmetic(ArithmeticInstruction::Dec(Register::D))),
        0x16u8 => Some(Instruction::Load(LoadInstruction::Ld8(Register::D, Register::D8))),
        0x17u8 => Some(Instruction::Rotate(RotateInstruction::RLA)),
        0x18u8 => Some(Instruction::Jump(JumpInstruction::Jr)),
        0x19u8 => Some(Instruction::Arithmetic(ArithmeticInstruction::Add16(Register::DE))),
        0x1Au8 => Some(Instruction::Load(LoadInstruction::Ld8(Register::A, Register::DE))),
        0x1Bu8 => Some(Instruction::Arithmetic(ArithmeticInstruction::Dec16(Register::DE))),
        0x1Cu8 => Some(Instruction::Arithmetic(ArithmeticInstruction::Inc(Register::E))),
        0x1Du8 => Some(Instruction::Arithmetic(ArithmeticInstruction::Dec(Register::E))),
        0x1Eu8 => Some(Instruction::Load(LoadInstruction::Ld8(Register::E, Register::D8))),
        0x1Fu8 => Some(Instruction::Rotate(RotateInstruction::RRA)),
        0x20u8 => Some(Instruction::Jump(JumpInstruction::JrCond(FlagCondition::NZ))),
        0x21u8 => Some(Instruction::Load(LoadInstruction::Ld16(Register::HL, Register::D16))),
        0x22u8 => Some(Instruction::Load(LoadInstruction::LdHi)),
        0x23u8 => Some(Instruction::Arithmetic(ArithmeticInstruction::Inc16(Register::HL))),
        0x24u8 => Some(Instruction::Arithmetic(ArithmeticInstruction::Inc(Register::H))),
        0x25u8 => Some(Instruction::Arithmetic(ArithmeticInstruction::Dec(Register::H))),
        0x26u8 => Some(Instruction::Load(LoadInstruction::Ld8(Register::H, Register::D8))),
        0x27u8 => Some(Instruction::Misc(MiscInstruction::DAA)),
        0x28u8 => Some(Instruction::Jump(JumpInstruction::JrCond(FlagCondition::Z))),
        0x29u8 => Some(Instruction::Arithmetic(ArithmeticInstruction::Add16(Register::HL))),
        0x2Au8 => Some(Instruction::Load(LoadInstruction::LdAHi)),
        0x2Bu8 => Some(Instruction::Arithmetic(ArithmeticInstruction::Dec16(Register::HL))),
        0x2Cu8 => Some(Instruction::Arithmetic(ArithmeticInstruction::Inc(Register::L))),
        0x2Du8 => Some(Instruction::Arithmetic(ArithmeticInstruction::Dec(Register::L))),
        0x2Eu8 => Some(Instruction::Load(LoadInstruction::Ld8(Register::L, Register::D8))),
        0x2Fu8 => Some(Instruction::Misc(MiscInstruction::CPL)),
        0x30u8 => Some(Instruction::Jump(JumpInstruction::JrCond(FlagCondition::NC))),
        0x31u8 => Some(Instruction::Load(LoadInstruction::Ld16(Register::SP, Register::D16))),
        0x32u8 => Some(Instruction::Load(LoadInstruction::LdHd)),
        0x33u8 => Some(Instruction::Arithmetic(ArithmeticInstruction::Inc16(Register::SP))),
        0x34u8 => Some(Instruction::Arithmetic(ArithmeticInstruction::Inc(Register::HL))),
        0x35u8 => Some(Instruction::Arithmetic(ArithmeticInstruction::Dec(Register::HL))),
        0x36u8 => Some(Instruction::Load(LoadInstruction::Ld8(Register::HL, Register::D8))),
        0x37u8 => Some(Instruction::Misc(MiscInstruction::SCF)),
        0x38u8 => Some(Instruction::Jump(JumpInstruction::JrCond(FlagCondition::C))),
        0x39u8 => Some(Instruction::Arithmetic(ArithmeticInstruction::Add16(Register::SP))),
        0x3Au8 => Some(Instruction::Load(LoadInstruction::LdAHd)),
        0x3Bu8 => Some(Instruction::Arithmetic(ArithmeticInstruction::Dec16(Register::SP))),
        0x3Cu8 => Some(Instruction::Arithmetic(ArithmeticInstruction::Inc(Register::A))),
        0x3Du8 => Some(Instruction::Arithmetic(ArithmeticInstruction::Dec(Register::A))),
        0x3Eu8 => Some(Instruction::Load(LoadInstruction::Ld8(Register::A, Register::D8))),
        0x3Fu8 => Some(Instruction::Misc(MiscInstruction::CCF)),
        0xC0u8 => Some(Instruction::Return(ReturnInstruction::RetCond(FlagCondition::NZ))),
        0xC1u8 => Some(Instruction::Load(LoadInstruction::Pop(Register::BC))),
        0xC2u8 => Some(Instruction::Jump(JumpInstruction::JpCond(FlagCondition::NZ))),
        0xC3u8 => Some(Instruction::Jump(JumpInstruction::Jp)),
        0xC4u8 => Some(Instruction::Call(CallInstruction::CallCond(FlagCondition::NZ))),
        0xC5u8 => Some(Instruction::Load(LoadInstruction::Push(Register::BC))),
        0xC6u8 => Some(Instruction::Arithmetic(ArithmeticInstruction::Add(Register::D8))),
        0xC7u8 => Some(Instruction::Return(ReturnInstruction::Rst(0x00))),
        0xC8u8 => Some(Instruction::Return(ReturnInstruction::RetCond(FlagCondition::Z))),
        0xC9u8 => Some(Instruction::Return(ReturnInstruction::Ret)),
        0xCAu8 => Some(Instruction::Jump(JumpInstruction::JpCond(FlagCondition::Z))),
        0xCCu8 => Some(Instruction::Call(CallInstruction::CallCond(FlagCondition::Z))),
        0xCDu8 => Some(Instruction::Call(CallInstruction::Call)),
        0xCEu8 => Some(Instruction::Arithmetic(ArithmeticInstruction::Adc(Register::D8))),
        0xCFu8 => Some(Instruction::Return(ReturnInstruction::Rst(0x08))),
        0xD0u8 => Some(Instruction::Return(ReturnInstruction::RetCond(FlagCondition::NC))),
        0xD1u8 => Some(Instruction::Load(LoadInstruction::Pop(Register::DE))),
        0xD2u8 => Some(Instruction::Jump(JumpInstruction::JpCond(FlagCondition::NC))),
        0xD4u8 => Some(Instruction::Call(CallInstruction::CallCond(FlagCondition::NC))),
        0xD5u8 => Some(Instruction::Load(LoadInstruction::Push(Register::DE))),
        0xD6u8 => Some(Instruction::Arithmetic(ArithmeticInstruction::Sub(Register::D8))),
        0xD7u8 => Some(Instruction::Return(ReturnInstruction::Rst(0x10))),
        0xD8u8 => Some(Instruction::Return(ReturnInstruction::RetCond(FlagCondition::C))),
        0xD9u8 => Some(Instruction::Return(ReturnInstruction::Reti)),
        0xDAu8 => Some(Instruction::Jump(JumpInstruction::JpCond(FlagCondition::C))),
        0xDCu8 => Some(Instruction::Call(CallInstruction::CallCond(FlagCondition::C))),
        0xDEu8 => Some(Instruction::Arithmetic(ArithmeticInstruction::Sbc(Register::D8))),
        0xDFu8 => Some(Instruction::Return(ReturnInstruction::Rst(0x18))),
        0xE0u8 => Some(Instruction::Load(LoadInstruction::LdNa)),
        0xE1u8 => Some(Instruction::Load(LoadInstruction::Pop(Register::HL))),
        0xE2u8 => Some(Instruction::Load(LoadInstruction::LdCa)),
        0xE5u8 => Some(Instruction::Load(LoadInstruction::Push(Register::HL))),
        0xE6u8 => Some(Instruction::Arithmetic(ArithmeticInstruction::And(Register::D8))),
        0xE7u8 => Some(Instruction::Return(ReturnInstruction::Rst(0x20))),
        0xE8u8 => Some(Instruction::Arithmetic(ArithmeticInstruction::Add16SP)),
        0xE9u8 => Some(Instruction::Jump(JumpInstruction::JpHL)),
        0xEAu8 => Some(Instruction::Load(LoadInstruction::Ld8(Register::D16, Register::A))),
        0xEEu8 => Some(Instruction::Arithmetic(ArithmeticInstruction::Xor(Register::D8))),
        0xEFu8 => Some(Instruction::Return(ReturnInstruction::Rst(0x28))),
        0xF0u8 => Some(Instruction::Load(LoadInstruction::LdAn)),
        0xF1u8 => Some(Instruction::Load(LoadInstruction::Pop(Register::AF))),
        0xF2u8 => Some(Instruction::Load(LoadInstruction::LdAc)),
        0xF3u8 => Some(Instruction::Misc(MiscInstruction::DI)),
        0xF5u8 => Some(Instruction::Load(LoadInstruction::Push(Register::AF))),
        0xF6u8 => Some(Instruction::Arithmetic(ArithmeticInstruction::Or(Register::D8))),
        0xF7u8 => Some(Instruction::Return(ReturnInstruction::Rst(0x30))),
        0xF8u8 => Some(Instruction::Load(LoadInstruction::Ld16(Register::SP, Register::D8))),
        0xF9u8 => Some(Instruction::Load(LoadInstruction::Ld16(Register::SP, Register::HL))),
        0xFAu8 => Some(Instruction::Load(LoadInstruction::Ld8(Register::A, Register::D16))),
        0xFBu8 => Some(Instruction::Misc(MiscInstruction::EI)),
        0xFEu8 => Some(Instruction::Arithmetic(ArithmeticInstruction::Cp(Register::D8))),
        0xFFu8 => Some(Instruction::Return(ReturnInstruction::Rst(0x38))),
        _ => None,
    }
}

/// The unprefixed table: 0x76 is HALT, the rest of 0x40-0x7F are register-to-register
/// loads `Ld8(code(bits 5-3), code(bits 2-0))`, 0x80-0xBF the ALU block.
pub open spec fn decode_unprefixed(byte: u8) -> Option<Instruction> {
    if byte == 0x76 {
        Some(Instruction::Misc(MiscInstruction::HALT))
    } else if byte >> 6u8 == 1 {
        Some(Instruction::Load(LoadInstruction::Ld8(register_of_code((byte >> 3u8) & 7u8), register_of_code(byte & 7u8))))
    } else if byte >> 6u8 == 2 {
        Some(Instruction::Arithmetic(decode_alu_block(byte)))
    } else {
        decode_irregular(byte)
    }
}

/// Decoding of one opcode byte, after the 0xCB prefix when `prefixed`.
pub open spec fn decode(byte: u8, prefixed: bool) -> Option<Instruction> {
    if prefixed {
        Some(decode_prefixed(byte))
    } else {
        decode_unprefixed(byte)
    }
}

fn register_from_code(code: u8) -> (r: Register)
    ensures
        r == register_of_code(code),
        r.is_operand8(),
{
    if code == 0 {
        Register::B
    } else if code == 1 {
        Register::C
    } else if code == 2 {
        Register::D
    } else if code == 3 {
        Register::E
    } else if code == 4 {
        Register::H
    } else if code == 5 {
        Register::L
    } else if code == 6 {
        Register::HL
    } else {
        Register::A
    }
}

impl Instruction {
    /// Decodes an opcode byte (the byte after 0xCB when `prefix`); `None` for a byte
    /// that encodes no instruction.
    pub fn from_byte(byte: u8, prefix: bool) -> (r: Option<Instruction>)
        ensures
            r == decode(byte, prefix),
            r matches Some(i) ==> i.is_valid(),
            prefix ==> r.is_some(),
    {
        if prefix {
            Some(Instruction::from_byte_with_prefix(byte))
        } else {
            Instruction::from_byte_without_prefix(byte)
        }
    }

    fn from_byte_with_prefix(byte: u8) -> (r: Instruction)
        ensures
            r == decode_prefixed(byte),
            r.is_valid(),
    {
        let r = register_from_code(byte & 7u8);
        let row = (byte >> 3u8) & 7u8;
        let block = byte >> 6u8;
        assert(row < 8) by (bit_vector)
            requires
                row == (byte >> 3u8) & 7u8,
        ;
        if block == 0 {
            if row == 0 {
                Instruction::Rotate(RotateInstruction::RLC(r))
            } else if row == 1 {
                Instruction::Rotate(RotateInstruction::RRC(r))
            } else if row == 2 {
                Instruction::Rotate(RotateInstruction::RL(r))
            } else if row == 3 {
                Instruction::Rotate(RotateInstruction::RR(r))
            } else if row == 4 {
                Instruction::Rotate(RotateInstruction::SLA(r))
            } else if row == 5 {
                Instruction::Rotate(RotateInstruction::SRA(r))
            } else if row == 6 {
                Instruction::Misc(MiscInstruction::Swap(r))
            } else {
                Instruction::Rotate(RotateInstruction::SRL(r))
            }
        } else if block == 1 {
            Instruction::Bit(BitInstruction::Bit(row, r))
        } else if block == 2 {
            Instruction::Bit(BitInstruction::Res(row, r))
        } else {
            Instruction::Bit(BitInstruction::SetBit(row, r))
        }
    }

    fn alu_from_byte(byte: u8) -> (r: ArithmeticInstruction)
        ensures
            r == decode_alu_block(byte),
            r.is_valid(),
    {
        let r = register_from_code(byte & 7u8);
        let op = (byte >> 3u8) & 7u8;
        if op == 0 {
            ArithmeticInstruction::Add(r)
        } else if op == 1 {
            ArithmeticInstruction::Adc(r)
        } else if op == 2 {
            ArithmeticInstruction::Sub(r)
        } else if op == 3 {
            ArithmeticInstruction::Sbc(r)
        } else if op == 4 {
            ArithmeticInstruction::And(r)
        } else if op == 5 {
            ArithmeticInstruction::Xor(r)
        } else if op == 6 {
            ArithmeticInstruction::Or(r)
        } else {
            ArithmeticInstruction::Cp(r)
        }
    }

    fn from_byte_without_prefix(byte: u8) -> (r: Option<Instruction>)
        ensures
            r == decode_unprefixed(byte),
            r matches Some(i) ==> i.is_valid(),
    {
        if byte == 0x76 {
            Some(Instruction::Misc(MiscInstruction::HALT))
        } else if byte >> 6u8 == 1 {
            let to = register_from_code((byte >> 3u8) & 7u8);
            let from = register_from_code(byte & 7u8);
            assert(!(to == Register::HL && from == Register::HL)) by {
                assert(((byte >> 3u8) & 7u8) == 6u8 && (byte & 7u8) == 6u8 && byte >> 6u8 == 1u8 ==> byte == 0x76u8) by (bit_vector);
            }
            Some(Instruction::Load(LoadInstruction::Ld8(to, from)))
        } else if byte >> 6u8 == 2 {
            Some(Instruction::Arithmetic(Instruction::alu_from_byte(byte)))
        } else {
            Instruction::from_byte_irregular(byte)
        }
    }

    fn from_byte_irregular(byte: u8) -> (r: Option<Instruction>)
        ensures
            r == decode_irregular(byte),
            r matches Some(i) ==> i.is_valid(),
    {
        match byte {
            0x00u8 => Some(Instruction::Misc(MiscInstruction::Nop)),
            0x01u8 => Some(Instruction::Load(LoadInstruction::Ld16(Register::BC, Register::D16))),
            0x02u8 => Some(Instruction::Load(LoadInstruction::Ld8(Register::BC, Register::A))),
            0x03u8 => Some(Instruction::Arithmetic(ArithmeticInstruction::Inc16(Register::BC))),
            0x04u8 => Some(Instruction::Arithmetic(ArithmeticInstruction::Inc(Register::B))),
            0x05u8 => Some(Instruction::Arithmetic(ArithmeticInstruction::Dec(Register::B))),
            0x06u8 => Some(Instruction::Load(LoadInstruction::Ld8(Register::B, Register::D8))),
            0x07u8 => Some(Instruction::Rotate(RotateInstruction::RLCA)),
            0x08u8 => Some(Instruction::Load(LoadInstruction::Ld16(Register::D16, Register::SP))),
            0x09u8 => Some(Instruction::Arithmetic(ArithmeticInstruction::Add16(Register::BC))),
            0x0Au8 => Some(Instruction::Load(LoadInstruction::Ld8(Register::A, Register::BC))),
            0x0Bu8 => Some(Instruction::Arithmetic(ArithmeticInstruction::Dec16(Register::BC))),
            0x0Cu8 => Some(Instruction::Arithmetic(ArithmeticInstruction::Inc(Register::C))),
            0x0Du8 => Some(Instruction::Arithmetic(ArithmeticInstruction::Dec(Register::C))),
            0x0Eu8 => Some(Instruction::Load(LoadInstruction::Ld8(Register::C, Register::D8))),
            0x0Fu8 => Some(Instruction::Rotate(RotateInstruction::RRCA)),
            0x10u8 => Some(Instruction::Misc(MiscInstruction::STOP)),
            0x11u8 => Some(Instruction::Load(LoadInstruction::Ld16(Register::DE, Register::D16))),
            0x12u8 => Some(Instruction::Load(LoadInstruction::Ld8(Register::DE, Register::A))),
            0x13u8 => Some(Instruction::Arithmetic(ArithmeticInstruction::Inc16(Register::DE))),
            0x14u8 => Some(Instruction::Arithmetic(ArithmeticInstruction::Inc(Register::D))),
            0x15u8 => Some(Instruction::Arithmetic(ArithmeticInstruction::Dec(Register::D))),
            0x16u8 => Some(Instruction::Load(LoadInstruction::Ld8(Register::D, Register::D8))),
            0x17u8 => Some(Instruction::Rotate(RotateInstruction::RLA)),
            0x18u8 => Some(Instruction::Jump(JumpInstruction::Jr)),
            0x19u8 => Some(Instruction::Arithmetic(ArithmeticInstruction::Add16(Register::DE))),
            0x1Au8 => Some(Instruction::Load(LoadInstruction::Ld8(Register::A, Register::DE))),
            0x1Bu8 => Some(Instruction::Arithmetic(ArithmeticInstruction::Dec16(Register::DE))),
            0x1Cu8 => Some(Instruction::Arithmetic(ArithmeticInstruction::Inc(Register::E))),
            0x1Du8 => Some(Instruction::Arithmetic(ArithmeticInstruction::Dec(Register::E))),
            0x1Eu8 => Some(Instruction::Load(LoadInstruction::Ld8(Register::E, Register::D8))),
            0x1Fu8 => Some(Instruction::Rotate(RotateInstruction::RRA)),
            0x20u8 => Some(Instruction::Jump(JumpInstruction::JrCond(FlagCondition::NZ))),
            0x21u8 => Some(Instruction::Load(LoadInstruction::Ld16(Register::HL, Register::D16))),
            0x22u8 => Some(Instruction::Load(LoadInstruction::LdHi)),
            0x23u8 => Some(Instruction::Arithmetic(ArithmeticInstruction::Inc16(Register::HL))),
            0x24u8 => Some(Instruction::Arithmetic(ArithmeticInstruction::Inc(Register::H))),
            0x25u8 => Some(Instruction::Arithmetic(ArithmeticInstruction::Dec(Register::H))),
            0x26u8 => Some(Instruction::Load(LoadInstruction::Ld8(Register::H, Register::D8))),
            0x27u8 => Some(Instruction::Misc(MiscInstruction::DAA)),
            0x28u8 => Some(Instruction::Jump(JumpInstruction::JrCond(FlagCondition::Z))),
            0x29u8 => Some(Instruction::Arithmetic(ArithmeticInstruction::Add16(Register::HL))),
            0x2Au8 => Some(Instruction::Load(LoadInstruction::LdAHi)),
            0x2Bu8 => Some(Instruction::Arithmetic(ArithmeticInstruction::Dec16(Register::HL))),
            0x2Cu8 => Some(Instruction::Arithmetic(ArithmeticInstruction::Inc(Register::L))),
            0x2Du8 => Some(Instruction::Arithmetic(ArithmeticInstruction::Dec(Register::L))),
            0x2Eu8 => Some(Instruction::Load(LoadInstruction::Ld8(Register::L, Register::D8))),
            0x2Fu8 => Some(Instruction::Misc(MiscInstruction::CPL)),
            0x30u8 => Some(Instruction::Jump(JumpInstruction::JrCond(FlagCondition::NC))),
            0x31u8 => Some(Instruction::Load(LoadInstruction::Ld16(Register::SP, Register::D16))),
            0x32u8 => Some(Instruction::Load(LoadInstruction::LdHd)),
            0x33u8 => Some(Instruction::Arithmetic(ArithmeticInstruction::Inc16(Register::SP))),
            0x34u8 => Some(Instruction::Arithmetic(ArithmeticInstruction::Inc(Register::HL))),
            0x35u8 => Some(Instruction::Arithmetic(ArithmeticInstruction::Dec(Register::HL))),
            0x36u8 => Some(Instruction::Load(LoadInstruction::Ld8(Register::HL, Register::D8))),
            0x37u8 => Some(Instruction::Misc(MiscInstruction::SCF)),
            0x38u8 => Some(Instruction::Jump(JumpInstruction::JrCond(FlagCondition::C))),
            0x39u8 => Some(Instruction::Arithmetic(ArithmeticInstruction::Add16(Register::SP))),
            0x3Au8 => Some(Instruction::Load(LoadInstruction::LdAHd)),
            0x3Bu8 => Some(Instruction::Arithmetic(ArithmeticInstruction::Dec16(Register::SP))),
            0x3Cu8 => Some(Instruction::Arithmetic(ArithmeticInstruction::Inc(Register::A))),
            0x3Du8 => Some(Instruction::Arithmetic(ArithmeticInstruction::Dec(Register::A))),
            0x3Eu8 => Some(Instruction::Load(LoadInstruction::Ld8(Register::A, Register::D8))),
            0x3Fu8 => Some(Instruction::Misc(MiscInstruction::CCF)),
            0xC0u8 => Some(Instruction::Return(ReturnInstruction::RetCond(FlagCondition::NZ))),
            0xC1u8 => Some(Instruction::Load(LoadInstruction::Pop(Register::BC))),
            0xC2u8 => Some(Instruction::Jump(JumpInstruction::JpCond(FlagCondition::NZ))),
            0xC3u8 => Some(Instruction::Jump(JumpInstruction::Jp)),
            0xC4u8 => Some(Instruction::Call(CallInstruction::CallCond(FlagCondition::NZ))),
            0xC5u8 => Some(Instruction::Load(LoadInstruction::Push(Register::BC))),
            0xC6u8 => Some(Instruction::Arithmetic(ArithmeticInstruction::Add(Register::D8))),
            0xC7u8 => Some(Instruction::Return(ReturnInstruction::Rst(0x00))),
            0xC8u8 => Some(Instruction::Return(ReturnInstruction::RetCond(FlagCondition::Z))),
            0xC9u8 => Some(Instruction::Return(ReturnInstruction::Ret)),
            0xCAu8 => Some(Instruction::Jump(JumpInstruction::JpCond(FlagCondition::Z))),
            0xCCu8 => Some(Instruction::Call(CallInstruction::CallCond(FlagCondition::Z))),
            0xCDu8 => Some(Instruction::Call(CallInstruction::Call)),
            0xCEu8 => Some(Instruction::Arithmetic(ArithmeticInstruction::Adc(Register::D8))),
            0xCFu8 => Some(Instruction::Return(ReturnInstruction::Rst(0x08))),
            0xD0u8 => Some(Instruction::Return(ReturnInstruction::RetCond(FlagCondition::NC))),
            0xD1u8 => Some(Instruction::Load(LoadInstruction::Pop(Register::DE))),
            0xD2u8 => Some(Instruction::Jump(JumpInstruction::JpCond(FlagCondition::NC))),
            0xD4u8 => Some(Instruction::Call(CallInstruction::CallCond(FlagCondition::NC))),
            0xD5u8 => Some(Instruction::Load(LoadInstruction::Push(Register::DE))),
            0xD6u8 => Some(Instruction::Arithmetic(ArithmeticInstruction::Sub(Register::D8))),
            0xD7u8 => Some(Instruction::Return(ReturnInstruction::Rst(0x10))),
            0xD8u8 => Some(Instruction::Return(ReturnInstruction::RetCond(FlagCondition::C))),
            0xD9u8 => Some(Instruction::Return(ReturnInstruction::Reti)),
            0xDAu8 => Some(Instruction::Jump(JumpInstruction::JpCond(FlagCondition::C))),
            0xDCu8 => Some(Instruction::Call(CallInstruction::CallCond(FlagCondition::C))),
            0xDEu8 => Some(Instruction::Arithmetic(ArithmeticInstruction::Sbc(Register::D8))),
            0xDFu8 => Some(Instruction::Return(ReturnInstruction::Rst(0x18))),
            0xE0u8 => Some(Instruction::Load(LoadInstruction::LdNa)),
            0xE1u8 => Some(Instruction::Load(LoadInstruction::Pop(Register::HL))),
            0xE2u8 => Some(Instruction::Load(LoadInstruction::LdCa)),
            0xE5u8 => Some(Instruction::Load(LoadInstruction::Push(Register::HL))),
            0xE6u8 => Some(Instruction::Arithmetic(ArithmeticInstruction::And(Register::D8))),
            0xE7u8 => Some(Instruction::Return(ReturnInstruction::Rst(0x20))),
            0xE8u8 => Some(Instruction::Arithmetic(ArithmeticInstruction::Add16SP)),
            0xE9u8 => Some(Instruction::Jump(JumpInstruction::JpHL)),
            0xEAu8 => Some(Instruction::Load(LoadInstruction::Ld8(Register::D16, Register::A))),
            0xEEu8 => Some(Instruction::Arithmetic(ArithmeticInstruction::Xor(Register::D8))),
            0xEFu8 => Some(Instruction::Return(ReturnInstruction::Rst(0x28))),
            0xF0u8 => Some(Instruction::Load(LoadInstruction::LdAn)),
            0xF1u8 => Some(Instruction::Load(LoadInstruction::Pop(Register::AF))),
            0xF2u8 => Some(Instruction::Load(LoadInstruction::LdAc)),
            0xF3u8 => Some(Instruction::Misc(MiscInstruction::DI)),
            0xF5u8 => Some(Instruction::Load(LoadInstruction::Push(Register::AF))),
            0xF6u8 => Some(Instruction::Arithmetic(ArithmeticInstruction::Or(Register::D8))),
            0xF7u8 => Some(Instruction::Return(ReturnInstruction::Rst(0x30))),
            0xF8u8 => Some(Instruction::Load(LoadInstruction::Ld16(Register::SP, Register::D8))),
            0xF9u8 => Some(Instruction::Load(LoadInstruction::Ld16(Register::SP, Register::HL))),
            0xFAu8 => Some(Instruction::Load(LoadInstruction::Ld8(Register::A, Register::D16))),
            0xFBu8 => Some(Instruction::Misc(MiscInstruction::EI)),
            0xFEu8 => Some(Instruction::Arithmetic(ArithmeticInstruction::Cp(Register::D8))),
            0xFFu8 => Some(Instruction::Return(ReturnInstruction::Rst(0x38))),
            _ => None,
        }
    }
}

} // verus!
