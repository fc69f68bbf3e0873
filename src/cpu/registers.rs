use vstd::prelude::*;

verus! {

/// The 16-bit value whose high byte is `hi` and whose low byte is `lo`.
pub open spec fn word(hi: u8, lo: u8) -> u16 {
    ((hi as u16) << 8u16) | (lo as u16)
}

/// High byte of a 16-bit value.
pub open spec fn high_byte(v: u16) -> u8 {
    (v >> 8u16) as u8
}

/// Low byte of a 16-bit value.
pub open spec fn low_byte(v: u16) -> u8 {
    v as u8
}

/// Splitting a word into its two bytes and joining them again gives the word back.
pub proof fn lemma_word_split(v: u16)
    ensures
        word(high_byte(v), low_byte(v)) == v,
{
    assert((((v >> 8u16) as u8 as u16) << 8u16) | (v as u8 as u16) == v) by (bit_vector);
}

/// The bytes of a joined word are the bytes it was made of.
pub proof fn lemma_word_parts(hi: u8, lo: u8)
    ensures
        high_byte(word(hi, lo)) == hi,
        low_byte(word(hi, lo)) == lo,
        word(hi, lo) as int == hi as int * 256 + lo as int,
{
    assert(((((hi as u16) << 8u16) | (lo as u16)) >> 8u16) as u8 == hi) by (bit_vector);
    assert((((hi as u16) << 8u16) | (lo as u16)) as u8 == lo) by (bit_vector);
    assert((((hi as u16) << 8u16) | (lo as u16)) == hi as u16 * 256 + lo as u16) by (bit_vector);
}

/// The four condition flags: zero (Z), subtract (N), half-carry (H) and carry (C).
#[derive(Clone, Copy, Debug, PartialEq, Eq, Structural)]
pub struct FlagRegister {
    pub zero: bool,
    pub subtract: bool,
    pub half_carry: bool,
    pub carry: bool,
}

/// The flag byte: Z in bit 7, N in bit 6, H in bit 5, C in bit 4, low nibble zero.
pub open spec fn pack_flags(f: FlagRegister) -> u8 {
    (if f.zero { 0x80u8 } else { 0u8 }) | (if f.subtract { 0x40u8 } else { 0u8 }) | (if f.half_carry {
        0x20u8
    } else {
        0u8
    }) | (if f.carry { 0x10u8 } else { 0u8 })
}

/// The flags held in bits 7 to 4 of a byte; the low nibble is discarded.
pub open spec fn unpack_flags(v: u8) -> FlagRegister {
    FlagRegister {
        zero: (v >> 7u8) & 1u8 != 0u8,
        subtract: (v >> 6u8) & 1u8 != 0u8,
        half_carry: (v >> 5u8) & 1u8 != 0u8,
        carry: (v >> 4u8) & 1u8 != 0u8,
    }
}

/// Packing the flags and unpacking the byte gives the four flags back, and the packed
/// byte has a zero low nibble.
pub proof fn lemma_flags_round_trip(f: FlagRegister)
    ensures
        unpack_flags(pack_flags(f)) == f,
        pack_flags(f) & 0x0Fu8 == 0u8,
{
    let z = f.zero;
    let n = f.subtract;
    let h = f.half_carry;
    let c = f.carry;
    let p = pack_flags(f);
    assert(p == (if z { 0x80u8 } else { 0u8 }) | (if n { 0x40u8 } else { 0u8 }) | (if h { 0x20u8 } else { 0u8 }) | (if c { 0x10u8 } else { 0u8 }));
    assert(((p >> 7u8) & 1u8 != 0u8) == z && ((p >> 6u8) & 1u8 != 0u8) == n && ((p >> 5u8) & 1u8 != 0u8) == h && ((p >> 4u8) & 1u8 != 0u8) == c && p & 0x0Fu8 == 0u8) by (bit_vector)
        requires
            p == (if z { 0x80u8 } else { 0u8 }) | (if n { 0x40u8 } else { 0u8 }) | (if h { 0x20u8 } else { 0u8 }) | (if c { 0x10u8 } else { 0u8 }),
    ;
}

impl FlagRegister {
    /// All four flags cleared.
    pub fn new() -> (r: FlagRegister)
        ensures
            r == (FlagRegister { zero: false, subtract: false, half_carry: false, carry: false }),
    {
        FlagRegister { zero: false, subtract: false, half_carry: false, carry: false }
    }

    /// The packed flag byte.
    pub fn get(&self) -> (r: u8)
        ensures
            r == pack_flags(*self),
    {
        (if self.zero { 0x80u8 } else { 0u8 }) | (if self.subtract { 0x40u8 } else { 0u8 }) | (
        if self.half_carry {
            0x20u8
        } else {
            0u8
        }) | (if self.carry { 0x10u8 } else { 0u8 })
    }

    /// Loads the four flags from bits 7 to 4 of `value`.
    pub fn set(&mut self, value: u8)
        ensures
            *final(self) == unpack_flags(value),
    {
        self.zero = (value >> 7u8) & 1u8 != 0;
        self.subtract = (value >> 6u8) & 1u8 != 0;
        self.half_carry = (value >> 5u8) & 1u8 != 0;
        self.carry = (value >> 4u8) & 1u8 != 0;
    }
}

/// The 16-bit stack pointer.
#[derive(Clone, Copy, Debug, PartialEq, Eq, Structural)]
pub struct StackPointer {
    pub value: u16,
}

impl StackPointer {
    /// A stack pointer at zero.
    pub fn new() -> (r: StackPointer)
        ensures
            r.value == 0,
    {
        StackPointer { value: 0 }
    }

    pub fn get(&self) -> (r: u16)
        ensures
            r == self.value,
    {
        self.value
    }

    pub fn set(&mut self, value: u16)
        ensures
            final(self).value == value,
    {
        self.value = value;
    }
}

/// Register selectors used by instructions: the 8-bit registers, the register pairs,
/// the stack pointer, and the immediate operands `D8` and `D16`. As an 8-bit operand,
/// `HL` (and likewise `BC` and `DE` in loads) means the memory byte the pair addresses.
#[derive(Clone, Copy, Debug, PartialEq, Eq, Structural)]
pub enum Register {
    A,
    B,
    C,
    D,
    E,
    F,
    H,
    L,
    AF,
    BC,
    DE,
    HL,
    SP,
    D8,
    D16,
}

impl Register {
    /// One of the seven general-purpose 8-bit registers.
    pub open spec fn is_reg8(self) -> bool {
        matches!(self, Register::A | Register::B | Register::C | Register::D | Register::E | Register::H | Register::L)
    }

    /// A register that the 8-bit accessors read and write: the general-purpose ones and F.
    pub open spec fn is_byte_register(self) -> bool {
        self.is_reg8() || self == Register::F
    }

    /// A 16-bit register: a pair or the stack pointer.
    pub open spec fn is_wide(self) -> bool {
        matches!(self, Register::AF | Register::BC | Register::DE | Register::HL | Register::SP)
    }

    /// A pair that can be pushed or popped.
    pub open spec fn is_stack_pair(self) -> bool {
        matches!(self, Register::AF | Register::BC | Register::DE | Register::HL)
    }

    /// A 16-bit register that 16-bit arithmetic works on.
    pub open spec fn is_arith16(self) -> bool {
        matches!(self, Register::BC | Register::DE | Register::HL | Register::SP)
    }

    /// An 8-bit register or the byte addressed by HL.
    pub open spec fn is_operand8(self) -> bool {
        self.is_reg8() || self == Register::HL
    }
}

/// The register file: seven 8-bit registers, the flags and the stack pointer.
#[derive(Clone, Copy, Debug, PartialEq, Eq, Structural)]
pub struct Registers {
    pub a: u8,
    pub b: u8,
    pub c: u8,
    pub d: u8,
    pub e: u8,
    pub f: FlagRegister,
    pub h: u8,
    pub l: u8,
    pub sp: StackPointer,
}

impl Registers {
    /// Value of an 8-bit register; F reads as the packed flag byte.
    pub open spec fn get_spec(self, r: Register) -> u8
        recommends
            r.is_byte_register(),
    {
        match r {
            Register::A => self.a,
            Register::B => self.b,
            Register::C => self.c,
            Register::D => self.d,
            Register::E => self.e,
            Register::F => pack_flags(self.f),
            Register::H => self.h,
            _ => self.l,
        }
    }

    /// The register file with one 8-bit register replaced; writing F unpacks the flags.
    pub open spec fn set_spec(self, r: Register, v: u8) -> Registers
        recommends
            r.is_byte_register(),
    {
        match r {
            Register::A => Registers { a: v, ..self },
            Register::B => Registers { b: v, ..self },
            Register::C => Registers { c: v, ..self },
            Register::D => Registers { d: v, ..self },
            Register::E => Registers { e: v, ..self },
            Register::F => Registers { f: unpack_flags(v), ..self },
            Register::H => Registers { h: v, ..self },
            _ => Registers { l: v, ..self },
        }
    }

    /// Value of a 16-bit register: a pair, high register in the high byte, or SP.
    pub open spec fn get16_spec(self, r: Register) -> u16
        recommends
            r.is_wide(),
    {
        match r {
            Register::AF => word(self.a, pack_flags(self.f)),
            Register::BC => word(self.b, self.c),
            Register::DE => word(self.d, self.e),
            Register::HL => word(self.h, self.l),
            _ => self.sp.value,
        }
    }

    /// The register file with a 16-bit register replaced: the high byte goes to the
    /// first register of the pair, the low byte to the second (to the flags for AF).
    pub open spec fn set16_spec(self, r: Register, v: u16) -> Registers
        recommends
            r.is_wide(),
    {
        match r {
            Register::AF => Registers { a: high_byte(v), f: unpack_flags(low_byte(v)), ..self },
            Register::BC => Registers { b: high_byte(v), c: low_byte(v), ..self },
            Register::DE => Registers { d: high_byte(v), e: low_byte(v), ..self },
            Register::HL => Registers { h: high_byte(v), l: low_byte(v), ..self },
            _ => Registers { sp: StackPointer { value: v }, ..self },
        }
    }

    /// All registers zero, all flags cleared.
    pub fn new() -> (r: Registers)
        ensures
            r.a == 0 && r.b == 0 && r.c == 0 && r.d == 0 && r.e == 0 && r.h == 0 && r.l == 0,
            r.f == (FlagRegister { zero: false, subtract: false, half_carry: false, carry: false }),
            r.sp.value == 0,
    {
        Registers {
            a: 0,
            b: 0,
            c: 0,
            d: 0,
            e: 0,
            f: FlagRegister::new(),
            h: 0,
            l: 0,
            sp: StackPointer::new(),
        }
    }

    /// Reads an 8-bit register.
    pub fn get(&self, register: &Register) -> (r: u8)
        requires
            register.is_byte_register(),
        ensures
            r == self.get_spec(*register),
    {
        match register {
            Register::A => self.a,
            Register::B => self.b,
            Register::C => self.c,
            Register::D => self.d,
            Register::E => self.e,
            Register::F => self.f.get(),
            Register::H => self.h,
            _ => self.l,
        }
    }

    /// Reads a 16-bit register.
    pub fn get_16(&self, register: &Register) -> (r: u16)
        requires
            register.is_wide(),
        ensures
            r == self.get16_spec(*register),
    {
        match register {
            Register::AF => self.get_af(),
            Register::BC => self.get_bc(),
            Register::DE => self.get_de(),
            Register::HL => self.get_hl(),
            _ => self.sp.get(),
        }
    }

    /// Writes an 8-bit register. Pair selectors are not 8-bit registers.
    pub fn set(&mut self, register: &Register, value: u8)
        requires
            register.is_byte_register(),
        ensures
            *final(self) == old(self).set_spec(*register, value),
    {
        match register {
            Register::A => self.a = value,
            Register::B => self.b = value,
            Register::C => self.c = value,
            Register::D => self.d = value,
            Register::E => self.e = value,
            Register::F => self.f.set(value),
            Register::H => self.h = value,
            _ => self.l = value,
        }
    }

    /// Writes a 16-bit register.
    pub fn set_16(&mut self, register: &Register, value: u16)
        requires
            register.is_wide(),
        ensures
            *final(self) == old(self).set16_spec(*register, value),
    {
        match register {
            Register::AF => self.set_af(value),
            Register::BC => self.set_bc(value),
            Register::DE => self.set_de(value),
            Register::HL => self.set_hl(value),
            _ => self.sp.set(value),
        }
    }

    pub fn get_af(&self) -> (r: u16)
        ensures
            r == word(self.a, pack_flags(self.f)),
    {
        ((self.a as u16) << 8u16) | (self.f.get() as u16)
    }

    /// Writes AF; the low nibble of the flag byte is not kept.
    pub fn set_af(&mut self, value: u16)
        ensures
            *final(self) == (Registers { a: high_byte(value), f: unpack_flags(low_byte(value)), ..*old(self) }),
    {
        self.a = (value >> 8u16) as u8;
        self.f.set(value as u8);
    }

    pub fn get_bc(&self) -> (r: u16)
        ensures
            r == word(self.b, self.c),
    {
        ((self.b as u16) << 8u16) | (self.c as u16)
    }

    pub fn set_bc(&mut self, value: u16)
        ensures
            *final(self) == (Registers { b: high_byte(value), c: low_byte(value), ..*old(self) }),
    {
        self.b = (value >> 8u16) as u8;
        self.c = value as u8;
    }

    pub fn get_de(&self) -> (r: u16)
        ensures
            r == word(self.d, self.e),
    {
        ((self.d as u16) << 8u16) | (self.e as u16)
    }

    pub fn set_de(&mut self, value: u16)
        ensures
            *final(self) == (Registers { d: high_byte(value), e: low_byte(value), ..*old(self) }),
    {
        self.d = (value >> 8u16) as u8;
        self.e = value as u8;
    }

    pub fn get_hl(&self) -> (r: u16)
        ensures
            r == word(self.h, self.l),
    {
        ((self.h as u16) << 8u16) | (self.l as u16)
    }

    pub fn set_hl(&mut self, value: u16)
        ensures
            *final(self) == (Registers { h: high_byte(value), l: low_byte(value), ..*old(self) }),
    {
        self.h = (value >> 8u16) as u8;
        self.l = value as u8;
    }
}

/// Writing a pair and reading it back gives the written value; for AF, whose low
/// nibble is not stored, this holds of values whose low nibble is zero.
pub proof fn lemma_pair_round_trip(regs: Registers, r: Register, v: u16)
    requires
        r.is_wide(),
        r == Register::AF ==> v & 0x000Fu16 == 0u16,
    ensures
        regs.set16_spec(r, v).get16_spec(r) == v,
{
    lemma_word_split(v);
    if r == Register::AF {
        let lo = low_byte(v);
        assert(lo & 0x0Fu8 == 0u8) by (bit_vector)
            requires
                lo == v as u8,
                v & 0x000Fu16 == 0u16,
        ;
        lemma_flags_round_trip(unpack_flags(lo));
        lemma_unpack_pack(lo);
    }
}

/// A byte whose low nibble is zero is the packing of its unpacked flags.
pub proof fn lemma_unpack_pack(v: u8)
    requires
        v & 0x0Fu8 == 0u8,
    ensures
        pack_flags(unpack_flags(v)) == v,
{
    let f = unpack_flags(v);
    let z = f.zero;
    let n = f.subtract;
    let h = f.half_carry;
    let c = f.carry;
    assert((if z { 0x80u8 } else { 0u8 }) | (if n { 0x40u8 } else { 0u8 }) | (if h { 0x20u8 } else { 0u8 }) | (if c { 0x10u8 } else { 0u8 }) == v) by (bit_vector)
        requires
            v & 0x0Fu8 == 0u8,
            z == ((v >> 7u8) & 1u8 != 0u8),
            n == ((v >> 6u8) & 1u8 != 0u8),
            h == ((v >> 5u8) & 1u8 != 0u8),
            c == ((v >> 4u8) & 1u8 != 0u8),
    ;
}

} // verus!
