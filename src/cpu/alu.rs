use vstd::prelude::*;

use super::registers::FlagRegister;

verus! {

/// The value of the carry flag as a number.
pub open spec fn carry_in(carry: bool) -> int {
    if carry {
        1
    } else {
        0
    }
}

/// A byte read as a two's-complement displacement.
pub open spec fn signed(e: u8) -> int {
    if e < 128 {
        e as int
    } else {
        e as int - 256
    }
}

/// `a + b + carry` on bytes: wrapped sum, Z on zero, H on a carry out of bit 3,
/// C on a carry out of bit 7.
pub open spec fn add_spec(a: u8, b: u8, carry: bool) -> (u8, FlagRegister) {
    let sum = a as int + b as int + carry_in(carry);
    let result = (sum % 256) as u8;
    (
        result,
        FlagRegister {
            zero: result == 0,
            subtract: false,
            half_carry: (a & 0x0Fu8) as int + (b & 0x0Fu8) as int + carry_in(carry) > 0x0F,
            carry: sum > 0xFF,
        },
    )
}

/// `a - b - carry` on bytes: wrapped difference, N set, H on a borrow from bit 4,
/// C on a borrow.
pub open spec fn sub_spec(a: u8, b: u8, carry: bool) -> (u8, FlagRegister) {
    let result = ((a as int - b as int - carry_in(carry)) % 256) as u8;
    (
        result,
        FlagRegister {
            zero: result == 0,
            subtract: true,
            half_carry: ((a & 0x0Fu8) as int) < (b & 0x0Fu8) as int + carry_in(carry),
            carry: (a as int) < b as int + carry_in(carry),
        },
    )
}

/// Flags of a logical operation: Z on zero, H as given, N and C clear.
pub open spec fn logic_flags(result: u8, half_carry: bool) -> FlagRegister {
    FlagRegister { zero: result == 0, subtract: false, half_carry, carry: false }
}

/// Adds with carry in: the 8-bit ADD and ADC.
pub fn add(a: u8, b: u8, carry: bool) -> (r: (u8, FlagRegister))
    ensures
        r == add_spec(a, b, carry),
        r.0 as int == (a as int + b as int + carry_in(carry)) % 256,
        r.1.carry == (a as int + b as int + carry_in(carry) > 255),
        r.1.half_carry == ((a & 0x0Fu8) as int + (b & 0x0Fu8) as int + carry_in(carry) > 0x0F),
        r.1.zero == (r.0 == 0),
        !r.1.subtract,
{
    let c: u16 = if carry { 1 } else { 0 };
    let sum: u16 = a as u16 + b as u16 + c;
    let result: u8 = (sum % 256) as u8;
    let half: u16 = (a & 0x0F) as u16 + (b & 0x0F) as u16 + c;
    (result, FlagRegister { zero: result == 0, subtract: false, half_carry: half > 0x0F, carry: sum > 0xFF })
}

/// Subtracts with borrow in: the 8-bit SUB, SBC and (for its flags) CP.
pub fn sub(a: u8, b: u8, carry: bool) -> (r: (u8, FlagRegister))
    ensures
        r == sub_spec(a, b, carry),
        r.0 as int == (a as int - b as int - carry_in(carry)) % 256,
        r.1.carry == ((a as int) < b as int + carry_in(carry)),
        r.1.half_carry == (((a & 0x0Fu8) as int) < (b & 0x0Fu8) as int + carry_in(carry)),
        r.1.zero == (r.0 == 0),
        r.1.subtract,
{
    let c: u16 = if carry { 1 } else { 0 };
    let diff: u16 = (a as u16 + 256) - b as u16 - c;
    let result: u8 = (diff % 256) as u8;
    assert(result as int == (a as int - b as int - carry_in(carry)) % 256);
    let half_borrow = ((a & 0x0F) as u16) < ((b & 0x0F) as u16) + c;
    let borrow = (a as u16) < (b as u16) + c;
    (result, FlagRegister { zero: result == 0, subtract: true, half_carry: half_borrow, carry: borrow })
}

/// `a & b`; Z on zero, H set, N and C clear.
pub fn and(a: u8, b: u8) -> (r: (u8, FlagRegister))
    ensures
        r == (a & b, logic_flags(a & b, true)),
{
    let result = a & b;
    (result, FlagRegister { zero: result == 0, subtract: false, half_carry: true, carry: false })
}

/// `a | b`; Z on zero, N, H and C clear.
pub fn or(a: u8, b: u8) -> (r: (u8, FlagRegister))
    ensures
        r == (a | b, logic_flags(a | b, false)),
{
    let result = a | b;
    (result, FlagRegister { zero: result == 0, subtract: false, half_carry: false, carry: false })
}

/// `a ^ b`; Z on zero, N, H and C clear.
pub fn xor(a: u8, b: u8) -> (r: (u8, FlagRegister))
    ensures
        r == (a ^ b, logic_flags(a ^ b, false)),
{
    let result = a ^ b;
    (result, FlagRegister { zero: result == 0, subtract: false, half_carry: false, carry: false })
}

/// 8-bit increment: the wrapped result, and the flags it sets (C is kept by the caller).
pub open spec fn inc_spec(v: u8, carry: bool) -> (u8, FlagRegister) {
    let result = ((v as int + 1) % 256) as u8;
    (result, FlagRegister { zero: result == 0, subtract: false, half_carry: v & 0x0Fu8 == 0x0Fu8, carry })
}

/// 8-bit decrement, keeping the carry flag.
pub open spec fn dec_spec(v: u8, carry: bool) -> (u8, FlagRegister) {
    let result = ((v as int - 1) % 256) as u8;
    (result, FlagRegister { zero: result == 0, subtract: true, half_carry: v & 0x0Fu8 == 0u8, carry })
}

pub fn inc(v: u8, carry: bool) -> (r: (u8, FlagRegister))
    ensures
        r == inc_spec(v, carry),
{
    let result = v.wrapping_add(1);
    (result, FlagRegister { zero: result == 0, subtract: false, half_carry: v & 0x0F == 0x0F, carry })
}

pub fn dec(v: u8, carry: bool) -> (r: (u8, FlagRegister))
    ensures
        r == dec_spec(v, carry),
{
    let result = v.wrapping_sub(1);
    (result, FlagRegister { zero: result == 0, subtract: true, half_carry: v & 0x0F == 0, carry })
}

/// `HL + v` on words: Z kept, N clear, H on a carry out of bit 11, C out of bit 15.
pub open spec fn add16_spec(hl: u16, v: u16, zero: bool) -> (u16, FlagRegister) {
    let sum = hl as int + v as int;
    (
        (sum % 65536) as u16,
        FlagRegister {
            zero,
            subtract: false,
            half_carry: (hl & 0x0FFFu16) as int + (v & 0x0FFFu16) as int > 0x0FFF,
            carry: sum > 0xFFFF,
        },
    )
}

pub fn add16(hl: u16, v: u16, zero: bool) -> (r: (u16, FlagRegister))
    ensures
        r == add16_spec(hl, v, zero),
{
    let sum: u32 = hl as u32 + v as u32;
    let half: u32 = (hl & 0x0FFF) as u32 + (v & 0x0FFF) as u32;
    ((sum % 65536) as u16, FlagRegister { zero, subtract: false, half_carry: half > 0x0FFF, carry: sum > 0xFFFF })
}

/// `SP + e` with `e` signed, as ADD SP,e8 and LD HL,SP+e8 compute it: Z and N clear,
/// H and C from the unsigned addition of the low byte of SP and `e` (bits 3 and 7).
pub open spec fn add_signed_spec(sp: u16, e: u8) -> (u16, FlagRegister) {
    (
        ((sp as int + signed(e)) % 65536) as u16,
        FlagRegister {
            zero: false,
            subtract: false,
            half_carry: (sp & 0x000Fu16) as int + (e & 0x0Fu8) as int > 0x0F,
            carry: (sp & 0x00FFu16) as int + e as int > 0xFF,
        },
    )
}

/// Adds a signed displacement to a word, wrapping.
pub fn offset(base: u16, e: u8) -> (r: u16)
    ensures
        r as int == (base as int + signed(e)) % 65536,
{
    if e < 128 {
        base.wrapping_add(e as u16)
    } else {
        base.wrapping_sub(256 - e as u16)
    }
}

pub fn add_signed(sp: u16, e: u8) -> (r: (u16, FlagRegister))
    ensures
        r == add_signed_spec(sp, e),
{
    let result = offset(sp, e);
    let half: u32 = (sp & 0x000F) as u32 + (e & 0x0F) as u32;
    let low: u32 = (sp & 0x00FF) as u32 + e as u32;
    (result, FlagRegister { zero: false, subtract: false, half_carry: half > 0x0F, carry: low > 0xFF })
}

/// Flags of a rotate, shift or swap: Z on a zero result, N and H clear, C as given.
pub open spec fn shift_flags(result: u8, carry: bool) -> FlagRegister {
    FlagRegister { zero: result == 0, subtract: false, half_carry: false, carry }
}

/// Bit 7 of `v`.
pub open spec fn top_bit(v: u8) -> bool {
    v & 0x80u8 != 0u8
}

/// Bit 0 of `v`.
pub open spec fn bottom_bit(v: u8) -> bool {
    v & 1u8 != 0u8
}

/// RLC: rotate left, bit 7 to bit 0 and to C.
pub fn rlc(v: u8) -> (r: (u8, FlagRegister))
    ensures
        r == ((v << 1u8) | (v >> 7u8), shift_flags((v << 1u8) | (v >> 7u8), top_bit(v))),
{
    let result = (v << 1u8) | (v >> 7u8);
    (result, FlagRegister { zero: result == 0, subtract: false, half_carry: false, carry: v & 0x80 != 0 })
}

/// RL: rotate left through the carry flag.
pub fn rl(v: u8, carry: bool) -> (r: (u8, FlagRegister))
    ensures
        r == ((v << 1u8) | (if carry { 1u8 } else { 0u8 }), shift_flags(
            (v << 1u8) | (if carry { 1u8 } else { 0u8 }),
            top_bit(v),
        )),
{
    let result = (v << 1u8) | (if carry { 1u8 } else { 0u8 });
    (result, FlagRegister { zero: result == 0, subtract: false, half_carry: false, carry: v & 0x80 != 0 })
}

/// RRC: rotate right, bit 0 to bit 7 and to C.
pub fn rrc(v: u8) -> (r: (u8, FlagRegister))
    ensures
        r == ((v >> 1u8) | (v << 7u8), shift_flags((v >> 1u8) | (v << 7u8), bottom_bit(v))),
{
    let result = (v >> 1u8) | (v << 7u8);
    (result, FlagRegister { zero: result == 0, subtract: false, half_carry: false, carry: v & 1 != 0 })
}

/// RR: rotate right through the carry flag.
pub fn rr(v: u8, carry: bool) -> (r: (u8, FlagRegister))
    ensures
        r == ((v >> 1u8) | (if carry { 0x80u8 } else { 0u8 }), shift_flags(
            (v >> 1u8) | (if carry { 0x80u8 } else { 0u8 }),
            bottom_bit(v),
        )),
{
    let result = (v >> 1u8) | (if carry { 0x80u8 } else { 0u8 });
    (result, FlagRegister { zero: result == 0, subtract: false, half_carry: false, carry: v & 1 != 0 })
}

/// SLA: shift left, bit 7 to C.
pub fn sla(v: u8) -> (r: (u8, FlagRegister))
    ensures
        r == (v << 1u8, shift_flags(v << 1u8, top_bit(v))),
{
    let result = v << 1u8;
    (result, FlagRegister { zero: result == 0, subtract: false, half_carry: false, carry: v & 0x80 != 0 })
}

/// SRA: arithmetic shift right, bit 7 kept, bit 0 to C.
pub fn sra(v: u8) -> (r: (u8, FlagRegister))
    ensures
        r == ((v >> 1u8) | (v & 0x80u8), shift_flags((v >> 1u8) | (v & 0x80u8), bottom_bit(v))),
{
    let result = (v >> 1u8) | (v & 0x80u8);
    (result, FlagRegister { zero: result == 0, subtract: false, half_carry: false, carry: v & 1 != 0 })
}

/// SRL: logical shift right, bit 0 to C.
pub fn srl(v: u8) -> (r: (u8, FlagRegister))
    ensures
        r == (v >> 1u8, shift_flags(v >> 1u8, bottom_bit(v))),
{
    let result = v >> 1u8;
    (result, FlagRegister { zero: result == 0, subtract: false, half_carry: false, carry: v & 1 != 0 })
}

/// SWAP: exchange the nibbles; Z exactly when `v` is zero, N, H and C clear.
pub fn swap(v: u8) -> (r: (u8, FlagRegister))
    ensures
        r == ((v << 4u8) | (v >> 4u8), shift_flags((v << 4u8) | (v >> 4u8), false)),
        r.0 == ((v & 0x0Fu8) << 4u8) | ((v & 0xF0u8) >> 4u8),
        r.1.zero == (v == 0),
        !r.1.subtract && !r.1.half_carry && !r.1.carry,
{
    let result = (v << 4u8) | (v >> 4u8);
    assert(result == ((v & 0x0Fu8) << 4u8) | ((v & 0xF0u8) >> 4u8) && (result == 0u8 <==> v == 0u8)) by (bit_vector)
        requires
            result == (v << 4u8) | (v >> 4u8),
    ;
    (result, FlagRegister { zero: result == 0, subtract: false, half_carry: false, carry: false })
}

/// Whether bit `n` of `v` is clear.
pub open spec fn bit_clear(v: u8, n: u8) -> bool {
    (v >> n) & 1u8 == 0u8
}

/// BIT n: Z when bit `n` of `v` is clear, N clear, H set, C kept.
pub fn bit_test(v: u8, n: u8, carry: bool) -> (r: FlagRegister)
    requires
        n < 8,
    ensures
        r == (FlagRegister { zero: bit_clear(v, n), subtract: false, half_carry: true, carry }),
{
    FlagRegister { zero: (v >> n) & 1 == 0, subtract: false, half_carry: true, carry }
}

/// `v` with bit `n` cleared.
pub fn reset_bit(v: u8, n: u8) -> (r: u8)
    requires
        n < 8,
    ensures
        r == v & !(1u8 << n),
{
    v & !(1u8 << n)
}

/// `v` with bit `n` set.
pub fn set_bit(v: u8, n: u8) -> (r: u8)
    requires
        n < 8,
    ensures
        r == v | (1u8 << n),
{
    v | (1u8 << n)
}

/// Decimal adjustment of A after a BCD addition or subtraction. After an addition,
/// 0x60 is added when C is set or A exceeds 0x99 (and C is then set), and 6 when H is
/// set or the low nibble exceeds 9; after a subtraction, 0x60 is taken away when C is
/// set and 6 when H is set. Z on a zero result, N kept, H cleared.
pub open spec fn daa_spec(a: u8, f: FlagRegister) -> (u8, FlagRegister) {
    if !f.subtract {
        let carry = f.carry || a > 0x99;
        let a1 = if carry { ((a as int + 0x60) % 256) as u8 } else { a };
        let a2 = if f.half_carry || (a1 & 0x0Fu8) > 9 { ((a1 as int + 6) % 256) as u8 } else { a1 };
        (a2, FlagRegister { zero: a2 == 0, subtract: false, half_carry: false, carry })
    } else {
        let a1 = if f.carry { ((a as int - 0x60) % 256) as u8 } else { a };
        let a2 = if f.half_carry { ((a1 as int - 6) % 256) as u8 } else { a1 };
        (a2, FlagRegister { zero: a2 == 0, subtract: true, half_carry: false, carry: f.carry })
    }
}

pub fn daa(a: u8, f: FlagRegister) -> (r: (u8, FlagRegister))
    ensures
        r == daa_spec(a, f),
{
    if !f.subtract {
        let carry = f.carry || a > 0x99;
        let a1 = if carry { a.wrapping_add(0x60) } else { a };
        let a2 = if f.half_carry || (a1 & 0x0F) > 9 { a1.wrapping_add(6) } else { a1 };
        (a2, FlagRegister { zero: a2 == 0, subtract: false, half_carry: false, carry })
    } else {
        let a1 = if f.carry { a.wrapping_sub(0x60) } else { a };
        let a2 = if f.half_carry { a1.wrapping_sub(6) } else { a1 };
        (a2, FlagRegister { zero: a2 == 0, subtract: true, half_carry: false, carry: f.carry })
    }
}

} // verus!
