//! Arithmetic and logic of the processor: pure functions from operands to a
//! result byte and the four flags that the operation leaves behind.
use vstd::prelude::*;

verus! {

/// The outcome of an 8-bit operation: the result and the zero, subtract,
/// half-carry and carry flags.
#[derive(Clone, Copy, Debug, PartialEq, Eq, Structural)]
pub struct AluOut {
    pub value: u8,
    pub z: bool,
    pub n: bool,
    pub h: bool,
    pub c: bool,
}

pub open spec fn bit_of(b: bool) -> int {
    if b { 1 } else { 0 }
}

/// Flags of a result whose half-carry and carry are fixed by the caller.
pub open spec fn out(value: int, n: bool, h: bool, c: bool) -> AluOut {
    AluOut { value: value as u8, z: value == 0, n, h, c }
}

pub open spec fn add_spec(a: u8, b: u8, carry: bool) -> AluOut {
    let s = a + b + bit_of(carry);
    out(s % 256, false, a % 16 + b % 16 + bit_of(carry) > 15, s > 255)
}

pub open spec fn sub_spec(a: u8, b: u8, carry: bool) -> AluOut {
    let d = a - b - bit_of(carry);
    out(if d < 0 { d + 256 } else { d }, true, a % 16 - b % 16 - bit_of(carry) < 0, d < 0)
}

pub open spec fn and_spec(a: u8, b: u8) -> AluOut {
    out((a & b) as int, false, true, false)
}

pub open spec fn or_spec(a: u8, b: u8) -> AluOut {
    out((a | b) as int, false, false, false)
}

pub open spec fn xor_spec(a: u8, b: u8) -> AluOut {
    out((a ^ b) as int, false, false, false)
}

pub open spec fn inc_spec(a: u8, carry: bool) -> AluOut {
    out((a + 1) % 256, false, a % 16 == 15, carry)
}

pub open spec fn dec_spec(a: u8, carry: bool) -> AluOut {
    out(if a == 0 { 255 } else { a - 1 }, true, a % 16 == 0, carry)
}

/// Add with optional carry in (`ADD`, `ADC`).
pub fn add8(a: u8, b: u8, carry: bool) -> (r: AluOut)
    ensures
        r == add_spec(a, b, carry),
{
    let cin: u16 = if carry { 1 } else { 0 };
    let s: u16 = a as u16 + b as u16 + cin;
    let v: u8 = (s % 256) as u8;
    AluOut { value: v, z: v == 0, n: false, h: (a % 16) as u16 + (b % 16) as u16 + cin > 15, c: s > 255 }
}

/// Subtract with optional borrow in (`SUB`, `SBC`, and `CP`, which keeps only the flags).
pub fn sub8(a: u8, b: u8, carry: bool) -> (r: AluOut)
    ensures
        r == sub_spec(a, b, carry),
{
    let cin: i16 = if carry { 1 } else { 0 };
    let d: i16 = a as i16 - b as i16 - cin;
    let v: u8 = if d < 0 { (d + 256) as u8 } else { d as u8 };
    AluOut { value: v, z: v == 0, n: true, h: (a % 16) as i16 - (b % 16) as i16 - cin < 0, c: d < 0 }
}

pub fn and8(a: u8, b: u8) -> (r: AluOut)
    ensures
        r == and_spec(a, b),
{
    let v = a & b;
    AluOut { value: v, z: v == 0, n: false, h: true, c: false }
}

pub fn or8(a: u8, b: u8) -> (r: AluOut)
    ensures
        r == or_spec(a, b),
{
    let v = a | b;
    AluOut { value: v, z: v == 0, n: false, h: false, c: false }
}

pub fn xor8(a: u8, b: u8) -> (r: AluOut)
    ensures
        r == xor_spec(a, b),
{
    let v = a ^ b;
    AluOut { value: v, z: v == 0, n: false, h: false, c: false }
}

/// Increment; the carry flag passes through unchanged.
pub fn inc8(a: u8, carry: bool) -> (r: AluOut)
    ensures
        r == inc_spec(a, carry),
{
    let v: u8 = if a == 255 { 0 } else { a + 1 };
    AluOut { value: v, z: v == 0, n: false, h: a % 16 == 15, c: carry }
}

/// Decrement; the carry flag passes through unchanged.
pub fn dec8(a: u8, carry: bool) -> (r: AluOut)
    ensures
        r == dec_spec(a, carry),
{
    let v: u8 = if a == 0 { 255 } else { a - 1 };
    AluOut { value: v, z: v == 0, n: true, h: a % 16 == 0, c: carry }
}

/// The rotate and shift operations of the extended opcode table.
#[derive(Clone, Copy, Debug, PartialEq, Eq, Structural)]
pub enum ShiftOp {
    Rlc,
    Rrc,
    Rl,
    Rr,
    Sla,
    Sra,
    Swap,
    Srl,
}

pub open spec fn shift_spec(op: ShiftOp, a: u8, carry: bool) -> AluOut {
    match op {
        ShiftOp::Rlc => out((a % 128) * 2 + a / 128, false, false, a >= 128),
        ShiftOp::Rrc => out(a / 2 + (a % 2) * 128, false, false, a % 2 == 1),
        ShiftOp::Rl => out((a % 128) * 2 + bit_of(carry), false, false, a >= 128),
        ShiftOp::Rr => out(a / 2 + bit_of(carry) * 128, false, false, a % 2 == 1),
        ShiftOp::Sla => out((a % 128) * 2, false, false, a >= 128),
        ShiftOp::Sra => out(a / 2 + (a / 128) * 128, false, false, a % 2 == 1),
        ShiftOp::Swap => out((a % 16) * 16 + a / 16, false, false, false),
        ShiftOp::Srl => out(a as int / 2, false, false, a % 2 == 1),
    }
}

/// Rotate or shift `a`; `carry` is the carry flag before the operation.
pub fn shift8(op: ShiftOp, a: u8, carry: bool) -> (r: AluOut)
    ensures
        r == shift_spec(op, a, carry),
{
    let cin: u8 = if carry { 1 } else { 0 };
    let (v, c): (u8, bool) = match op {
        ShiftOp::Rlc => ((a % 128) * 2 + a / 128, a >= 128),
        ShiftOp::Rrc => (a / 2 + (a % 2) * 128, a % 2 == 1),
        ShiftOp::Rl => ((a % 128) * 2 + cin, a >= 128),
        ShiftOp::Rr => (a / 2 + cin * 128, a % 2 == 1),
        ShiftOp::Sla => ((a % 128) * 2, a >= 128),
        ShiftOp::Sra => (a / 2 + (a / 128) * 128, a % 2 == 1),
        ShiftOp::Swap => ((a % 16) * 16 + a / 16, false),
        ShiftOp::Srl => (a / 2, a % 2 == 1),
    };
    AluOut { value: v, z: v == 0, n: false, h: false, c }
}

/// Whether bit `n` of `a` is set.
pub open spec fn bit_set_spec(a: u8, n: u8) -> bool {
    (a >> n) & 1 == 1
}

/// Bit test (`BIT n`): zero is set when the bit is clear; carry passes through.
pub fn test_bit(a: u8, n: u8, carry: bool) -> (r: AluOut)
    requires
        n < 8,
    ensures
        r == (AluOut { value: a, z: !bit_set_spec(a, n), n: false, h: true, c: carry }),
{
    AluOut { value: a, z: (a >> n) & 1 != 1, n: false, h: true, c: carry }
}

/// `SET n`: `a` with bit `n` set.
pub fn set_bit(a: u8, n: u8) -> (r: u8)
    requires
        n < 8,
    ensures
        r == a | (1u8 << n),
{
    a | (1u8 << n)
}

/// `RES n`: `a` with bit `n` cleared.
pub fn reset_bit(a: u8, n: u8) -> (r: u8)
    requires
        n < 8,
    ensures
        r == a & !(1u8 << n),
{
    a & !(1u8 << n)
}

/// Result and flags of a 16-bit addition (`ADD HL, rr`).
pub open spec fn add16_spec(a: u16, b: u16) -> (u16, bool, bool) {
    (((a + b) % 65536) as u16, a % 256 + b % 256 > 255, a + b > 65535)
}

/// 16-bit addition: the sum, the half-carry out of the low byte and the carry
/// out of bit 15.
pub fn add16(a: u16, b: u16) -> (r: (u16, bool, bool))
    ensures
        r == add16_spec(a, b),
{
    let s: u32 = a as u32 + b as u32;
    ((s % 65536) as u16, (a % 256) + (b % 256) > 255, s > 65535)
}

/// The decimal adjustment of A after a BCD addition or subtraction (`DAA`).
pub open spec fn daa_spec(a: u8, n: bool, h: bool, c: bool) -> AluOut {
    let low = h || (!n && a % 16 > 9);
    let high = c || (!n && a > 0x99);
    let adj = (if low { 6int } else { 0 }) + (if high { 0x60int } else { 0 });
    let v = if n { (a - adj + 256) % 256 } else { (a + adj) % 256 };
    out(v, n, false, high)
}

pub fn daa(a: u8, n: bool, h: bool, c: bool) -> (r: AluOut)
    ensures
        r == daa_spec(a, n, h, c),
{
    let low = h || (!n && a % 16 > 9);
    let high = c || (!n && a > 0x99);
    let adj: u16 = (if low { 6 } else { 0 }) + (if high { 0x60 } else { 0 });
    let v: u8 = if n { ((a as u16 + 256 - adj) % 256) as u8 } else { ((a as u16 + adj) % 256) as u8 };
    AluOut { value: v, z: v == 0, n, h: false, c: high }
}

/// Flags of adding a signed byte to SP (`ADD SP, e`, `LD HL, SP+e`): carries
/// out of the low nibble and the low byte of the unsigned sum.
pub open spec fn sp_offset_flags(sp: u16, e: u8) -> AluOut {
    AluOut { value: 0, z: false, n: false, h: sp % 16 + e % 16 > 15, c: sp % 256 + e > 255 }
}

pub fn sp_offset(sp: u16, e: u8) -> (r: AluOut)
    ensures
        r == sp_offset_flags(sp, e),
{
    AluOut { value: 0, z: false, n: false, h: sp % 16 + (e % 16) as u16 > 15, c: sp % 256 + e as u16 > 255 }
}

} // verus!
