//! The SM83 flag algebra: the pure 8-bit arithmetic, BCD-adjust, rotate and
//! shift kernels the CPU's micro-ops are built from, each with an exact
//! arithmetic specification.

use vstd::prelude::*;

verus! {

use crate::cpu::{spec_flags, Cond, spec_cond, spec_fz, spec_fn_, spec_fh, spec_fc};

/// Builds a flags byte: bit 7 Zero, bit 6 Subtract, bit 5 Half-carry, bit 4
/// Carry, low nibble zero.
pub fn flags(z: bool, n: bool, h: bool, c: bool) -> (r: u8)
    ensures
        r == spec_flags(z, n, h, c),
        r % 16 == 0,
{
    (if z {
        128u8
    } else {
        0u8
    }) + (if n {
        64u8
    } else {
        0u8
    }) + (if h {
        32u8
    } else {
        0u8
    }) + (if c {
        16u8
    } else {
        0u8
    })
}

pub fn fz(f: u8) -> (r: bool)
    ensures
        r == spec_fz(f),
{
    (f / 128) % 2 == 1
}

pub fn fn_(f: u8) -> (r: bool)
    ensures
        r == spec_fn_(f),
{
    (f / 64) % 2 == 1
}

pub fn fh(f: u8) -> (r: bool)
    ensures
        r == spec_fh(f),
{
    (f / 32) % 2 == 1
}

pub fn fc(f: u8) -> (r: bool)
    ensures
        r == spec_fc(f),
{
    (f / 16) % 2 == 1
}

/// Evaluates a branch condition against a flags byte.
pub fn cond_holds(c: Cond, f: u8) -> (r: bool)
    ensures
        r == spec_cond(c, f),
{
    match c {
        Cond::Always => true,
        Cond::Zero => fz(f),
        Cond::NotZero => !fz(f),
        Cond::Carry => fc(f),
        Cond::NotCarry => !fc(f),
    }
}

/// 8-bit add into A: the wrapped sum, Z from the result, N clear, H when the
/// low nibbles (plus carry-in) overflow past 15, C when the whole sum passes
/// 255.
pub open spec fn spec_alu_add(a: u8, b: u8, cin: bool) -> (u8, u8) {
    let ci: int = if cin {
        1int
    } else {
        0int
    };
    let sum = a + b + ci;
    let res = (sum % 256) as u8;
    (res, spec_flags(res == 0, false, a % 16 + b % 16 + ci > 15, sum > 255))
}

pub fn alu_add(a: u8, b: u8, cin: bool) -> (r: (u8, u8))
    ensures
        r == spec_alu_add(a, b, cin),
{
    let ci: u32 = if cin {
        1
    } else {
        0
    };
    let sum: u32 = a as u32 + b as u32 + ci;
    let res: u8 = (sum % 256) as u8;
    let h = (a as u32) % 16 + (b as u32) % 16 + ci > 15;
    (res, flags(res == 0, false, h, sum > 255))
}

/// 8-bit subtract from A: the wrapped difference, Z from the result, N set,
/// H when the low nibble borrows, C when the whole subtraction borrows.
pub open spec fn spec_alu_sub(a: u8, b: u8, cin: bool) -> (u8, u8) {
    let ci: int = if cin {
        1int
    } else {
        0int
    };
    let res = ((a - b - ci + 256) % 256) as u8;
    (res, spec_flags(res == 0, true, a % 16 < b % 16 + ci, (a as int) < b + ci))
}

pub fn alu_sub(a: u8, b: u8, cin: bool) -> (r: (u8, u8))
    ensures
        r == spec_alu_sub(a, b, cin),
{
    let ci: u32 = if cin {
        1
    } else {
        0
    };
    let res: u8 = ((a as u32 + 256 - b as u32 - ci) % 256) as u8;
    let h = (a as u32) % 16 < (b as u32) % 16 + ci;
    let c = (a as u32) < b as u32 + ci;
    (res, flags(res == 0, true, h, c))
}

/// Bitwise AND into A: Z from the result, N clear, H set, C clear.
pub open spec fn spec_alu_and(a: u8, b: u8) -> (u8, u8) {
    let res = a & b;
    (res, spec_flags(res == 0, false, true, false))
}

pub fn alu_and(a: u8, b: u8) -> (r: (u8, u8))
    ensures
        r == spec_alu_and(a, b),
{
    let res = a & b;
    (res, flags(res == 0, false, true, false))
}

/// Bitwise XOR into A: Z from the result, N, H, C clear.
pub open spec fn spec_alu_xor(a: u8, b: u8) -> (u8, u8) {
    let res = a ^ b;
    (res, spec_flags(res == 0, false, false, false))
}

pub fn alu_xor(a: u8, b: u8) -> (r: (u8, u8))
    ensures
        r == spec_alu_xor(a, b),
{
    let res = a ^ b;
    (res, flags(res == 0, false, false, false))
}

/// Bitwise OR into A: Z from the result, N, H, C clear.
pub open spec fn spec_alu_or(a: u8, b: u8) -> (u8, u8) {
    let res = a | b;
    (res, spec_flags(res == 0, false, false, false))
}

pub fn alu_or(a: u8, b: u8) -> (r: (u8, u8))
    ensures
        r == spec_alu_or(a, b),
{
    let res = a | b;
    (res, flags(res == 0, false, false, false))
}

/// The classic BCD correction of A after an add (N clear) or subtract (N
/// set): on the add path, 0x60 is added when A passed 0x99 or C was set
/// (setting C), and 0x06 when the low nibble passed 9 or H was set; the
/// subtract path undoes the adjustments C and H call for. Z comes from the
/// result, H is cleared, C is as decided above.
pub open spec fn spec_alu_daa(a: u8, n: bool, h: bool, c: bool) -> (u8, u8) {
    if !n {
        let adj60 = c || a > 0x99;
        let adj6 = h || a % 16 > 9;
        let res = ((a + (if adj60 {
            0x60int
        } else {
            0int
        }) + (if adj6 {
            6int
        } else {
            0int
        })) % 256) as u8;
        (res, spec_flags(res == 0, n, false, adj60))
    } else {
        let res = ((a + 256 - (if c {
            0x60int
        } else {
            0int
        }) - (if h {
            6int
        } else {
            0int
        })) % 256) as u8;
        (res, spec_flags(res == 0, n, false, c))
    }
}

pub fn alu_daa(a: u8, n: bool, h: bool, c: bool) -> (r: (u8, u8))
    ensures
        r == spec_alu_daa(a, n, h, c),
{
    if !n {
        let adj60 = c || a > 0x99;
        let adj6 = h || a % 16 > 9;
        let res: u8 = ((a as u32 + (if adj60 {
            0x60u32
        } else {
            0u32
        }) + (if adj6 {
            6u32
        } else {
            0u32
        })) % 256) as u8;
        (res, flags(res == 0, n, false, adj60))
    } else {
        let res: u8 = ((a as u32 + 256 - (if c {
            0x60u32
        } else {
            0u32
        }) - (if h {
            6u32
        } else {
            0u32
        })) % 256) as u8;
        (res, flags(res == 0, n, false, c))
    }
}

/// 8-bit circular rotate left, and the bit rotated out.
pub open spec fn spec_rlc(v: u8) -> (u8, bool) {
    (((v % 128) * 2 + v / 128) as u8, v / 128 == 1)
}

pub fn rlc(v: u8) -> (r: (u8, bool))
    ensures
        r == spec_rlc(v),
{
    ((v % 128) * 2 + v / 128, v / 128 == 1)
}

/// 8-bit circular rotate right, and the bit rotated out.
pub open spec fn spec_rrc(v: u8) -> (u8, bool) {
    (((v % 2) * 128 + v / 2) as u8, v % 2 == 1)
}

pub fn rrc(v: u8) -> (r: (u8, bool))
    ensures
        r == spec_rrc(v),
{
    ((v % 2) * 128 + v / 2, v % 2 == 1)
}

/// 9-bit rotate left through the carry, and the bit rotated out.
pub open spec fn spec_rl(v: u8, cin: bool) -> (u8, bool) {
    (((v % 128) * 2 + (if cin {
        1int
    } else {
        0int
    })) as u8, v / 128 == 1)
}

pub fn rl(v: u8, cin: bool) -> (r: (u8, bool))
    ensures
        r == spec_rl(v, cin),
{
    ((v % 128) * 2 + (if cin {
        1u8
    } else {
        0u8
    }), v / 128 == 1)
}

/// 9-bit rotate right through the carry, and the bit rotated out.
pub open spec fn spec_rr(v: u8, cin: bool) -> (u8, bool) {
    ((v / 2 + (if cin {
        128int
    } else {
        0int
    })) as u8, v % 2 == 1)
}

pub fn rr(v: u8, cin: bool) -> (r: (u8, bool))
    ensures
        r == spec_rr(v, cin),
{
    (v / 2 + (if cin {
        128u8
    } else {
        0u8
    }), v % 2 == 1)
}

/// Arithmetic shift left, and the bit shifted out.
pub open spec fn spec_sla(v: u8) -> (u8, bool) {
    (((v % 128) * 2) as u8, v / 128 == 1)
}

pub fn sla(v: u8) -> (r: (u8, bool))
    ensures
        r == spec_sla(v),
{
    ((v % 128) * 2, v / 128 == 1)
}

/// Arithmetic shift right (the sign bit stays), and the bit shifted out.
pub open spec fn spec_sra(v: u8) -> (u8, bool) {
    ((v / 2 + (v / 128) * 128) as u8, v % 2 == 1)
}

pub fn sra(v: u8) -> (r: (u8, bool))
    ensures
        r == spec_sra(v),
{
    (v / 2 + (v / 128) * 128, v % 2 == 1)
}

/// Swap the nibbles; the carry out is always clear.
pub open spec fn spec_swap(v: u8) -> u8 {
    ((v % 16) * 16 + v / 16) as u8
}

pub fn swap(v: u8) -> (r: u8)
    ensures
        r == spec_swap(v),
{
    (v % 16) * 16 + v / 16
}

/// Logical shift right, and the bit shifted out.
pub open spec fn spec_srl(v: u8) -> (u8, bool) {
    (v / 2, v % 2 == 1)
}

pub fn srl(v: u8) -> (r: (u8, bool))
    ensures
        r == spec_srl(v),
{
    (v / 2, v % 2 == 1)
}

/// The byte with only bit `n` set.
pub open spec fn spec_bit_mask(n: u8) -> u8 {
    if n == 0 {
        1
    } else if n == 1 {
        2
    } else if n == 2 {
        4
    } else if n == 3 {
        8
    } else if n == 4 {
        16
    } else if n == 5 {
        32
    } else if n == 6 {
        64
    } else {
        128
    }
}

pub fn bit_mask(n: u8) -> (r: u8)
    ensures
        r == spec_bit_mask(n),
{
    if n == 0 {
        1
    } else if n == 1 {
        2
    } else if n == 2 {
        4
    } else if n == 3 {
        8
    } else if n == 4 {
        16
    } else if n == 5 {
        32
    } else if n == 6 {
        64
    } else {
        128
    }
}

/// A 16-bit value plus a small signed delta, wrapping.
pub open spec fn spec_wrap16_delta(v: u16, d: i8) -> u16 {
    ((v + d + 0x10000) % 0x10000) as u16
}

pub fn wrap16_delta(v: u16, d: i8) -> (r: u16)
    ensures
        r == spec_wrap16_delta(v, d),
{
    if d >= 0 {
        ((v as u32 + d as u32) % 0x10000) as u16
    } else {
        let mag: u32 = (-(d as i32)) as u32;
        ((v as u32 + 0x10000 - mag) % 0x10000) as u16
    }
}

/// An 8-bit value plus a small signed delta, wrapping.
pub open spec fn spec_wrap8_delta(v: u8, d: i8) -> u8 {
    ((v + d + 256) % 256) as u8
}

pub fn wrap8_delta(v: u8, d: i8) -> (r: u8)
    ensures
        r == spec_wrap8_delta(v, d),
{
    if d >= 0 {
        ((v as u32 + d as u32) % 256) as u8
    } else {
        let mag: u32 = (-(d as i32)) as u32;
        ((v as u32 + 256 - mag) % 256) as u8
    }
}

/// A 16-bit base plus a sign-extended byte offset, wrapping (the relative
/// jump and the SP-offset instructions).
pub open spec fn spec_offset16(base: u16, d: u8) -> u16 {
    ((base + d + (if d >= 128 {
        0xFF00int
    } else {
        0int
    })) % 0x10000) as u16
}

pub fn offset16(base: u16, d: u8) -> (r: u16)
    ensures
        r == spec_offset16(base, d),
{
    ((base as u32 + d as u32 + (if d >= 128 {
        0xFF00u32
    } else {
        0u32
    })) % 0x10000) as u16
}

/// 16-bit add into HL: the wrapped sum, N clear, H when bit 11 carries out,
/// C when bit 15 does, Z untouched (the caller keeps it).
pub open spec fn spec_add16(hl: u16, v: u16) -> (u16, bool, bool) {
    (((hl + v) % 0x10000) as u16, hl % 0x1000 + v % 0x1000 > 0xFFF, hl + v > 0xFFFF)
}

pub fn add16(hl: u16, v: u16) -> (r: (u16, bool, bool))
    ensures
        r == spec_add16(hl, v),
{
    let sum: u32 = hl as u32 + v as u32;
    let h = (hl as u32) % 0x1000 + (v as u32) % 0x1000 > 0xFFF;
    ((sum % 0x10000) as u16, h, sum > 0xFFFF)
}

} // verus!
