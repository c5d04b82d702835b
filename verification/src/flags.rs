//! Flag engine: stateless computations of the post-operation condition
//! byte, one per ALU category.
//!
//! The flag byte keeps Zero in bit 7, Subtract in bit 6, HalfCarry in
//! bit 5 and Carry in bit 4; the low nibble passes through unchanged.
//! Every bit is set or reset deterministically per operation, except
//! where the hardware documents it as unaffected: increment and
//! decrement preserve the prior Carry, and the 16-bit add preserves the
//! prior Zero.

use vstd::prelude::*;

verus! {

/// The Zero bit of a flag byte.
pub open spec fn flag_z(f: u8) -> bool {
    f / 0x80 % 2 == 1
}

/// The Subtract bit of a flag byte.
pub open spec fn flag_n(f: u8) -> bool {
    f / 0x40 % 2 == 1
}

/// The HalfCarry bit of a flag byte.
pub open spec fn flag_h(f: u8) -> bool {
    f / 0x20 % 2 == 1
}

/// The Carry bit of a flag byte.
pub open spec fn flag_c(f: u8) -> bool {
    f / 0x10 % 2 == 1
}

/// A flag byte assembled from the four condition bits, keeping the low
/// nibble of `f`.
pub open spec fn compose_flags(z: bool, n: bool, h: bool, c: bool, f: u8) -> u8 {
    ((if z { 0x80int } else { 0int }) + (if n { 0x40int } else { 0int }) + (if h {
        0x20int
    } else {
        0int
    }) + (if c { 0x10int } else { 0int }) + f % 0x10) as u8
}

/// Each condition bit of a composed flag byte reads back as the bit it
/// was assembled from, and the low nibble is kept.
pub proof fn lemma_compose_flags_bits(z: bool, n: bool, h: bool, c: bool, f: u8)
    ensures
        flag_z(compose_flags(z, n, h, c, f)) == z,
        flag_n(compose_flags(z, n, h, c, f)) == n,
        flag_h(compose_flags(z, n, h, c, f)) == h,
        flag_c(compose_flags(z, n, h, c, f)) == c,
        compose_flags(z, n, h, c, f) % 0x10 == f % 0x10,
{
}

/// The flag byte after an 8-bit add `op1 + op2`.
pub open spec fn add_flags_u8(op1: u8, op2: u8, f: u8) -> u8 {
    compose_flags(
        (op1 + op2) % 0x100 == 0,
        false,
        op1 % 0x10 + op2 % 0x10 >= 0x10,
        op1 + op2 > 0xFF,
        f,
    )
}

/// The flag byte after an 8-bit add with carry `op1 + op2 + carry`.
pub open spec fn adc_flags_u8(op1: u8, op2: u8, carry: bool, f: u8) -> u8 {
    let cin: int = if carry { 1 } else { 0 };
    compose_flags(
        (op1 + op2 + cin) % 0x100 == 0,
        false,
        op1 % 0x10 + op2 % 0x10 + cin >= 0x10,
        op1 + op2 + cin > 0xFF,
        f,
    )
}

/// The flag byte after an 8-bit subtract or compare `op1 - op2`.
pub open spec fn sub_flags_u8(op1: u8, op2: u8, f: u8) -> u8 {
    compose_flags(op1 == op2, true, op1 % 0x10 < op2 % 0x10, op1 < op2, f)
}

/// The flag byte after an 8-bit subtract with borrow `op1 - op2 - carry`.
pub open spec fn sbc_flags_u8(op1: u8, op2: u8, carry: bool, f: u8) -> u8 {
    let cin: int = if carry { 1 } else { 0 };
    compose_flags(
        (op1 - op2 - cin) % 0x100 == 0,
        true,
        op1 % 0x10 < op2 % 0x10 + cin,
        op1 < op2 + cin,
        f,
    )
}

/// The flag byte after an 8-bit increment of `v`. Carry keeps its prior
/// value: the hardware documents increment as not affecting it.
pub open spec fn inc_flags_u8(v: u8, f: u8) -> u8 {
    compose_flags((v + 1) % 0x100 == 0, false, v % 0x10 == 0x0F, flag_c(f), f)
}

/// The flag byte after an 8-bit decrement of `v`. Carry keeps its prior
/// value: the hardware documents decrement as not affecting it.
pub open spec fn dec_flags_u8(v: u8, f: u8) -> u8 {
    compose_flags(v == 1, true, v % 0x10 == 0, flag_c(f), f)
}

/// The flag byte after a 16-bit add `op1 + op2`. Zero keeps its prior
/// value; HalfCarry reports the carry out of bit 11.
pub open spec fn add_flags_u16(op1: u16, op2: u16, f: u8) -> u8 {
    compose_flags(
        flag_z(f),
        false,
        op1 % 0x1000 + op2 % 0x1000 >= 0x1000,
        op1 + op2 > 0xFFFF,
        f,
    )
}

/// The flag byte after a rotate or shift producing `result` with the bit
/// shifted out in `carry_out`; Zero follows the result, Subtract and
/// HalfCarry are reset.
pub open spec fn rotate_flags_u8(result: u8, carry_out: bool, f: u8) -> u8 {
    compose_flags(result == 0, false, false, carry_out, f)
}

/// The flag byte after a rotate of the accumulator itself: Zero,
/// Subtract and HalfCarry are always reset — unlike the prefixed
/// rotates, these never report a zero result — and Carry takes the bit
/// rotated out.
pub open spec fn rot_a_flags(carry_out: bool, f: u8) -> u8 {
    compose_flags(false, false, false, carry_out, f)
}

/// The flag byte after an 8-bit bitwise AND producing `result`; HalfCarry
/// is set, Carry reset.
pub open spec fn and_flags_u8(result: u8, f: u8) -> u8 {
    compose_flags(result == 0, false, true, false, f)
}

/// The flag byte after an 8-bit bitwise OR or XOR producing `result`; all
/// of Subtract, HalfCarry and Carry are reset.
pub open spec fn or_flags_u8(result: u8, f: u8) -> u8 {
    compose_flags(result == 0, false, false, false, f)
}

/// Assemble a flag byte from the four condition bits, keeping the low
/// nibble of `f`.
pub fn make_flags(z: bool, n: bool, h: bool, c: bool, f: u8) -> (r: u8)
    ensures
        r == compose_flags(z, n, h, c, f),
{
    (if z { 0x80u8 } else { 0u8 }) + (if n { 0x40u8 } else { 0u8 }) + (if h { 0x20u8 } else { 0u8 })
        + (if c { 0x10u8 } else { 0u8 }) + f % 0x10
}

/// Flags after an 8-bit add: Zero iff the truncated sum is zero, Subtract
/// reset, HalfCarry iff the low nibbles alone carry into bit 4, Carry iff
/// the full-width sum overflows 8 bits.
pub fn set_add_flags_u8(op1: u8, op2: u8, f: u8) -> (r: u8)
    ensures
        r == add_flags_u8(op1, op2, f),
        flag_z(r) <==> (op1 + op2) % 0x100 == 0,
        !flag_n(r),
        flag_h(r) <==> op1 % 0x10 + op2 % 0x10 >= 0x10,
        flag_c(r) <==> op1 + op2 > 0xFF,
{
    let z = op1.wrapping_add(op2) == 0;
    let h = op1 % 0x10 + op2 % 0x10 >= 0x10;
    let c = op1 as u16 + op2 as u16 > 0xFF;
    proof {
        assert(op1.wrapping_add(op2) == 0 <==> (op1 + op2) % 0x100 == 0) by (bit_vector);
        lemma_compose_flags_bits(z, false, h, c, f);
    }
    make_flags(z, false, h, c, f)
}

/// Flags after an 8-bit add with carry-in, with the same bit rules as the
/// plain add applied to the three-term sum.
pub fn set_adc_flags_u8(op1: u8, op2: u8, carry: bool, f: u8) -> (r: u8)
    ensures
        r == adc_flags_u8(op1, op2, carry, f),
{
    let cin: u8 = if carry { 1 } else { 0 };
    let z = op1.wrapping_add(op2).wrapping_add(cin) == 0;
    let h = op1 % 0x10 + op2 % 0x10 + cin >= 0x10;
    let c = op1 as u16 + op2 as u16 + cin as u16 > 0xFF;
    proof {
        assert(cin <= 1 ==> (op1.wrapping_add(op2).wrapping_add(cin) == 0 <==> (op1 + op2
            + cin) % 0x100 == 0)) by (bit_vector);
    }
    make_flags(z, false, h, c, f)
}

/// Flags after an 8-bit subtract or compare: Zero iff the operands are
/// equal, Subtract set, HalfCarry iff the low nibble of `op1` borrows,
/// Carry iff the full subtraction borrows.
pub fn set_sub_flags_u8(op1: u8, op2: u8, f: u8) -> (r: u8)
    ensures
        r == sub_flags_u8(op1, op2, f),
        flag_z(r) <==> op1 == op2,
        flag_n(r),
        flag_h(r) <==> op1 % 0x10 < op2 % 0x10,
        flag_c(r) <==> op1 < op2,
{
    let z = op1 == op2;
    let h = op1 % 0x10 < op2 % 0x10;
    let c = op1 < op2;
    proof {
        lemma_compose_flags_bits(z, true, h, c, f);
    }
    make_flags(z, true, h, c, f)
}

/// Flags after an 8-bit subtract with borrow-in, with the same bit rules
/// as the plain subtract applied to the three-term difference.
pub fn set_sbc_flags_u8(op1: u8, op2: u8, carry: bool, f: u8) -> (r: u8)
    ensures
        r == sbc_flags_u8(op1, op2, carry, f),
{
    let cin: u8 = if carry { 1 } else { 0 };
    let z = op1.wrapping_sub(op2).wrapping_sub(cin) == 0;
    let h = op1 % 0x10 < op2 % 0x10 + cin;
    let c = (op1 as u16) < op2 as u16 + cin as u16;
    proof {
        assert(cin <= 1 ==> (op1.wrapping_sub(op2).wrapping_sub(cin) == 0 <==> (op1 - op2
            - cin) % 0x100 == 0)) by (bit_vector);
    }
    make_flags(z, true, h, c, f)
}

/// Flags after incrementing `v`: the Carry bit of `f` is preserved, never
/// recomputed.
pub fn set_inc_flags_u8(v: u8, f: u8) -> (r: u8)
    ensures
        r == inc_flags_u8(v, f),
        flag_c(r) == flag_c(f),
{
    let z = v == 0xFF;
    let h = v % 0x10 == 0x0F;
    let c = f / 0x10 % 2 == 1;
    proof {
        lemma_compose_flags_bits(z, false, h, c, f);
    }
    make_flags(z, false, h, c, f)
}

/// Flags after decrementing `v`: the Carry bit of `f` is preserved, never
/// recomputed.
pub fn set_dec_flags_u8(v: u8, f: u8) -> (r: u8)
    ensures
        r == dec_flags_u8(v, f),
        flag_c(r) == flag_c(f),
{
    let z = v == 1;
    let h = v % 0x10 == 0;
    let c = f / 0x10 % 2 == 1;
    proof {
        lemma_compose_flags_bits(z, true, h, c, f);
    }
    make_flags(z, true, h, c, f)
}

/// Flags after a 16-bit add: Zero is preserved, HalfCarry reports the
/// carry out of bit 11, Carry the overflow of 16 bits.
pub fn set_add_flags_u16(op1: u16, op2: u16, f: u8) -> (r: u8)
    ensures
        r == add_flags_u16(op1, op2, f),
        flag_z(r) == flag_z(f),
{
    let z = f / 0x80 % 2 == 1;
    let h = op1 % 0x1000 + op2 % 0x1000 >= 0x1000;
    let c = op1 as u32 + op2 as u32 > 0xFFFF;
    proof {
        lemma_compose_flags_bits(z, false, h, c, f);
    }
    make_flags(z, false, h, c, f)
}

/// Flags after a rotate or shift: Zero follows `result`, Subtract and
/// HalfCarry are reset, Carry takes the bit shifted out.
pub fn set_rotate_flags_u8(result: u8, carry_out: bool, f: u8) -> (r: u8)
    ensures
        r == rotate_flags_u8(result, carry_out, f),
{
    make_flags(result == 0, false, false, carry_out, f)
}

/// Flags after a rotate of the accumulator itself: Zero, Subtract and
/// HalfCarry reset, Carry from the bit rotated out.
pub fn set_rot_a_flags_u8(carry_out: bool, f: u8) -> (r: u8)
    ensures
        r == rot_a_flags(carry_out, f),
{
    make_flags(false, false, false, carry_out, f)
}

/// Flags after a bitwise AND: Zero follows `result`, HalfCarry set, Carry
/// reset.
pub fn set_and_flags_u8(result: u8, f: u8) -> (r: u8)
    ensures
        r == and_flags_u8(result, f),
{
    make_flags(result == 0, false, true, false, f)
}

/// Flags after a bitwise OR or XOR: Zero follows `result`, the other
/// three bits reset.
pub fn set_or_flags_u8(result: u8, f: u8) -> (r: u8)
    ensures
        r == or_flags_u8(result, f),
{
    make_flags(result == 0, false, false, false, f)
}

} // verus!
