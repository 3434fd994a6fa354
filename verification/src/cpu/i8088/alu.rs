//! Intel 8088 ALU operations.
//!
//! Each function takes the FLAGS register by reference, updates the status
//! flags the instruction defines, and returns the result.

use vstd::prelude::*;
use super::flags::{self, Flag, status, parity_even, is_set};

verus! {

/// 1 for a carry or borrow that is in, 0 otherwise.
pub open spec fn bit_in(c: bool) -> int {
    if c { 1 } else { 0 }
}

/// A byte read as a two's complement number.
pub open spec fn signed8(x: u8) -> int {
    if x >= 0x80 { x - 256 } else { x as int }
}

/// A word read as a two's complement number.
pub open spec fn signed16(x: u16) -> int {
    if x >= 0x8000 { x - 65536 } else { x as int }
}

/// The byte `a + b + carry`, modulo 256.
pub open spec fn add8_value(a: u8, b: u8, carry: bool) -> u8 {
    ((a + b + bit_in(carry)) % 256) as u8
}

/// The word `a + b + carry`, modulo 65536.
pub open spec fn add16_value(a: u16, b: u16, carry: bool) -> u16 {
    ((a + b + bit_in(carry)) % 65536) as u16
}

/// The byte `a - b - borrow`, modulo 256.
pub open spec fn sub8_value(a: u8, b: u8, borrow: bool) -> u8 {
    ((a - b - bit_in(borrow) + 256) % 256) as u8
}

/// The word `a - b - borrow`, modulo 65536.
pub open spec fn sub16_value(a: u16, b: u16, borrow: bool) -> u16 {
    ((a - b - bit_in(borrow) + 65536) % 65536) as u16
}

/// FLAGS after an 8-bit add: carry out of bit 7, carry out of bit 3, signed
/// overflow, and sign, zero and parity of the result.
pub open spec fn add8_flags(f: u16, a: u8, b: u8, carry: bool) -> u16 {
    let r = add8_value(a, b, carry);
    status(
        f,
        a + b + bit_in(carry) > 0xFF,
        parity_even(r),
        a % 16 + b % 16 + bit_in(carry) > 15,
        r == 0,
        r >= 0x80,
        !(-128 <= signed8(a) + signed8(b) + bit_in(carry) <= 127),
    )
}

/// FLAGS after a 16-bit add.
pub open spec fn add16_flags(f: u16, a: u16, b: u16, carry: bool) -> u16 {
    let r = add16_value(a, b, carry);
    status(
        f,
        a + b + bit_in(carry) > 0xFFFF,
        parity_even((r % 256) as u8),
        a % 16 + b % 16 + bit_in(carry) > 15,
        r == 0,
        r >= 0x8000,
        !(-32768 <= signed16(a) + signed16(b) + bit_in(carry) <= 32767),
    )
}

/// FLAGS after an 8-bit subtract: borrow into bit 7, borrow into bit 3,
/// signed overflow, and sign, zero and parity of the result.
pub open spec fn sub8_flags(f: u16, a: u8, b: u8, borrow: bool) -> u16 {
    let r = sub8_value(a, b, borrow);
    status(
        f,
        a < b + bit_in(borrow),
        parity_even(r),
        a % 16 < b % 16 + bit_in(borrow),
        r == 0,
        r >= 0x80,
        !(-128 <= signed8(a) - signed8(b) - bit_in(borrow) <= 127),
    )
}

/// FLAGS after a 16-bit subtract.
pub open spec fn sub16_flags(f: u16, a: u16, b: u16, borrow: bool) -> u16 {
    let r = sub16_value(a, b, borrow);
    status(
        f,
        a < b + bit_in(borrow),
        parity_even((r % 256) as u8),
        a % 16 < b % 16 + bit_in(borrow),
        r == 0,
        r >= 0x8000,
        !(-32768 <= signed16(a) - signed16(b) - bit_in(borrow) <= 32767),
    )
}

/// FLAGS after a logic operation on bytes: CF, OF and AF clear.
pub open spec fn logic8_flags(f: u16, r: u8) -> u16 {
    status(f, false, parity_even(r), false, r == 0, r >= 0x80, false)
}

/// FLAGS after a logic operation on words: CF, OF and AF clear.
pub open spec fn logic16_flags(f: u16, r: u16) -> u16 {
    status(f, false, parity_even((r % 256) as u8), false, r == 0, r >= 0x8000, false)
}

/// 8-bit add with carry-in. Updates CF, OF, AF, SF, ZF, PF.
pub fn add8(flags: &mut u16, a: u8, b: u8, carry_in: bool) -> (r: u8)
    ensures
        r == add8_value(a, b, carry_in),
        *final(flags) == add8_flags(*old(flags), a, b, carry_in),
{
    let ci: u16 = if carry_in { 1 } else { 0 };
    let result16: u16 = a as u16 + b as u16 + ci;
    let result = (result16 % 256) as u8;
    let sa = a >= 0x80;
    let sb = b >= 0x80;
    let sr = result >= 0x80;
    flags::set(flags, Flag::CF, result16 > 0xFF);
    flags::set(flags, Flag::OF, sa == sb && sr != sa);
    flags::set(flags, Flag::AF, (a % 16) as u16 + (b % 16) as u16 + ci > 15);
    flags::update_szp8(flags, result);
    proof {
        flags::lemma_status(*old(flags), result16 > 0xFF, sa == sb && sr != sa,
            (a % 16) as u16 + (b % 16) as u16 + ci > 15, result >= 0x80, result == 0,
            parity_even(result));
    }
    result
}

/// 16-bit add with carry-in. Updates CF, OF, AF, SF, ZF, PF.
pub fn add16(flags: &mut u16, a: u16, b: u16, carry_in: bool) -> (r: u16)
    ensures
        r == add16_value(a, b, carry_in),
        *final(flags) == add16_flags(*old(flags), a, b, carry_in),
{
    let ci: u32 = if carry_in { 1 } else { 0 };
    let result32: u32 = a as u32 + b as u32 + ci;
    let result = (result32 % 65536) as u16;
    let sa = a >= 0x8000;
    let sb = b >= 0x8000;
    let sr = result >= 0x8000;
    flags::set(flags, Flag::CF, result32 > 0xFFFF);
    flags::set(flags, Flag::OF, sa == sb && sr != sa);
    flags::set(flags, Flag::AF, (a % 16) as u32 + (b % 16) as u32 + ci > 15);
    flags::update_szp16(flags, result);
    proof {
        flags::lemma_status(*old(flags), result32 > 0xFFFF, sa == sb && sr != sa,
            (a % 16) as u32 + (b % 16) as u32 + ci > 15, result >= 0x8000, result == 0,
            parity_even((result % 256) as u8));
    }
    result
}

/// 8-bit subtract with borrow-in. Updates CF, OF, AF, SF, ZF, PF.
pub fn sub8(flags: &mut u16, a: u8, b: u8, borrow_in: bool) -> (r: u8)
    ensures
        r == sub8_value(a, b, borrow_in),
        *final(flags) == sub8_flags(*old(flags), a, b, borrow_in),
{
    let bi: u16 = if borrow_in { 1 } else { 0 };
    let borrow = (a as u16) < b as u16 + bi;
    let result = ((a as u16 + 256 - b as u16 - bi) % 256) as u8;
    let sa = a >= 0x80;
    let sb = b >= 0x80;
    let sr = result >= 0x80;
    let half = ((a % 16) as u16) < (b % 16) as u16 + bi;
    flags::set(flags, Flag::CF, borrow);
    flags::set(flags, Flag::OF, sa != sb && sr != sa);
    flags::set(flags, Flag::AF, half);
    flags::update_szp8(flags, result);
    proof {
        flags::lemma_status(*old(flags), borrow, sa != sb && sr != sa, half, result >= 0x80,
            result == 0, parity_even(result));
    }
    result
}

/// 16-bit subtract with borrow-in. Updates CF, OF, AF, SF, ZF, PF.
pub fn sub16(flags: &mut u16, a: u16, b: u16, borrow_in: bool) -> (r: u16)
    ensures
        r == sub16_value(a, b, borrow_in),
        *final(flags) == sub16_flags(*old(flags), a, b, borrow_in),
{
    let bi: u32 = if borrow_in { 1 } else { 0 };
    let borrow = (a as u32) < b as u32 + bi;
    let result = ((a as u32 + 65536 - b as u32 - bi) % 65536) as u16;
    let sa = a >= 0x8000;
    let sb = b >= 0x8000;
    let sr = result >= 0x8000;
    let half = ((a % 16) as u32) < (b % 16) as u32 + bi;
    flags::set(flags, Flag::CF, borrow);
    flags::set(flags, Flag::OF, sa != sb && sr != sa);
    flags::set(flags, Flag::AF, half);
    flags::update_szp16(flags, result);
    proof {
        flags::lemma_status(*old(flags), borrow, sa != sb && sr != sa, half, result >= 0x8000,
            result == 0, parity_even((result % 256) as u8));
    }
    result
}

/// 8-bit increment. Updates OF, AF, SF, ZF, PF. CF unchanged.
pub fn inc8(flags: &mut u16, a: u8) -> (r: u8)
    ensures
        r == add8_value(a, 1, false),
        *final(flags) == status(
            *old(flags),
            is_set(*old(flags), Flag::CF),
            parity_even(r),
            a % 16 == 15,
            r == 0,
            r >= 0x80,
            a == 0x7F,
        ),
{
    let result = a.wrapping_add(1);
    flags::set(flags, Flag::OF, a == 0x7F);
    flags::set(flags, Flag::AF, a % 16 == 15);
    flags::update_szp8(flags, result);
    proof {
        flags::lemma_status_keep_cf(*old(flags), a == 0x7F, a % 16 == 15, result >= 0x80,
            result == 0, parity_even(result));
    }
    result
}

/// 16-bit increment. Updates OF, AF, SF, ZF, PF. CF unchanged.
pub fn inc16(flags: &mut u16, a: u16) -> (r: u16)
    ensures
        r == add16_value(a, 1, false),
        *final(flags) == status(
            *old(flags),
            is_set(*old(flags), Flag::CF),
            parity_even((r % 256) as u8),
            a % 16 == 15,
            r == 0,
            r >= 0x8000,
            a == 0x7FFF,
        ),
{
    let result = a.wrapping_add(1);
    flags::set(flags, Flag::OF, a == 0x7FFF);
    flags::set(flags, Flag::AF, a % 16 == 15);
    flags::update_szp16(flags, result);
    proof {
        flags::lemma_status_keep_cf(*old(flags), a == 0x7FFF, a % 16 == 15, result >= 0x8000,
            result == 0, parity_even((result % 256) as u8));
    }
    result
}

/// 8-bit decrement. Updates OF, AF, SF, ZF, PF. CF unchanged.
pub fn dec8(flags: &mut u16, a: u8) -> (r: u8)
    ensures
        r == sub8_value(a, 1, false),
        *final(flags) == status(
            *old(flags),
            is_set(*old(flags), Flag::CF),
            parity_even(r),
            a % 16 == 0,
            r == 0,
            r >= 0x80,
            a == 0x80,
        ),
{
    let result = a.wrapping_sub(1);
    flags::set(flags, Flag::OF, a == 0x80);
    flags::set(flags, Flag::AF, a % 16 == 0);
    flags::update_szp8(flags, result);
    proof {
        flags::lemma_status_keep_cf(*old(flags), a == 0x80, a % 16 == 0, result >= 0x80,
            result == 0, parity_even(result));
    }
    result
}

/// 16-bit decrement. Updates OF, AF, SF, ZF, PF. CF unchanged.
pub fn dec16(flags: &mut u16, a: u16) -> (r: u16)
    ensures
        r == sub16_value(a, 1, false),
        *final(flags) == status(
            *old(flags),
            is_set(*old(flags), Flag::CF),
            parity_even((r % 256) as u8),
            a % 16 == 0,
            r == 0,
            r >= 0x8000,
            a == 0x8000,
        ),
{
    let result = a.wrapping_sub(1);
    flags::set(flags, Flag::OF, a == 0x8000);
    flags::set(flags, Flag::AF, a % 16 == 0);
    flags::update_szp16(flags, result);
    proof {
        flags::lemma_status_keep_cf(*old(flags), a == 0x8000, a % 16 == 0, result >= 0x8000,
            result == 0, parity_even((result % 256) as u8));
    }
    result
}

/// 8-bit negate. CF=1 unless operand is 0. Updates OF, AF, SF, ZF, PF.
pub fn neg8(flags: &mut u16, a: u8) -> (r: u8)
    ensures
        r == sub8_value(0, a, false),
        *final(flags) == sub8_flags(*old(flags), 0, a, false),
{
    let result = sub8(flags, 0, a, false);
    let ghost mid = *flags;
    flags::set(flags, Flag::CF, a != 0);
    proof {
        flags::lemma_status_reads(*old(flags), 0 < a, parity_even(result), 0 < a % 16, result == 0,
            result >= 0x80, !(-128 <= signed8(0) - signed8(a) <= 127));
        flags::lemma_set_same(mid, Flag::CF);
    }
    result
}

/// 16-bit negate. CF=1 unless operand is 0. Updates OF, AF, SF, ZF, PF.
pub fn neg16(flags: &mut u16, a: u16) -> (r: u16)
    ensures
        r == sub16_value(0, a, false),
        *final(flags) == sub16_flags(*old(flags), 0, a, false),
{
    let result = sub16(flags, 0, a, false);
    let ghost mid = *flags;
    flags::set(flags, Flag::CF, a != 0);
    proof {
        flags::lemma_status_reads(*old(flags), 0 < a, parity_even((result % 256) as u8),
            0 < a % 16, result == 0, result >= 0x8000,
            !(-32768 <= signed16(0) - signed16(a) <= 32767));
        flags::lemma_set_same(mid, Flag::CF);
    }
    result
}

/// 8-bit AND. CF=OF=0, AF cleared. Updates SF, ZF, PF.
pub fn and8(flags: &mut u16, a: u8, b: u8) -> (r: u8)
    ensures
        r == a & b,
        *final(flags) == logic8_flags(*old(flags), r),
{
    let result = a & b;
    logic8(flags, result);
    result
}

/// 16-bit AND. CF=OF=0, AF cleared. Updates SF, ZF, PF.
pub fn and16(flags: &mut u16, a: u16, b: u16) -> (r: u16)
    ensures
        r == a & b,
        *final(flags) == logic16_flags(*old(flags), r),
{
    let result = a & b;
    logic16(flags, result);
    result
}

/// 8-bit OR. CF=OF=0, AF cleared. Updates SF, ZF, PF.
pub fn or8(flags: &mut u16, a: u8, b: u8) -> (r: u8)
    ensures
        r == a | b,
        *final(flags) == logic8_flags(*old(flags), r),
{
    let result = a | b;
    logic8(flags, result);
    result
}

/// 16-bit OR. CF=OF=0, AF cleared. Updates SF, ZF, PF.
pub fn or16(flags: &mut u16, a: u16, b: u16) -> (r: u16)
    ensures
        r == a | b,
        *final(flags) == logic16_flags(*old(flags), r),
{
    let result = a | b;
    logic16(flags, result);
    result
}

/// 8-bit XOR. CF=OF=0, AF cleared. Updates SF, ZF, PF.
pub fn xor8(flags: &mut u16, a: u8, b: u8) -> (r: u8)
    ensures
        r == a ^ b,
        *final(flags) == logic8_flags(*old(flags), r),
{
    let result = a ^ b;
    logic8(flags, result);
    result
}

/// 16-bit XOR. CF=OF=0, AF cleared. Updates SF, ZF, PF.
pub fn xor16(flags: &mut u16, a: u16, b: u16) -> (r: u16)
    ensures
        r == a ^ b,
        *final(flags) == logic16_flags(*old(flags), r),
{
    let result = a ^ b;
    logic16(flags, result);
    result
}

/// 8-bit bitwise NOT. No flags affected.
pub fn not8(a: u8) -> (r: u8)
    ensures
        r == !a,
{
    !a
}

/// 16-bit bitwise NOT. No flags affected.
pub fn not16(a: u16) -> (r: u16)
    ensures
        r == !a,
{
    !a
}

/// The flag update shared by the byte logic operations.
fn logic8(flags: &mut u16, result: u8)
    ensures
        *final(flags) == logic8_flags(*old(flags), result),
{
    flags::set(flags, Flag::CF, false);
    flags::set(flags, Flag::OF, false);
    flags::set(flags, Flag::AF, false);
    flags::update_szp8(flags, result);
    proof {
        flags::lemma_status(*old(flags), false, false, false, result >= 0x80, result == 0,
            parity_even(result));
    }
}

/// The flag update shared by the word logic operations.
fn logic16(flags: &mut u16, result: u16)
    ensures
        *final(flags) == logic16_flags(*old(flags), result),
{
    flags::set(flags, Flag::CF, false);
    flags::set(flags, Flag::OF, false);
    flags::set(flags, Flag::AF, false);
    flags::update_szp16(flags, result);
    proof {
        flags::lemma_status(*old(flags), false, false, false, result >= 0x8000, result == 0,
            parity_even((result % 256) as u8));
    }
}

} // verus!
