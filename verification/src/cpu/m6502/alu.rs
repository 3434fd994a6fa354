//! The 6502's arithmetic and logic: what each reading instruction does
//! with its operand, and what each read-modify-write does to its byte.

use vstd::prelude::*;
use super::{M6502, StatusFlag, has_status, nz, status_mask, with_status};

verus! {

/// What an instruction that reads an operand does with it.
#[derive(Copy, Clone, Debug, PartialEq, Eq, Structural)]
pub enum ReadOp {
    Lda,
    Ldx,
    Ldy,
    Adc,
    Sbc,
    Cmp,
    Cpx,
    Cpy,
    And,
    Ora,
    Eor,
    Bit,
}

/// What a read-modify-write instruction does to its byte.
#[derive(Copy, Clone, Debug, PartialEq, Eq, Structural)]
pub enum RmwOp {
    Asl,
    Lsr,
    Rol,
    Ror,
    Inc,
    Dec,
}

/// The carry as 0 or 1.
pub open spec fn carry_in(p: u8) -> int {
    if has_status(p, StatusFlag::C) { 1 } else { 0 }
}

/// ADC on A, P and the operand: the new A and P. In binary mode C is the
/// carry out of bit 7, V a signed overflow, N and Z from the result. In
/// decimal mode (NMOS): the low digit corrected first, N and V from the
/// sum before the high digit's correction, C from after it, Z from the
/// binary sum.
pub open spec fn adc(a: u8, p: u8, v: u8) -> (u8, u8) {
    let c = carry_in(p);
    if has_status(p, StatusFlag::D) {
        let sum0 = decimal_sum(a, v, c).0;
        let sum = decimal_sum(a, v, c).1;
        let n = (sum0 / 128) % 2 == 1;
        let p1 = with_status(p, StatusFlag::N, n);
        let p2 = with_status(p1, StatusFlag::V, (a >= 128) == (v >= 128) && n != (a >= 128));
        let p3 = with_status(p2, StatusFlag::C, sum >= 0x100);
        let p4 = with_status(p3, StatusFlag::Z, (a + v + c) % 256 == 0);
        ((sum % 256) as u8, p4)
    } else {
        let sum = a + v + c;
        let r = (sum % 256) as u8;
        let p1 = with_status(p, StatusFlag::C, sum > 255);
        let p2 = with_status(p1, StatusFlag::V, (a >= 128) == (v >= 128) && (r >= 128) != (a >= 128));
        (r, nz(p2, r))
    }
}

/// Decimal ADC's sums: after the low digit's correction, and after the
/// high digit's.
pub open spec fn decimal_sum(a: u8, v: u8, c: int) -> (int, int) {
    let al0 = a % 16 + v % 16 + c;
    let al = if al0 >= 10 { (al0 + 6) % 16 + 16 } else { al0 };
    let sum0 = a / 16 * 16 + v / 16 * 16 + al;
    (sum0, if sum0 >= 0xA0 { sum0 + 0x60 } else { sum0 })
}

/// SBC on A, P and the operand: A + !M + C. Every flag comes from the
/// binary difference, also in decimal mode (NMOS), where only A is
/// corrected digit by digit.
pub open spec fn sbc(a: u8, p: u8, v: u8) -> (u8, u8) {
    let c = carry_in(p);
    let diff = a + (255 - v) + c;
    let r = (diff % 256) as u8;
    let p1 = with_status(p, StatusFlag::C, diff > 255);
    let p2 = with_status(p1, StatusFlag::V, (a >= 128) != (v >= 128) && (a >= 128) != (r >= 128));
    let p3 = nz(p2, r);
    if has_status(p, StatusFlag::D) {
        (decimal_difference(a, v, c), p3)
    } else {
        (r, p3)
    }
}

/// A's decimal correction after SBC with carry `c`: each digit subtracted
/// with the borrow, and 6 more taken from a digit that went below zero.
pub open spec fn decimal_difference(a: u8, v: u8, c: int) -> u8 {
    let lo0 = a % 16 - v % 16 - (1 - c);
    let lb = lo0 < 0;
    let lo = if lb { lo0 - 6 } else { lo0 };
    let hi0 = a / 16 - v / 16 - (if lb { 1int } else { 0 });
    let hi = if hi0 < 0 { hi0 - 6 } else { hi0 };
    ((hi % 16) * 16 + lo % 16) as u8
}

proof fn lemma_digit_offset(x: int)
    requires
        -32 <= x < 32,
    ensures
        (x + 32) % 16 == x % 16,
{
}

fn subtract_decimal(a: u8, operand: u8, c: u8) -> (r: u8)
    requires
        c <= 1,
    ensures
        r == decimal_difference(a, operand, c as int),
{
    let ghost lo0: int = a % 16 - operand % 16 - (1 - c);
    let borrow = 1 - c;
    let mut lo: u8 = 32 + a % 16 - operand % 16 - borrow;
    let lo_borrow = lo < 32;
    if lo_borrow {
        lo = lo - 6;
    }
    let ghost loi: int = if lo0 < 0 { lo0 - 6 } else { lo0 };
    assert(lo == loi + 32);
    let ghost hi0: int = a / 16 - operand / 16 - (if lo0 < 0 { 1int } else { 0 });
    let mut hi: u8 = 32 + a / 16 - operand / 16 - if lo_borrow {
        1u8
    } else {
        0
    };
    if hi < 32 {
        hi = hi - 6;
    }
    let ghost hii: int = if hi0 < 0 { hi0 - 6 } else { hi0 };
    assert(hi == hii + 32);
    proof {
        lemma_digit_offset(loi);
        lemma_digit_offset(hii);
    }
    (hi % 16) * 16 + lo % 16
}

/// P after comparing `reg` with `v`: C when `reg >= v`, N and Z from the
/// difference.
pub open spec fn compare(p: u8, reg: u8, v: u8) -> u8 {
    nz(with_status(p, StatusFlag::C, reg >= v), ((reg - v + 256) % 256) as u8)
}

/// `s` after a read operation on operand `v`.
#[verifier::opaque]
pub open spec fn read_applied(s: M6502, op: ReadOp, v: u8) -> M6502 {
    match op {
        ReadOp::Lda => M6502 { a: v, p: nz(s.p, v), ..s },
        ReadOp::Ldx => M6502 { x: v, p: nz(s.p, v), ..s },
        ReadOp::Ldy => M6502 { y: v, p: nz(s.p, v), ..s },
        ReadOp::Adc => M6502 { a: adc(s.a, s.p, v).0, p: adc(s.a, s.p, v).1, ..s },
        ReadOp::Sbc => M6502 { a: sbc(s.a, s.p, v).0, p: sbc(s.a, s.p, v).1, ..s },
        ReadOp::Cmp => M6502 { p: compare(s.p, s.a, v), ..s },
        ReadOp::Cpx => M6502 { p: compare(s.p, s.x, v), ..s },
        ReadOp::Cpy => M6502 { p: compare(s.p, s.y, v), ..s },
        ReadOp::And => M6502 { a: s.a & v, p: nz(s.p, s.a & v), ..s },
        ReadOp::Ora => M6502 { a: s.a | v, p: nz(s.p, s.a | v), ..s },
        ReadOp::Eor => M6502 { a: s.a ^ v, p: nz(s.p, s.a ^ v), ..s },
        ReadOp::Bit => M6502 {
            p: with_status(
                with_status(with_status(s.p, StatusFlag::N, v >= 0x80), StatusFlag::V, v & 0x40 != 0),
                StatusFlag::Z,
                s.a & v == 0,
            ),
            ..s
        },
    }
}

/// P after a shift or rotate: N and Z from the result, C the bit shifted out.
pub open spec fn shift_flags(p: u8, r: u8, carry: bool) -> u8 {
    with_status(nz(p, r), StatusFlag::C, carry)
}

impl M6502 {
    /// A read-modify-write operation on byte `v`: the byte written back and
    /// the core with its flags updated.
    pub open spec fn shifted(self, op: RmwOp, v: u8) -> (u8, M6502) {
        let c = carry_in(self.p);
        match op {
            RmwOp::Asl => {
                let r = ((v * 2) % 256) as u8;
                (r, M6502 { p: shift_flags(self.p, r, v >= 0x80), ..self })
            },
            RmwOp::Lsr => {
                let r = v / 2;
                (r, M6502 { p: shift_flags(self.p, r, v % 2 == 1), ..self })
            },
            RmwOp::Rol => {
                let r = ((v * 2) % 256 + c) as u8;
                (r, M6502 { p: shift_flags(self.p, r, v >= 0x80), ..self })
            },
            RmwOp::Ror => {
                let r = (v / 2 + c * 128) as u8;
                (r, M6502 { p: shift_flags(self.p, r, v % 2 == 1), ..self })
            },
            RmwOp::Inc => {
                let r = ((v + 1) % 256) as u8;
                (r, M6502 { p: nz(self.p, r), ..self })
            },
            RmwOp::Dec => {
                let r = ((v + 255) % 256) as u8;
                (r, M6502 { p: nz(self.p, r), ..self })
            },
        }
    }
}

impl M6502 {
    /// Set N and Z from `result`.
    pub fn set_nz(&mut self, result: u8)
        ensures
            *final(self) == (M6502 { p: nz(old(self).p, result), ..*old(self) }),
    {
        self.set_flag(StatusFlag::N, result >= 0x80);
        self.set_flag(StatusFlag::Z, result == 0);
    }

    /// Set N, Z and C after a shift or rotate.
    pub fn set_flags_shift(&mut self, result: u8, carry: bool)
        ensures
            *final(self) == (M6502 { p: shift_flags(old(self).p, result, carry), ..*old(self) }),
    {
        self.set_flag(StatusFlag::N, result >= 0x80);
        self.set_flag(StatusFlag::Z, result == 0);
        self.set_flag(StatusFlag::C, carry);
    }

    /// ADC: add the operand and the carry to A, in binary or decimal.
    pub fn perform_adc(&mut self, operand: u8)
        ensures
            *final(self) == (M6502 {
                a: adc(old(self).a, old(self).p, operand).0,
                p: adc(old(self).a, old(self).p, operand).1,
                ..*old(self)
            }),
    {
        let a = self.a;
        let c: u16 = if self.p & 0x01 != 0 {
            1
        } else {
            0
        };
        if self.p & 0x08 != 0 {
            let mut al: u16 = (a % 16) as u16 + (operand % 16) as u16 + c;
            if al >= 0x0A {
                al = (al + 0x06) % 16 + 0x10;
            }
            let mut sum: u16 = (a / 16 * 16) as u16 + (operand / 16 * 16) as u16 + al;
            let n = (sum / 128) % 2 == 1;
            self.set_flag(StatusFlag::N, n);
            self.set_flag(StatusFlag::V, (a >= 128) == (operand >= 128) && n != (a >= 128));
            if sum >= 0xA0 {
                sum = sum + 0x60;
            }
            self.set_flag(StatusFlag::C, sum >= 0x100);
            let binary = a as u16 + operand as u16 + c;
            self.set_flag(StatusFlag::Z, binary % 256 == 0);
            self.a = (sum % 256) as u8;
        } else {
            let sum = a as u16 + operand as u16 + c;
            let result = (sum % 256) as u8;
            self.set_flag(StatusFlag::C, sum > 0xFF);
            self.set_flag(
                StatusFlag::V,
                (a >= 128) == (operand >= 128) && (result >= 128) != (a >= 128),
            );
            self.a = result;
            self.set_nz(result);
        }
    }

    /// SBC: subtract the operand and the borrow (not C) from A.
    pub fn perform_sbc(&mut self, operand: u8)
        ensures
            *final(self) == (M6502 {
                a: sbc(old(self).a, old(self).p, operand).0,
                p: sbc(old(self).a, old(self).p, operand).1,
                ..*old(self)
            }),
    {
        let a = self.a;
        let decimal = self.p & 0x08 != 0;
        let c: u16 = if self.p & 0x01 != 0 {
            1
        } else {
            0
        };
        let diff = a as u16 + (255 - operand) as u16 + c;
        let result = (diff % 256) as u8;
        self.set_flag(StatusFlag::C, diff > 0xFF);
        self.set_flag(
            StatusFlag::V,
            (a >= 128) != (operand >= 128) && (a >= 128) != (result >= 128),
        );
        self.set_nz(result);
        if decimal {
            self.a = subtract_decimal(a, operand, c as u8);
        } else {
            self.a = result;
        }
    }

    /// Compare `register` with the operand: C, N and Z; no register changes.
    pub fn perform_compare(&mut self, register: u8, operand: u8)
        ensures
            *final(self) == (M6502 { p: compare(old(self).p, register, operand), ..*old(self) }),
    {
        let result = register.wrapping_sub(operand);
        self.set_flag(StatusFlag::C, register >= operand);
        self.set_nz(result);
    }

    /// AND into A.
    pub fn perform_and(&mut self, operand: u8)
        ensures
            *final(self) == read_applied(*old(self), ReadOp::And, operand),
    {
        reveal(read_applied);
        self.a = self.a & operand;
        let a = self.a;
        self.set_nz(a);
    }

    /// OR into A.
    pub fn perform_ora(&mut self, operand: u8)
        ensures
            *final(self) == read_applied(*old(self), ReadOp::Ora, operand),
    {
        reveal(read_applied);
        self.a = self.a | operand;
        let a = self.a;
        self.set_nz(a);
    }

    /// Exclusive OR into A.
    pub fn perform_eor(&mut self, operand: u8)
        ensures
            *final(self) == read_applied(*old(self), ReadOp::Eor, operand),
    {
        reveal(read_applied);
        self.a = self.a ^ operand;
        let a = self.a;
        self.set_nz(a);
    }

    /// BIT: N and V from the operand's top bits, Z from A AND the operand.
    pub fn perform_bit(&mut self, operand: u8)
        ensures
            *final(self) == read_applied(*old(self), ReadOp::Bit, operand),
    {
        reveal(read_applied);
        self.set_flag(StatusFlag::N, operand >= 0x80);
        self.set_flag(StatusFlag::V, operand & 0x40 != 0);
        let z = self.a & operand == 0;
        self.set_flag(StatusFlag::Z, z);
    }

    /// ASL: shift left; C the old bit 7.
    pub fn perform_asl(&mut self, val: u8) -> (r: u8)
        ensures
            (r, *final(self)) == old(self).shifted(RmwOp::Asl, val),
    {
        let result = (val % 128) * 2;
        self.set_flags_shift(result, val >= 0x80);
        result
    }

    /// LSR: shift right; C the old bit 0, N cleared.
    pub fn perform_lsr(&mut self, val: u8) -> (r: u8)
        ensures
            (r, *final(self)) == old(self).shifted(RmwOp::Lsr, val),
    {
        let result = val / 2;
        self.set_flags_shift(result, val % 2 == 1);
        result
    }

    /// ROL: rotate left through the carry.
    pub fn perform_rol(&mut self, val: u8) -> (r: u8)
        ensures
            (r, *final(self)) == old(self).shifted(RmwOp::Rol, val),
    {
        let c: u8 = if self.p & 0x01 != 0 {
            1
        } else {
            0
        };
        let result = (val % 128) * 2 + c;
        self.set_flags_shift(result, val >= 0x80);
        result
    }

    /// ROR: rotate right through the carry.
    pub fn perform_ror(&mut self, val: u8) -> (r: u8)
        ensures
            (r, *final(self)) == old(self).shifted(RmwOp::Ror, val),
    {
        let c: u8 = if self.p & 0x01 != 0 {
            0x80
        } else {
            0
        };
        let result = val / 2 + c;
        self.set_flags_shift(result, val % 2 == 1);
        result
    }

    /// Apply a read operation to operand `v`.
    pub fn apply_read(&mut self, op: ReadOp, v: u8)
        ensures
            *final(self) == read_applied(*old(self), op, v),
    {
        reveal(read_applied);
        match op {
            ReadOp::Lda => {
                self.a = v;
                self.set_nz(v);
            },
            ReadOp::Ldx => {
                self.x = v;
                self.set_nz(v);
            },
            ReadOp::Ldy => {
                self.y = v;
                self.set_nz(v);
            },
            ReadOp::Adc => self.perform_adc(v),
            ReadOp::Sbc => self.perform_sbc(v),
            ReadOp::Cmp => {
                let a = self.a;
                self.perform_compare(a, v);
            },
            ReadOp::Cpx => {
                let x = self.x;
                self.perform_compare(x, v);
            },
            ReadOp::Cpy => {
                let y = self.y;
                self.perform_compare(y, v);
            },
            ReadOp::And => self.perform_and(v),
            ReadOp::Ora => self.perform_ora(v),
            ReadOp::Eor => self.perform_eor(v),
            ReadOp::Bit => self.perform_bit(v),
        }
    }

    /// Apply a read-modify-write operation to byte `v`, giving the byte to
    /// write back.
    pub fn apply_rmw(&mut self, op: RmwOp, v: u8) -> (r: u8)
        ensures
            (r, *final(self)) == old(self).shifted(op, v),
    {
        match op {
            RmwOp::Asl => self.perform_asl(v),
            RmwOp::Lsr => self.perform_lsr(v),
            RmwOp::Rol => self.perform_rol(v),
            RmwOp::Ror => self.perform_ror(v),
            RmwOp::Inc => {
                let result = v.wrapping_add(1);
                self.set_nz(result);
                result
            },
            RmwOp::Dec => {
                let result = v.wrapping_sub(1);
                self.set_nz(result);
                result
            },
        }
    }
}

/// Whether `v` holds two decimal digits.
pub open spec fn is_bcd(v: u8) -> bool {
    v % 16 <= 9 && v / 16 <= 9
}

/// The number two decimal digits stand for.
pub open spec fn bcd_value(v: u8) -> int {
    (v / 16) * 10 + v % 16
}

/// Setting or clearing one flag leaves every other flag as it was.
pub proof fn lemma_status_frame(p: u8, f: StatusFlag, g: StatusFlag, set: bool)
    ensures
        has_status(with_status(p, f, set), g) == if f == g { set } else { has_status(p, g) },
{
    let m = status_mask(f);
    let n = status_mask(g);
    assert(m == n <==> f == g);
    assert(((if set { p | m } else { p & !m }) & n != 0) == (if m == n { set } else { p & n != 0 }))
        by (bit_vector)
        requires
            m == 1 || m == 2 || m == 4 || m == 8 || m == 16 || m == 32 || m == 64 || m == 128,
            n == 1 || n == 2 || n == 4 || n == 8 || n == 16 || n == 32 || n == 64 || n == 128,
    ;
}

/// In binary mode SBC is ADC of the operand's complement, A + !M + C,
/// flags and all.
pub proof fn law_sbc_is_adc_of_complement(a: u8, p: u8, v: u8)
    requires
        !has_status(p, StatusFlag::D),
    ensures
        sbc(a, p, v) == adc(a, p, (255 - v) as u8),
{
}

proof fn lemma_decimal_sum(a: u8, v: u8, c: int)
    requires
        is_bcd(a),
        is_bcd(v),
        0 <= c <= 1,
    ensures
        ({
            let sum = decimal_sum(a, v, c).1;
            let total = bcd_value(a) + bcd_value(v) + c;
            &&& is_bcd((sum % 256) as u8)
            &&& bcd_value((sum % 256) as u8) == total % 100
            &&& (sum >= 0x100) == (total >= 100)
        }),
{
    let ah: int = (a / 16) as int;
    let al: int = (a % 16) as int;
    let vh: int = (v / 16) as int;
    let vl: int = (v % 16) as int;
    let al0 = al + vl + c;
    let lo: int = if al0 >= 10 { al0 - 10 } else { al0 };
    let k: int = if al0 >= 10 { 1 } else { 0 };
    let al1 = if al0 >= 10 { (al0 + 6) % 16 + 16 } else { al0 };
    assert(al1 == lo + 16 * k);
    let sum0 = decimal_sum(a, v, c).0;
    assert(sum0 == (ah + vh + k) * 16 + lo);
    let hd = ah + vh + k;
    let sum = decimal_sum(a, v, c).1;
    let r = (sum % 256) as u8;
    if hd >= 10 {
        assert(sum == (hd - 10) * 16 + lo + 256);
        assert(r == (hd - 10) * 16 + lo);
        assert(r / 16 == hd - 10);
    } else {
        assert(r == hd * 16 + lo);
        assert(r / 16 == hd);
    }
    assert(r % 16 == lo);
}

/// In decimal mode ADC of two packed-BCD bytes gives the BCD digits of
/// their sum with the carry, modulo 100, and C tells whether the sum
/// reached 100.
pub proof fn law_decimal_adc(a: u8, p: u8, v: u8)
    requires
        has_status(p, StatusFlag::D),
        is_bcd(a),
        is_bcd(v),
    ensures
        ({
            let sum = bcd_value(a) + bcd_value(v) + carry_in(p);
            &&& is_bcd(adc(a, p, v).0)
            &&& bcd_value(adc(a, p, v).0) == sum % 100
            &&& has_status(adc(a, p, v).1, StatusFlag::C) == (sum >= 100)
        }),
{
    let c = carry_in(p);
    lemma_decimal_sum(a, v, c);
    let sum0 = decimal_sum(a, v, c).0;
    let sum = decimal_sum(a, v, c).1;
    let n = (sum0 / 128) % 2 == 1;
    let p1 = with_status(p, StatusFlag::N, n);
    let p2 = with_status(p1, StatusFlag::V, (a >= 128) == (v >= 128) && n != (a >= 128));
    let p3 = with_status(p2, StatusFlag::C, sum >= 0x100);
    lemma_status_frame(p3, StatusFlag::Z, StatusFlag::C, (a + v + c) % 256 == 0);
    lemma_status_frame(p2, StatusFlag::C, StatusFlag::C, sum >= 0x100);
}

/// In decimal mode SBC of two packed-BCD bytes leaves the BCD digits of
/// their difference less the borrow, modulo 100, in A.
pub proof fn law_decimal_sbc(a: u8, p: u8, v: u8)
    requires
        has_status(p, StatusFlag::D),
        is_bcd(a),
        is_bcd(v),
    ensures
        is_bcd(sbc(a, p, v).0),
        bcd_value(sbc(a, p, v).0) == (bcd_value(a) - bcd_value(v) - (1 - carry_in(p)) + 100) % 100,
{
    let c = carry_in(p);
    let ah: int = (a / 16) as int;
    let al: int = (a % 16) as int;
    let vh: int = (v / 16) as int;
    let vl: int = (v % 16) as int;
    let lo0 = al - vl - (1 - c);
    let lb = lo0 < 0;
    let lo = if lb { lo0 - 6 } else { lo0 };
    let dl: int = if lb { lo0 + 10 } else { lo0 };
    assert(lo % 16 == dl);
    let hi0 = ah - vh - (if lb { 1int } else { 0 });
    let hi = if hi0 < 0 { hi0 - 6 } else { hi0 };
    let dh: int = if hi0 < 0 { hi0 + 10 } else { hi0 };
    assert(hi % 16 == dh);
    let r = ((hi % 16) * 16 + lo % 16) as u8;
    assert(r == dh * 16 + dl);
    assert(r / 16 == dh);
    assert(r % 16 == dl);
    assert(sbc(a, p, v).0 == decimal_difference(a, v, c));
    assert(decimal_difference(a, v, c) == r);
}

} // verus!
