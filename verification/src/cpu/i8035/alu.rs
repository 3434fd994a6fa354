//! The 8035's accumulator operations.

use vstd::prelude::*;
use vstd::arithmetic::div_mod::lemma_fundamental_div_mod_converse;
use super::{I8035, PswFlag, has_flag, psw_mask, with_flag};

verus! {

/// Decimal adjust on A with the AC and CY flags as given: the low nibble
/// corrected first (+6 when above 9 or AC), then the high nibble checked on
/// the corrected value (+0x60 when above 9 or CY); the carry comes out set
/// when the second correction ran and is never cleared.
pub open spec fn decimal_adjust(a: u8, ac: bool, cy: bool) -> (u8, bool) {
    let a1: u8 = if a % 16 > 9 || ac {
        ((a + 6) % 256) as u8
    } else {
        a
    };
    if a1 / 16 * 16 > 0x90 || cy {
        (((a1 + 0x60) % 256) as u8, true)
    } else {
        (a1, cy)
    }
}

/// DA A on an accumulator and PSW: the adjusted A and the new carry.
pub open spec fn da_result(a: u8, psw: u8) -> (u8, bool) {
    decimal_adjust(a, has_flag(psw, PswFlag::AC), has_flag(psw, PswFlag::CY))
}

fn adjust_decimal(a: u8, ac: bool, cy: bool) -> (r: (u8, bool))
    ensures
        r == decimal_adjust(a, ac, cy),
{
    let a1: u8 = if a % 16 > 9 || ac {
        ((a as u16 + 6) % 256) as u8
    } else {
        a
    };
    if a1 / 16 * 16 > 0x90 || cy {
        (((a1 as u16 + 0x60) % 256) as u8, true)
    } else {
        (a1, cy)
    }
}

impl I8035 {
    /// ADD A, operand: CY on a carry out of bit 7, AC on one out of bit 3.
    pub fn perform_add(&mut self, operand: u8)
        ensures
            *final(self) == (I8035 {
                a: ((old(self).a + operand) % 256) as u8,
                psw: with_flag(
                    with_flag(old(self).psw, PswFlag::CY, old(self).a + operand > 0xFF),
                    PswFlag::AC,
                    old(self).a % 16 + operand % 16 > 0x0F,
                ),
                ..*old(self)
            }),
    {
        let a = self.a;
        let result16 = a as u16 + operand as u16;
        self.a = (result16 % 256) as u8;
        self.set_flag(PswFlag::CY, result16 > 0xFF);
        self.set_flag(PswFlag::AC, a % 16 + operand % 16 > 0x0F);
    }

    /// ADDC A, operand: ADD with the carry in.
    pub fn perform_addc(&mut self, operand: u8)
        ensures
            ({
                let c: int = if has_flag(old(self).psw, PswFlag::CY) { 1 } else { 0 };
                *final(self) == (I8035 {
                    a: ((old(self).a + operand + c) % 256) as u8,
                    psw: with_flag(
                        with_flag(old(self).psw, PswFlag::CY, old(self).a + operand + c > 0xFF),
                        PswFlag::AC,
                        old(self).a % 16 + operand % 16 + c > 0x0F,
                    ),
                    ..*old(self)
                })
            }),
    {
        let a = self.a;
        let carry: u16 = if self.flag_set(PswFlag::CY) {
            1
        } else {
            0
        };
        let result16 = a as u16 + operand as u16 + carry;
        self.a = (result16 % 256) as u8;
        self.set_flag(PswFlag::CY, result16 > 0xFF);
        self.set_flag(PswFlag::AC, a % 16 + operand % 16 + carry as u8 > 0x0F);
    }

    /// ANL A, operand. No flags.
    pub fn perform_anl(&mut self, operand: u8)
        ensures
            *final(self) == (I8035 { a: old(self).a & operand, ..*old(self) }),
    {
        self.a = self.a & operand;
    }

    /// ORL A, operand. No flags.
    pub fn perform_orl(&mut self, operand: u8)
        ensures
            *final(self) == (I8035 { a: old(self).a | operand, ..*old(self) }),
    {
        self.a = self.a | operand;
    }

    /// XRL A, operand. No flags.
    pub fn perform_xrl(&mut self, operand: u8)
        ensures
            *final(self) == (I8035 { a: old(self).a ^ operand, ..*old(self) }),
    {
        self.a = self.a ^ operand;
    }

    /// INC: one up, wrapping. No flags.
    pub fn perform_inc(val: u8) -> (r: u8)
        ensures
            r == (val + 1) % 256,
    {
        val.wrapping_add(1)
    }

    /// DEC: one down, wrapping. No flags.
    pub fn perform_dec(val: u8) -> (r: u8)
        ensures
            r == (val + 255) % 256,
    {
        val.wrapping_sub(1)
    }

    /// DA A: decimal adjust after a BCD addition.
    pub fn perform_da(&mut self)
        ensures
            *final(self) == (I8035 {
                a: da_result(old(self).a, old(self).psw).0,
                psw: with_flag(old(self).psw, PswFlag::CY, da_result(old(self).a, old(self).psw).1),
                ..*old(self)
            }),
    {
        let ac = self.flag_set(PswFlag::AC);
        let cy = self.flag_set(PswFlag::CY);
        let (a2, carry) = adjust_decimal(self.a, ac, cy);
        self.a = a2;
        self.set_flag(PswFlag::CY, carry);
    }

    /// CLR A.
    pub fn perform_clr_a(&mut self)
        ensures
            *final(self) == (I8035 { a: 0, ..*old(self) }),
    {
        self.a = 0;
    }

    /// CPL A: ones' complement.
    pub fn perform_cpl_a(&mut self)
        ensures
            *final(self) == (I8035 { a: (255 - old(self).a) as u8, ..*old(self) }),
    {
        self.a = 255 - self.a;
    }

    /// RL A: bit 7 wraps to bit 0. No flags.
    pub fn perform_rl(&mut self)
        ensures
            *final(self) == (I8035 {
                a: ((old(self).a * 2) % 256 + old(self).a / 128) as u8,
                ..*old(self)
            }),
    {
        self.a = (self.a % 128) * 2 + self.a / 128;
    }

    /// RLC A: through the carry; bit 7 to CY, CY to bit 0.
    pub fn perform_rlc(&mut self)
        ensures
            *final(self) == (I8035 {
                a: ((old(self).a * 2) % 256 + if has_flag(old(self).psw, PswFlag::CY) {
                    1int
                } else {
                    0
                }) as u8,
                psw: with_flag(old(self).psw, PswFlag::CY, old(self).a >= 0x80),
                ..*old(self)
            }),
    {
        let old_carry: u8 = if self.flag_set(PswFlag::CY) {
            1
        } else {
            0
        };
        let top = self.a >= 0x80;
        self.set_flag(PswFlag::CY, top);
        self.a = (self.a % 128) * 2 + old_carry;
    }

    /// RR A: bit 0 wraps to bit 7. No flags.
    pub fn perform_rr(&mut self)
        ensures
            *final(self) == (I8035 {
                a: (old(self).a / 2 + (old(self).a % 2) * 128) as u8,
                ..*old(self)
            }),
    {
        self.a = self.a / 2 + (self.a % 2) * 128;
    }

    /// RRC A: through the carry; bit 0 to CY, CY to bit 7.
    pub fn perform_rrc(&mut self)
        ensures
            *final(self) == (I8035 {
                a: (old(self).a / 2 + if has_flag(old(self).psw, PswFlag::CY) {
                    128int
                } else {
                    0
                }) as u8,
                psw: with_flag(old(self).psw, PswFlag::CY, old(self).a % 2 == 1),
                ..*old(self)
            }),
    {
        let old_carry: u8 = if self.flag_set(PswFlag::CY) {
            0x80
        } else {
            0
        };
        let low = self.a % 2 == 1;
        self.set_flag(PswFlag::CY, low);
        self.a = self.a / 2 + old_carry;
    }

    /// SWAP A: exchange the nibbles. No flags.
    pub fn perform_swap(&mut self)
        ensures
            *final(self) == (I8035 {
                a: ((old(self).a % 16) * 16 + old(self).a / 16) as u8,
                ..*old(self)
            }),
    {
        self.a = (self.a % 16) * 16 + self.a / 16;
    }
}

/// Rotating left and then right (or right and then left) gives A back, and
/// so does swapping the nibbles twice.
pub proof fn law_rotations_undo(a: u8)
    ensures
        ({
            let l = ((a * 2) % 256 + a / 128) as u8;
            (l / 2 + (l % 2) * 128) as u8 == a
        }),
        ({
            let r = (a / 2 + (a % 2) * 128) as u8;
            ((r * 2) % 256 + r / 128) as u8 == a
        }),
        ({
            let w = ((a % 16) * 16 + a / 16) as u8;
            ((w % 16) * 16 + w / 16) as u8 == a
        }),
{
    let hb: int = (a / 128) as int;
    let rest: int = (a % 128) as int;
    lemma_fundamental_div_mod_converse(a * 2, 256, hb, 2 * rest);
    let l: int = 2 * rest + hb;
    lemma_fundamental_div_mod_converse(l, 2, rest, hb);
    let q: int = (a / 2) as int;
    let b0: int = (a % 2) as int;
    let r: int = q + b0 * 128;
    lemma_fundamental_div_mod_converse(r * 2, 256, b0, 2 * q);
    lemma_fundamental_div_mod_converse(r, 128, b0, q);
    let w: int = (a % 16) * 16 + a / 16;
    lemma_fundamental_div_mod_converse(w, 16, (a % 16) as int, (a / 16) as int);
}

/// Setting or clearing one PSW flag leaves every other flag as it was.
pub proof fn lemma_flag_frame(psw: u8, f: PswFlag, g: PswFlag, set: bool)
    ensures
        has_flag(with_flag(psw, f, set), g) == if f == g { set } else { has_flag(psw, g) },
{
    let m = psw_mask(f);
    let n = psw_mask(g);
    assert(m == n <==> f == g);
    assert(((if set { psw | m } else { psw & !m }) & n != 0) == (if m == n { set } else { psw & n != 0 }))
        by (bit_vector)
        requires
            m == 0x80 || m == 0x40 || m == 0x20 || m == 0x10,
            n == 0x80 || n == 0x40 || n == 0x20 || n == 0x10,
    ;
}

/// DA can set the carry but never clears it.
pub proof fn law_da_never_clears_carry(a: u8, psw: u8)
    requires
        has_flag(psw, PswFlag::CY),
    ensures
        da_result(a, psw).1,
{
}

/// Whether `v` holds two decimal digits.
pub open spec fn is_bcd(v: u8) -> bool {
    v % 16 <= 9 && v / 16 <= 9
}

/// The number two decimal digits stand for.
pub open spec fn bcd_value(v: u8) -> int {
    (v / 16) * 10 + v % 16
}

#[verifier::spinoff_prover]
#[verifier::rlimit(60)]
proof fn lemma_adjusted_sum(a: u8, v: u8)
    requires
        is_bcd(a),
        is_bcd(v),
        !(250 <= a + v <= 255),
    ensures
        ({
            let d = decimal_adjust(((a + v) % 256) as u8, a % 16 + v % 16 > 0x0F, a + v > 0xFF);
            let total = bcd_value(a) + bcd_value(v);
            &&& is_bcd(d.0)
            &&& bcd_value(d.0) == total % 100
            &&& d.1 == (total >= 100)
        }),
{
    let ah: int = (a / 16) as int;
    let al: int = (a % 16) as int;
    let vh: int = (v / 16) as int;
    let vl: int = (v % 16) as int;
    let lo0 = al + vl;
    let k: int = if lo0 >= 10 { 1 } else { 0 };
    let lo = lo0 - 10 * k;
    let hd = ah + vh + k;
    let x: int = a + v;
    assert(x == 16 * (ah + vh) + lo0);
    let w: int = if x >= 256 { 1 } else { 0 };
    let sum: int = x - 256 * w;
    lemma_fundamental_div_mod_converse(x, 256, w, sum);
    let t: int = if lo0 >= 16 { 1 } else { 0 };
    lemma_fundamental_div_mod_converse(sum, 16, ah + vh - 16 * w + t, lo0 - 16 * t);
    let ac = a % 16 + v % 16 > 0x0F;
    assert((sum % 16 > 9 || ac) == (k == 1));
    let s8 = (x % 256) as u8;
    assert(s8 == sum);
    let a1: u8 = if s8 % 16 > 9 || ac { ((s8 + 6) % 256) as u8 } else { s8 };
    if hd <= 15 {
        assert(w == 0);
        if k == 1 {
            lemma_fundamental_div_mod_converse(sum + 6, 256, 0, 16 * hd + lo);
        }
        assert(a1 == 16 * hd + lo);
        lemma_fundamental_div_mod_converse(a1 as int, 16, hd, lo);
        if hd >= 10 {
            lemma_fundamental_div_mod_converse(a1 + 0x60, 256, 1, 16 * (hd - 10) + lo);
            lemma_fundamental_div_mod_converse(16 * (hd - 10) + lo, 16, hd - 10, lo);
        }
    } else {
        assert(w == 1);
        if k == 1 {
            lemma_fundamental_div_mod_converse(sum + 6, 256, 0, 16 * (hd - 16) + lo);
        }
        assert(a1 == 16 * (hd - 16) + lo);
        lemma_fundamental_div_mod_converse(a1 + 0x60, 256, 0, 16 * (hd - 10) + lo);
        lemma_fundamental_div_mod_converse(16 * (hd - 10) + lo, 16, hd - 10, lo);
    }
}

/// ADD then DA on two packed-BCD bytes leaves the BCD digits of their sum
/// modulo 100 in A, and the carry set exactly when the sum reached 100,
/// for every pair whose binary sum lies outside 0xFA..=0xFF.
pub proof fn law_add_then_da(a: u8, psw: u8, v: u8)
    requires
        is_bcd(a),
        is_bcd(v),
        !(250 <= a + v <= 255),
    ensures
        ({
            let sum = ((a + v) % 256) as u8;
            let psw1 = with_flag(
                with_flag(psw, PswFlag::CY, a + v > 0xFF),
                PswFlag::AC,
                a % 16 + v % 16 > 0x0F,
            );
            let total = bcd_value(a) + bcd_value(v);
            &&& is_bcd(da_result(sum, psw1).0)
            &&& bcd_value(da_result(sum, psw1).0) == total % 100
            &&& da_result(sum, psw1).1 == (total >= 100)
        }),
{
    let cy = a + v > 0xFF;
    let ac = a % 16 + v % 16 > 0x0F;
    let psw0 = with_flag(psw, PswFlag::CY, cy);
    lemma_flag_frame(psw0, PswFlag::AC, PswFlag::AC, ac);
    lemma_flag_frame(psw0, PswFlag::AC, PswFlag::CY, ac);
    lemma_flag_frame(psw, PswFlag::CY, PswFlag::CY, cy);
    lemma_adjusted_sum(a, v);
}

} // verus!
