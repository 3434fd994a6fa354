//! The 8088 FLAGS register.
//!
//! Bit layout: CF=0, PF=2, AF=4, ZF=6, SF=7, TF=8, IF=9, DF=10, OF=11.
//! Bits 1 and 12-15 always read as one; bits 3 and 5 always read as zero.

use vstd::prelude::*;

verus! {

/// One flag of the FLAGS register.
#[derive(Copy, Clone, Debug, PartialEq, Eq)]
pub enum Flag {
    CF,
    PF,
    AF,
    ZF,
    SF,
    TF,
    IF,
    DF,
    OF,
}

/// The bit that `flag` occupies.
pub open spec fn mask(flag: Flag) -> u16 {
    match flag {
        Flag::CF => 0x0001,
        Flag::PF => 0x0004,
        Flag::AF => 0x0010,
        Flag::ZF => 0x0040,
        Flag::SF => 0x0080,
        Flag::TF => 0x0100,
        Flag::IF => 0x0200,
        Flag::DF => 0x0400,
        Flag::OF => 0x0800,
    }
}

/// Whether `flag` is set in `flags`.
pub open spec fn is_set(flags: u16, flag: Flag) -> bool {
    flags & mask(flag) != 0
}

/// `flags` with `flag` forced to `value` and every other bit kept.
pub open spec fn with(flags: u16, flag: Flag, value: bool) -> u16 {
    if value {
        flags | mask(flag)
    } else {
        flags & !mask(flag)
    }
}

/// Even parity of a byte: an even number of its eight bits are one.
pub open spec fn parity_even(b: u8) -> bool {
    ((b & 1) ^ ((b >> 1) & 1) ^ ((b >> 2) & 1) ^ ((b >> 3) & 1) ^ ((b >> 4) & 1) ^ ((b >> 5) & 1)
        ^ ((b >> 6) & 1) ^ ((b >> 7) & 1)) == 0
}

/// The six status flags replaced, every control bit and fixed bit kept.
pub open spec fn status(
    flags: u16,
    cf: bool,
    pf: bool,
    af: bool,
    zf: bool,
    sf: bool,
    of: bool,
) -> u16 {
    (flags & 0xF72A) | (if cf { 0x0001u16 } else { 0 }) | (if pf { 0x0004u16 } else { 0 }) | (if af {
        0x0010u16
    } else {
        0
    }) | (if zf { 0x0040u16 } else { 0 }) | (if sf { 0x0080u16 } else { 0 }) | (if of {
        0x0800u16
    } else {
        0
    })
}

/// The canonical form of a FLAGS value: the always-one bits set, the
/// always-zero bits clear.
pub open spec fn normal(flags: u16) -> u16 {
    (flags & 0x0FD5) | 0xF002
}

/// Read one flag.
pub fn get(flags: u16, flag: Flag) -> (r: bool)
    ensures
        r == is_set(flags, flag),
{
    let m: u16 = match flag {
        Flag::CF => 0x0001,
        Flag::PF => 0x0004,
        Flag::AF => 0x0010,
        Flag::ZF => 0x0040,
        Flag::SF => 0x0080,
        Flag::TF => 0x0100,
        Flag::IF => 0x0200,
        Flag::DF => 0x0400,
        Flag::OF => 0x0800,
    };
    flags & m != 0
}

/// Force one flag to `value`, leaving every other bit alone.
pub fn set(flags: &mut u16, flag: Flag, value: bool)
    ensures
        *final(flags) == with(*old(flags), flag, value),
{
    let m: u16 = match flag {
        Flag::CF => 0x0001,
        Flag::PF => 0x0004,
        Flag::AF => 0x0010,
        Flag::ZF => 0x0040,
        Flag::SF => 0x0080,
        Flag::TF => 0x0100,
        Flag::IF => 0x0200,
        Flag::DF => 0x0400,
        Flag::OF => 0x0800,
    };
    if value {
        *flags = *flags | m;
    } else {
        *flags = *flags & !m;
    }
}

/// Even parity of `b`, computed by folding its bits together.
pub fn parity(b: u8) -> (even: bool)
    ensures
        even == parity_even(b),
{
    let p = b ^ (b >> 4u8);
    let p = p ^ (p >> 2u8);
    let p = p ^ (p >> 1u8);
    assert((((b ^ (b >> 4u8)) ^ ((b ^ (b >> 4u8)) >> 2u8)) ^ (((b ^ (b >> 4u8)) ^ ((b ^ (b >> 4u8))
        >> 2u8)) >> 1u8)) & 1 == 0 <==> parity_even(b)) by (bit_vector);
    p & 1 == 0
}

/// Set SF, ZF and PF from an 8-bit result.
pub fn update_szp8(flags: &mut u16, result: u8)
    ensures
        *final(flags) == with(
            with(with(*old(flags), Flag::SF, result >= 0x80), Flag::ZF, result == 0),
            Flag::PF,
            parity_even(result),
        ),
{
    set(flags, Flag::SF, result >= 0x80);
    set(flags, Flag::ZF, result == 0);
    let p = parity(result);
    set(flags, Flag::PF, p);
}

/// Set SF, ZF and PF from a 16-bit result. Parity is of the low byte only.
pub fn update_szp16(flags: &mut u16, result: u16)
    ensures
        *final(flags) == with(
            with(with(*old(flags), Flag::SF, result >= 0x8000), Flag::ZF, result == 0),
            Flag::PF,
            parity_even((result % 256) as u8),
        ),
{
    set(flags, Flag::SF, result >= 0x8000);
    set(flags, Flag::ZF, result == 0);
    let p = parity((result % 256) as u8);
    set(flags, Flag::PF, p);
}

/// Force the always-one bits on and the always-zero bits off.
pub fn normalize(flags: u16) -> (r: u16)
    ensures
        r == normal(flags),
{
    (flags & 0x0FD5) | 0xF002
}

/// Setting CF, OF and AF and then SF, ZF and PF is replacing all six.
pub proof fn lemma_status(f: u16, cf: bool, of: bool, af: bool, sf: bool, zf: bool, pf: bool)
    ensures
        with(
            with(with(with(with(with(f, Flag::CF, cf), Flag::OF, of), Flag::AF, af), Flag::SF, sf),
            Flag::ZF, zf),
            Flag::PF,
            pf,
        ) == status(f, cf, pf, af, zf, sf, of),
{
    let a: u16 = if cf { f | 0x0001 } else { f & !0x0001u16 };
    let b: u16 = if of { a | 0x0800 } else { a & !0x0800u16 };
    let c: u16 = if af { b | 0x0010 } else { b & !0x0010u16 };
    let d: u16 = if sf { c | 0x0080 } else { c & !0x0080u16 };
    let e: u16 = if zf { d | 0x0040 } else { d & !0x0040u16 };
    let g: u16 = if pf { e | 0x0004 } else { e & !0x0004u16 };
    assert(g == (f & 0xF72A) | (if cf { 0x0001u16 } else { 0 }) | (if pf { 0x0004u16 } else { 0 })
        | (if af { 0x0010u16 } else { 0 }) | (if zf { 0x0040u16 } else { 0 }) | (if sf {
        0x0080u16
    } else {
        0
    }) | (if of { 0x0800u16 } else { 0 })) by (bit_vector)
        requires
            a == (if cf { f | 0x0001 } else { f & !0x0001u16 }),
            b == (if of { a | 0x0800 } else { a & !0x0800u16 }),
            c == (if af { b | 0x0010 } else { b & !0x0010u16 }),
            d == (if sf { c | 0x0080 } else { c & !0x0080u16 }),
            e == (if zf { d | 0x0040 } else { d & !0x0040u16 }),
            g == (if pf { e | 0x0004 } else { e & !0x0004u16 }),
    ;
}

/// Setting OF and AF and then SF, ZF and PF replaces five and keeps CF.
pub proof fn lemma_status_keep_cf(f: u16, of: bool, af: bool, sf: bool, zf: bool, pf: bool)
    ensures
        with(with(with(with(with(f, Flag::OF, of), Flag::AF, af), Flag::SF, sf), Flag::ZF, zf),
            Flag::PF, pf) == status(f, is_set(f, Flag::CF), pf, af, zf, sf, of),
{
    let b: u16 = if of { f | 0x0800 } else { f & !0x0800u16 };
    let c: u16 = if af { b | 0x0010 } else { b & !0x0010u16 };
    let d: u16 = if sf { c | 0x0080 } else { c & !0x0080u16 };
    let e: u16 = if zf { d | 0x0040 } else { d & !0x0040u16 };
    let g: u16 = if pf { e | 0x0004 } else { e & !0x0004u16 };
    assert(g == (f & 0xF72A) | (if f & 0x0001 != 0 { 0x0001u16 } else { 0 }) | (if pf {
        0x0004u16
    } else {
        0
    }) | (if af { 0x0010u16 } else { 0 }) | (if zf { 0x0040u16 } else { 0 }) | (if sf {
        0x0080u16
    } else {
        0
    }) | (if of { 0x0800u16 } else { 0 })) by (bit_vector)
        requires
            b == (if of { f | 0x0800 } else { f & !0x0800u16 }),
            c == (if af { b | 0x0010 } else { b & !0x0010u16 }),
            d == (if sf { c | 0x0080 } else { c & !0x0080u16 }),
            e == (if zf { d | 0x0040 } else { d & !0x0040u16 }),
            g == (if pf { e | 0x0004 } else { e & !0x0004u16 }),
    ;
}

/// Forcing a flag to the value it already has changes nothing.
pub proof fn lemma_set_same(f: u16, flag: Flag)
    ensures
        with(f, flag, is_set(f, flag)) == f,
{
    let m = mask(flag);
    assert((f & m != 0 ==> f | m == f) && (f & m == 0 ==> f & !m == f)) by (bit_vector)
        requires
            m == 0x0001 || m == 0x0004 || m == 0x0010 || m == 0x0040 || m == 0x0080 || m == 0x0100
                || m == 0x0200 || m == 0x0400 || m == 0x0800,
    ;
}

/// A status replacement reads back as what was written.
pub proof fn lemma_status_reads(f: u16, cf: bool, pf: bool, af: bool, zf: bool, sf: bool, of: bool)
    ensures
        is_set(status(f, cf, pf, af, zf, sf, of), Flag::CF) == cf,
        is_set(status(f, cf, pf, af, zf, sf, of), Flag::PF) == pf,
        is_set(status(f, cf, pf, af, zf, sf, of), Flag::AF) == af,
        is_set(status(f, cf, pf, af, zf, sf, of), Flag::ZF) == zf,
        is_set(status(f, cf, pf, af, zf, sf, of), Flag::SF) == sf,
        is_set(status(f, cf, pf, af, zf, sf, of), Flag::OF) == of,
        status(f, cf, pf, af, zf, sf, of) & 0xF72A == f & 0xF72A,
{
    let s = status(f, cf, pf, af, zf, sf, of);
    assert({
        &&& (s & 0x0001 != 0 <==> cf)
        &&& (s & 0x0004 != 0 <==> pf)
        &&& (s & 0x0010 != 0 <==> af)
        &&& (s & 0x0040 != 0 <==> zf)
        &&& (s & 0x0080 != 0 <==> sf)
        &&& (s & 0x0800 != 0 <==> of)
        &&& s & 0xF72A == f & 0xF72A
    }) by (bit_vector)
        requires
            s == status(f, cf, pf, af, zf, sf, of),
    ;
}

} // verus!
