//! How long the execution unit spends on an instruction, excluding its bus.
//!
//! Every row is the EU's own time: the documented clock count of Intel's
//! instruction set reference (Table 1-16) less four clocks for each byte the
//! instruction transfers, which the pipeline spends itself. The EU's time does
//! not depend on operand width, so the byte and word forms of one operation
//! come out the same. The control transfers are measured rather than
//! transcribed, and the multiplies and divides are counted off the
//! co-routines their microcode runs.
//!
//! An opcode with no row is charged nothing: `eu_cycles` returning zero means
//! "not modeled here", and `is_modeled` tells that apart from "free".

use vstd::prelude::*;
use vstd::arithmetic::power2::{pow2, lemma2_to64, lemma_pow2_strictly_increases, lemma_pow2_pos};
use super::RepPrefix;
use super::access::{access_of, operand_access};
use super::format::{format_of, format_spec, disp_len, imm_len};

verus! {

/// The ModR/M `mod` field says the operand is in memory.
pub open spec fn is_mem(modrm: u8) -> bool {
    modrm / 64 != 3
}

/// The ModR/M `reg` field.
pub open spec fn reg_field(modrm: u8) -> u8 {
    (modrm / 8) % 8
}

/// The EU's clocks for `opcode` in the form `modrm` selects, beyond its bus
/// cycles and its effective address; zero where a routine or nothing prices
/// it.
pub open spec fn eu_row(opcode: u8, modrm: u8) -> u8 {
    let reg = reg_field(modrm);
    if opcode == 0x0F {
        4
    } else if opcode == 0x27 || opcode == 0x2F {
        4
    } else if opcode <= 0x3F {
        0
    } else if 0x90 <= opcode <= 0x97 {
        3
    } else if opcode == 0x98 {
        2
    } else if opcode == 0x9E {
        4
    } else if opcode == 0x9F {
        2
    } else if opcode == 0xF5 || 0xF8 <= opcode <= 0xFD {
        2
    } else if 0x40 <= opcode <= 0x4F {
        2
    } else if opcode == 0xFF && reg == 3 {
        if is_mem(modrm) { 0 } else { 16 }
    } else if opcode == 0xFF && reg == 5 {
        if is_mem(modrm) { 0 } else { 10 }
    } else {
        0
    }
}

/// Clocks the EU spends on `opcode`, beyond its bus cycles and its
/// effective-address calculation. `modrm` selects the form: memory or
/// register operand, and the operation inside a group.
pub fn eu_cycles(opcode: u8, modrm: u8) -> (r: u8)
    ensures
        r == eu_row(opcode, modrm),
{
    let is_mem = modrm / 64 != 3;
    let reg = (modrm / 8) % 8;
    match opcode {
        0x0F => 8 - 4,
        0x27 | 0x2F => 4,
        0x00..=0x3F => 0,
        0x90..=0x97 => 3,
        0x98 => 2,
        0x9E => 4,
        0x9F => 2,
        0xF5 | 0xF8..=0xFD => 2,
        0xF6 | 0xF7 => 0,
        0x40..=0x4F => 2,
        0xFE => 0,
        0xFF => match reg {
            3 => if is_mem {
                0
            } else {
                16
            },
            5 => if is_mem {
                0
            } else {
                10
            },
            _ => 0,
        },
        _ => 0,
    }
}

/// The clocks of an instruction whose microcode branches on the state.
pub open spec fn branch_row(opcode: u8, taken: bool) -> u8 {
    if opcode == 0x37 || opcode == 0x3F {
        if taken { 8 } else { 9 }
    } else if opcode == 0x99 {
        if taken { 6 } else { 5 }
    } else if opcode == 0xD6 {
        if taken { 4 } else { 3 }
    } else {
        0
    }
}

/// Clocks an instruction spends when its microcode branches on the state:
/// AAA and AAS (`taken` is the adjust, and adjusting is the shorter path),
/// CWD (`taken` is AX negative) and SALC (`taken` is carry). The conditional
/// transfers run routines and have no row here.
pub fn branch_cycles(opcode: u8, taken: bool) -> (r: u8)
    ensures
        r == branch_row(opcode, taken),
{
    match opcode {
        0x37 | 0x3F => if taken {
            8
        } else {
            9
        },
        0x99 => if taken {
            6
        } else {
            5
        },
        0xD6 => if taken {
            4
        } else {
            3
        },
        _ => 0,
    }
}

/// The opcodes whose microcode branches on the state.
pub open spec fn branches(opcode: u8) -> bool {
    opcode == 0x37 || opcode == 0x3F || 0x60 <= opcode <= 0x7F || opcode == 0x99 || opcode
        == 0xCE || opcode == 0xD6 || 0xE0 <= opcode <= 0xE3
}

/// Whether `opcode`'s microcode branches on the state, so that
/// `branch_cycles` gives its cost instead of `eu_cycles`.
pub fn branches_on_state(opcode: u8) -> (r: bool)
    ensures
        r == branches(opcode),
{
    opcode == 0x37 || opcode == 0x3F || (opcode >= 0x60 && opcode <= 0x7F) || opcode == 0x99
        || opcode == 0xCE || opcode == 0xD6 || (opcode >= 0xE0 && opcode <= 0xE3)
}

/// The opcodes that can redirect the instruction stream.
pub open spec fn may_flush(opcode: u8) -> bool {
    ||| 0x60 <= opcode <= 0x7F
    ||| opcode == 0x9A
    ||| 0xC0 <= opcode <= 0xC3
    ||| 0xC8 <= opcode <= 0xCF
    ||| 0xE0 <= opcode <= 0xE3
    ||| 0xE8 <= opcode <= 0xEB
    ||| opcode == 0xFF
}

/// Whether `opcode` can redirect the instruction stream, and so may throw
/// the prefetch queue away. Conservative: the conditional forms count
/// whether or not they branch.
pub fn may_flush_the_queue(opcode: u8) -> (r: bool)
    ensures
        r == may_flush(opcode),
{
    (opcode >= 0x60 && opcode <= 0x7F) || opcode == 0x9A || (opcode >= 0xC0 && opcode <= 0xC3)
        || (opcode >= 0xC8 && opcode <= 0xCF) || (opcode >= 0xE0 && opcode <= 0xE3) || (opcode
        >= 0xE8 && opcode <= 0xEB) || opcode == 0xFF
}

/// Whether this instruction will redirect the stream: the group opcodes by
/// their reg field (CALL, CALLF, JMP, JMPF are 2 through 5), the others when
/// they may and `taken` says they do.
pub fn will_transfer(opcode: u8, modrm: u8, taken: bool) -> (r: bool)
    ensures
        r == if opcode == 0xFF || opcode == 0xFE {
            2 <= reg_field(modrm) <= 5
        } else {
            may_flush(opcode) && taken
        },
{
    match opcode {
        0xFF | 0xFE => {
            let reg = (modrm / 8) % 8;
            reg >= 2 && reg <= 5
        },
        _ => may_flush_the_queue(opcode) && taken,
    }
}

/// Where in an instruction the loader stops for a T-state, and for how long.
#[derive(Debug, Clone, Copy, PartialEq, Eq, Structural)]
pub enum LoaderStall {
    /// The loader runs flat out, a byte per T-state.
    NoStall,
    /// It pauses after the opcode byte, before the byte behind it.
    AfterOpcode(u8),
    /// It pauses after the ModR/M byte of a memory form, before the
    /// displacement.
    BeforeDisplacement(u8),
}

/// The T-states a stall spends.
pub open spec fn stall_clocks(s: LoaderStall) -> u8 {
    match s {
        LoaderStall::NoStall => 0,
        LoaderStall::AfterOpcode(n) => n,
        LoaderStall::BeforeDisplacement(n) => n,
    }
}

impl LoaderStall {
    /// The T-states spent, wherever they are given back.
    pub fn clocks(self) -> (r: u8)
        ensures
            r == stall_clocks(self),
    {
        match self {
            LoaderStall::NoStall => 0,
            LoaderStall::AfterOpcode(n) => n,
            LoaderStall::BeforeDisplacement(n) => n,
        }
    }

    /// The part the microcode gives back: all of it, except a pause before a
    /// displacement, which the effective address gives back instead.
    pub fn charged_to_microcode(self) -> (r: u8)
        ensures
            r == match self {
                LoaderStall::BeforeDisplacement(_) => 0,
                _ => stall_clocks(self),
            },
    {
        match self {
            LoaderStall::BeforeDisplacement(_) => 0,
            other => other.clocks(),
        }
    }
}

/// The pause before an immediate the loader defers past a memory operand.
pub open spec fn deferred_stall(opcode: u8, modrm: u8) -> u8 {
    let f = format_spec(opcode);
    if !(f.modrm && is_mem(modrm) && imm_len(f.imm, Some(modrm)) > 0) {
        0
    } else if access_of(opcode, modrm).reads {
        1
    } else {
        2
    }
}

/// The pause before a deferred immediate, the one belonging to a memory form:
/// one T-state when the operand was read (only the address routine's return
/// stands in front), two when it is only written.
pub fn deferred_immediate_stall(opcode: u8, modrm: u8) -> (r: u8)
    ensures
        r == deferred_stall(opcode, modrm),
{
    let f = format_of(opcode);
    if !(f.modrm && modrm / 64 != 3 && f.imm.len(Some(modrm)) > 0) {
        return 0;
    }
    if operand_access(opcode, modrm).reads {
        1
    } else {
        2
    }
}

/// Where and how long the loader pauses for an instruction.
pub open spec fn stall_of(opcode: u8, modrm: u8) -> LoaderStall {
    let f = format_spec(opcode);
    if !f.modrm {
        if imm_len(f.imm, None) == 0 {
            LoaderStall::NoStall
        } else if 0xE0 <= opcode <= 0xE3 {
            LoaderStall::AfterOpcode(2)
        } else {
            LoaderStall::NoStall
        }
    } else if disp_len(modrm) > 0 {
        let rm = modrm % 8;
        let gap: u8 = if modrm / 64 == 0 && rm == 6 {
            2
        } else if rm == 0 || rm == 3 {
            6
        } else if rm == 1 || rm == 2 {
            7
        } else {
            4
        };
        LoaderStall::BeforeDisplacement((gap - 1) as u8)
    } else {
        LoaderStall::NoStall
    }
}

/// Where the loader stops for a T-state, and for how long: the loop forms
/// pause two after the opcode, and every memory form with a displacement
/// pauses before it for the address arithmetic on its registers.
pub fn loader_stall(opcode: u8, modrm: u8) -> (r: LoaderStall)
    ensures
        r == stall_of(opcode, modrm),
{
    let f = format_of(opcode);
    if !f.modrm {
        if f.imm.len(None) == 0 {
            return LoaderStall::NoStall;
        }
        return match opcode {
            0xE0..=0xE3 => LoaderStall::AfterOpcode(2),
            _ => LoaderStall::NoStall,
        };
    }
    if super::format::displacement_len(modrm) > 0 {
        let rm = modrm % 8;
        let gap: u8 = if modrm / 64 == 0 && rm == 6 {
            2
        } else if rm == 0 || rm == 3 {
            6
        } else if rm == 1 || rm == 2 {
            7
        } else {
            4
        };
        return LoaderStall::BeforeDisplacement(gap - 1);
    }
    LoaderStall::NoStall
}

/// Whether `opcode` is one of the conditional transfers: the conditional
/// jumps, INTO and the loops.
pub fn is_conditional_transfer(opcode: u8) -> (r: bool)
    ensures
        r == (0x60 <= opcode <= 0x7F || opcode == 0xCE || 0xE0 <= opcode <= 0xE3),
{
    (opcode >= 0x60 && opcode <= 0x7F) || opcode == 0xCE || (opcode >= 0xE0 && opcode <= 0xE3)
}

/// The number of one bits in `x`.
pub open spec fn popcount(x: nat) -> nat
    decreases x,
{
    if x == 0 {
        0
    } else {
        x % 2 + popcount(x / 2)
    }
}

/// The number of one bits in a word.
pub fn count_ones16(x: u16) -> (r: u32)
    ensures
        r == popcount(x as nat),
        r <= 16,
{
    proof {
        lemma2_to64();
        lemma_popcount_bound(x as nat, 16);
    }
    let mut v = x;
    let mut n: u32 = 0;
    while v > 0
        invariant
            n + popcount(v as nat) == popcount(x as nat),
            popcount(x as nat) <= 16,
        decreases v,
    {
        proof {
            lemma_popcount_step(v as nat);
        }
        n = n + (v % 2) as u32;
        v = v / 2;
    }
    n
}

/// `2^(k+1)` is twice `2^k`.
proof fn lemma_pow2_double(k: nat)
    ensures
        pow2(k + 1) == 2 * pow2(k),
{
    vstd::arithmetic::power2::lemma_pow2_unfold(k + 1);
}

/// One step of `popcount`.
proof fn lemma_popcount_step(x: nat)
    requires
        x > 0,
    ensures
        popcount(x) == x % 2 + popcount(x / 2),
{
}

/// A `CORD` pass: `(a, c, qbit, compared)` and the divisor, for an operand
/// `p` states wide (`p` a power of two).
pub open spec fn cord_pass(s: (int, int, int, int), divisor: int, p: int) -> (int, int, int, int) {
    let (a, c, q, n) = s;
    let top = p / 2;
    let a2 = (a * 2) % p + if c >= top { 1int } else { 0 };
    let c2 = (c * 2) % p + q;
    if a >= top {
        ((a2 + p - divisor % p) % p, c2, 1, n)
    } else if a2 >= divisor {
        (a2 - divisor, c2, 1, n + 1)
    } else {
        (a2, c2, 0, n)
    }
}

/// `CORD`'s state after `k` passes over `dividend`.
pub open spec fn cord_passes(dividend: int, divisor: int, p: int, k: nat) -> (int, int, int, int)
    decreases k,
{
    if k == 0 {
        ((dividend / p) % p, dividend % p, 0, 0)
    } else {
        cord_pass(cord_passes(dividend, divisor, p, (k - 1) as nat), divisor, p)
    }
}

/// What the long division's cost depends on: how many passes compared before
/// subtracting, and whether the last pass set its quotient bit.
pub open spec fn cord_result(dividend: u32, divisor: u32, width: u32) -> (u16, bool) {
    let s = cord_passes(dividend as int, divisor as int, pow2(width as nat) as int, width as nat);
    (s.3 as u16, s.2 == 1)
}

/// The bounds a `CORD` pass keeps.
proof fn lemma_cord_bounds(dividend: int, divisor: int, p: int, k: nat)
    requires
        p >= 2,
        p % 2 == 0,
        dividend >= 0,
        divisor >= 0,
    ensures
        0 <= cord_passes(dividend, divisor, p, k).0 < p,
        0 <= cord_passes(dividend, divisor, p, k).1 <= p,
        0 <= cord_passes(dividend, divisor, p, k).2 <= 1,
        0 <= cord_passes(dividend, divisor, p, k).3 <= k,
    decreases k,
{
    if k > 0 {
        lemma_cord_bounds(dividend, divisor, p, (k - 1) as nat);
        let s = cord_passes(dividend, divisor, p, (k - 1) as nat);
        let top = p / 2;
        assert(top * 2 == p);
        if s.0 < top {
            vstd::arithmetic::div_mod::lemma_small_mod((s.0 * 2) as nat, p as nat);
        }
    } else {
        assert(0 <= (dividend / p) % p < p);
        assert(0 <= dividend % p < p);
    }
}

/// Step the microcode's long division and report what its cost depends on:
/// how many passes compared before subtracting, and whether the last pass
/// set its quotient bit. Shared by `DIV` and `AAM`, which run the same `CORD`.
pub fn cord(dividend: u32, divisor: u32, width: u32) -> (r: (u16, bool))
    requires
        1 <= width <= 31,
    ensures
        r == cord_result(dividend, divisor, width),
{
    proof {
        lemma2_to64();
        if width < 31 {
            lemma_pow2_strictly_increases(width as nat, 31);
        }
        vstd::bits::lemma_u64_shl_is_mul(1, width as u64);
        vstd::arithmetic::power2::lemma_pow2_unfold(width as nat);
    }
    let p: u64 = 1u64 << (width as u64);
    let top: u64 = p / 2;
    let d: u64 = dividend as u64;
    let dv: u64 = divisor as u64;
    let mut a: u64 = (d / p) % p;
    let mut c: u64 = d % p;
    let mut qbit: u64 = 0;
    let mut compared: u16 = 0;
    let mut i: u32 = 0;
    let ghost pp = p as int;
    while i < width
        invariant
            1 <= width <= 31,
            pp == p,
            p == pow2(width as nat),
            2 <= p <= 0x8000_0000,
            p % 2 == 0,
            top == p / 2,
            d == dividend,
            dv == divisor,
            i <= width,
            (a as int, c as int, qbit as int, compared as int) == cord_passes(
                d as int,
                dv as int,
                pp,
                i as nat,
            ),
        decreases width - i,
    {
        proof {
            lemma_cord_bounds(d as int, dv as int, pp, i as nat);
        }
        let carry_out = a >= top;
        let a2 = (a * 2) % p + if c >= top {
            1
        } else {
            0
        };
        let c2 = (c * 2) % p + qbit;
        if carry_out {
            a = (a2 + p - dv % p) % p;
            qbit = 1;
        } else if a2 >= dv {
            compared = compared + 1;
            a = a2 - dv;
            qbit = 1;
        } else {
            a = a2;
            qbit = 0;
        }
        c = c2;
        i = i + 1;
    }
    (compared, qbit == 1)
}

/// Clocks the `CORX` multiply co-routine spends, for an operand `width` bits
/// wide whose multiplier has `bits` of them set: five a pass, a sixth for a
/// set bit, one short of the width in jumps back, and four at the ends.
pub fn corx_cycles(width: u16, bits: u32) -> (r: u16)
    requires
        6 * width + bits % 65536 + 3 <= 65535,
    ensures
        r == 6 * width + bits % 65536 + 3,
{
    6 * width + (bits % 65536) as u16 + 3
}

/// What `cord_cycles` gives: `None` when the divide faults before the loop.
pub open spec fn cord_clocks(dividend: u32, divisor: u32, width: u32) -> Option<u16> {
    if divisor == 0 || dividend as int / (pow2(width as nat) as int) >= divisor {
        None
    } else {
        let (compared, last) = cord_result(dividend, divisor, width);
        Some((8 * width + compared + 2 * (if last { 1int } else { 0 }) + 6) as u16)
    }
}

/// Clocks the `CORD` divide co-routine spends, or `None` when the operands
/// fault before the loop (a zero divisor, or a high half already at least
/// the divisor): `8 * width + compared + 2 * (last pass subtracted) + 6`.
pub fn cord_cycles(dividend: u32, divisor: u32, width: u32) -> (r: Option<u16>)
    requires
        1 <= width <= 31,
    ensures
        r == cord_clocks(dividend, divisor, width),
{
    proof {
        vstd::bits::lemma_u32_shr_is_div(dividend, width);
    }
    if divisor == 0 || (dividend >> width) >= divisor {
        return None;
    }
    let (compared, last_bit) = cord(dividend, divisor, width);
    proof {
        lemma2_to64();
        if width < 31 {
            lemma_pow2_strictly_increases(width as nat, 31);
        }
        lemma_cord_bounds(
            dividend as int,
            divisor as int,
            pow2(width as nat) as int,
            width as nat,
        );
        vstd::arithmetic::power2::lemma_pow2_unfold(width as nat);
    }
    let last: u16 = if last_bit {
        1
    } else {
        0
    };
    Some(8 * (width as u16) + compared + 2 * last + 6)
}

/// What a multiply or divide's co-routine costs, and whether the instruction
/// produced an answer or left for `INT 0`.
#[derive(Clone, Copy, Debug, PartialEq, Eq, Structural)]
pub enum Loop {
    /// The clocks it spends, having produced an answer.
    Completed(u16),
    /// The clocks it spends before `INT 0`, `int0`'s own two included.
    Faulted(u16),
}

/// What `CORD` spends before leaving for `INT 0`.
pub const CORD_FAULT: u16 = 4;

/// What `POSTIDIV` spends before leaving for `INT 0`.
pub const POSTIDIV_FAULT: u16 = 2;

/// What `int0` spends reaching the interrupt routine.
pub const INT0_ENTRY: u16 = 2;

/// What a `DIV` costs.
pub open spec fn divide_loop(word: bool, dividend: u32, divisor: u32) -> Loop {
    match cord_clocks(dividend, divisor, if word { 16 } else { 8 }) {
        Some(c) => Loop::Completed((c + 8) as u16),
        None => Loop::Faulted(12),
    }
}

/// Clocks a `DIV` spends, and whether it divided: `CORD` plus the eight
/// clocks around it, or the twelve a fault spends reaching `INT 0`.
pub fn divide_routine_cycles(word: bool, dividend: u32, divisor: u32) -> (r: Loop)
    ensures
        r == divide_loop(word, dividend, divisor),
{
    let width: u32 = if word {
        16
    } else {
        8
    };
    match cord_cycles(dividend, divisor, width) {
        Some(c) => {
            proof {
                lemma_cord_clock_bound(dividend, divisor, width);
            }
            Loop::Completed(c + 8)
        },
        None => Loop::Faulted(1 + 3 + 2 + CORD_FAULT + INT0_ENTRY),
    }
}

/// A completed `CORD` spends at most `9 * width + 8` clocks.
proof fn lemma_cord_clock_bound(dividend: u32, divisor: u32, width: u32)
    requires
        1 <= width <= 31,
    ensures
        cord_clocks(dividend, divisor, width) matches Some(c) ==> c <= 9 * width + 8,
{
    lemma2_to64();
    if width < 31 {
        lemma_pow2_strictly_increases(width as nat, 31);
    }
    vstd::arithmetic::power2::lemma_pow2_unfold(width as nat);
    lemma_cord_bounds(dividend as int, divisor as int, pow2(width as nat) as int, width as nat);
}

/// What a `MUL` costs: `CORX` on the accumulator (AL alone for the byte
/// form), sixteen around it, and one more when the product's high half is
/// zero.
pub open spec fn multiply_clocks(word: bool, multiplier: u16, product_high_zero: bool) -> u16 {
    let (width, bits) = if word {
        (16int, popcount(multiplier as nat))
    } else {
        (8int, popcount((multiplier % 256) as nat))
    };
    (6 * width + bits + 3 + 16 + if product_high_zero { 1int } else { 0 }) as u16
}

/// Clocks a `MUL` spends. The byte form counts AL alone.
pub fn multiply_routine_cycles(word: bool, multiplier: u16, product_high_zero: bool) -> (r: u16)
    ensures
        r == multiply_clocks(word, multiplier, product_high_zero),
{
    let (width, bits) = if word {
        (16u16, count_ones16(multiplier))
    } else {
        (8u16, count_ones16(multiplier % 256))
    };
    let phz: u16 = if product_high_zero {
        1
    } else {
        0
    };
    corx_cycles(width, bits) + 16 + phz
}

/// What an `AAM` costs.
pub open spec fn aam_loop(al: u8, imm: u8) -> Loop {
    match cord_clocks(al as u32, imm as u32, 8) {
        Some(c) => Loop::Completed((c + 4) as u16),
        None => Loop::Faulted(9),
    }
}

/// Clocks `AAM` spends, and whether it divided: the same `CORD` `DIV` runs,
/// with AL over the immediate, and four clocks around it. A zero immediate
/// faults.
pub fn aam_routine_cycles(al: u8, imm: u8) -> (r: Loop)
    ensures
        r == aam_loop(al, imm),
{
    match cord_cycles(al as u32, imm as u32, 8) {
        Some(c) => {
            proof {
                lemma_cord_clock_bound(al as u32, imm as u32, 8);
            }
            Loop::Completed(c + 4)
        },
        None => Loop::Faulted(3 + CORD_FAULT + INT0_ENTRY),
    }
}

/// `|x|` for a 32-bit value.
pub open spec fn abs32(x: i32) -> int {
    if x < 0 { -x } else { x as int }
}

/// `|x|` for a 64-bit value.
pub open spec fn abs64(x: i64) -> int {
    if x < 0 { -x } else { x as int }
}

/// The magnitude of a 32-bit value.
pub fn magnitude32(x: i32) -> (r: u32)
    ensures
        r == abs32(x),
{
    if x < 0 {
        ((-(x + 1)) as u32) + 1
    } else {
        x as u32
    }
}

/// The magnitude of a 64-bit value.
pub fn magnitude64(x: i64) -> (r: u64)
    ensures
        r == abs64(x),
{
    if x < 0 {
        ((-(x + 1)) as u64) + 1
    } else {
        x as u64
    }
}

/// What an `IMUL` costs: `MUL` with `PREIMUL` in front (`10 + 2a - b` for the
/// accumulator's and the multiplicand's signs), `NEGATE` behind when exactly
/// one operand was negative, and one more when the product sign-extends.
pub open spec fn signed_multiply_clocks(
    word: bool,
    multiplicand: i32,
    multiplier: i32,
    product_sign_extends: bool,
) -> u16 {
    let m = abs32(multiplier);
    let (width, bits) = if word {
        (16int, popcount((m % 65536) as nat))
    } else {
        (8int, popcount((m % 256) as nat))
    };
    let a: int = if multiplier < 0 { 1 } else { 0 };
    let b: int = if multiplicand < 0 { 1 } else { 0 };
    let pre = 10 + 2 * a - b;
    let post: int = if a != b { 12 } else { 0 };
    (6 * width + bits + 3 + 16 + pre + post + if product_sign_extends { 1int } else { 0 }) as u16
}

/// Clocks `IMUL` spends.
pub fn signed_multiply_routine_cycles(
    word: bool,
    multiplicand: i32,
    multiplier: i32,
    product_sign_extends: bool,
) -> (r: u16)
    ensures
        r == signed_multiply_clocks(word, multiplicand, multiplier, product_sign_extends),
{
    let m = magnitude32(multiplier);
    let (width, bits) = if word {
        (16u16, count_ones16((m % 65536) as u16))
    } else {
        (8u16, count_ones16((m % 256) as u16))
    };
    let accumulator_negative: u16 = if multiplier < 0 {
        1
    } else {
        0
    };
    let multiplicand_negative: u16 = if multiplicand < 0 {
        1
    } else {
        0
    };
    let pre = 10 + 2 * accumulator_negative - multiplicand_negative;
    let post: u16 = if accumulator_negative != multiplicand_negative {
        12
    } else {
        0
    };
    let ext: u16 = if product_sign_extends {
        1
    } else {
        0
    };
    corx_cycles(width, bits) + 16 + pre + post + ext
}

/// What an `IDIV` costs: `DIV` with `PREIDIV` in front (`9 + 4d - v`) and
/// `POSTIDIV` behind; it faults before the loop as `DIV` does, and again after
/// it when the quotient does not fit the signed half.
pub open spec fn signed_divide_loop(word: bool, dividend: i64, divisor: i64) -> Loop {
    let width: u32 = if word { 16 } else { 8 };
    let mag = abs64(dividend);
    let dmag = abs64(divisor);
    let pre = 9 + 4 * (if dividend < 0 { 1int } else { 0 }) - (if divisor < 0 { 1int } else { 0 });
    let front = 1 + 3 + 1 + pre + 2;
    match cord_clocks((mag % 0x1_0000_0000) as u32, (dmag % 0x1_0000_0000) as u32, width) {
        None => Loop::Faulted((front + 4 + 2) as u16),
        Some(c) => {
            let behind = front + c + 2 + 1;
            if mag / dmag > pow2((width - 1) as nat) - 1 {
                Loop::Faulted((behind + 2 + 2) as u16)
            } else {
                Loop::Completed((behind + 10) as u16)
            }
        },
    }
}

/// Clocks `IDIV` spends, and whether it divided.
pub fn signed_divide_routine_cycles(word: bool, dividend: i64, divisor: i64) -> (r: Loop)
    ensures
        r == signed_divide_loop(word, dividend, divisor),
{
    let width: u32 = if word {
        16
    } else {
        8
    };
    let magnitude = magnitude64(dividend);
    let divisor_magnitude = magnitude64(divisor);
    let dneg: u16 = if dividend < 0 {
        1
    } else {
        0
    };
    let vneg: u16 = if divisor < 0 {
        1
    } else {
        0
    };
    let pre = 9 + 4 * dneg - vneg;
    let front = 1 + 3 + 1 + pre + 2;
    let c = match cord_cycles(
        (magnitude % 0x1_0000_0000) as u32,
        (divisor_magnitude % 0x1_0000_0000) as u32,
        width,
    ) {
        Some(c) => c,
        None => {
            return Loop::Faulted(front + CORD_FAULT + INT0_ENTRY);
        },
    };
    proof {
        lemma_cord_clock_bound(
            (magnitude % 0x1_0000_0000) as u32,
            (divisor_magnitude % 0x1_0000_0000) as u32,
            width,
        );
        lemma2_to64();
    }
    let behind = front + c + 2 + 1;
    let limit: u64 = if word {
        0x7FFF
    } else {
        0x7F
    };
    if magnitude / divisor_magnitude > limit {
        return Loop::Faulted(behind + POSTIDIV_FAULT + INT0_ENTRY);
    }
    Loop::Completed(behind + 10)
}

/// Which of the two signed routines a sign correction is asked about.
#[derive(Clone, Copy, Debug, PartialEq, Eq, Structural)]
pub enum SignCost {
    /// `PREIMUL`: left is the multiplicand, right the multiplier.
    Multiply,
    /// `PREIDIV`: left is the dividend, right the divisor.
    Divide,
}

/// What a signed multiply or divide pays for its operands' signs.
pub open spec fn sign_cost(left_negative: bool, right_negative: bool, cost: SignCost) -> int {
    let (left, right, result) = match cost {
        SignCost::Multiply => (-1int, 2int, 12int),
        SignCost::Divide => (4int, -1int, 0int),
    };
    (if left_negative { left } else { 0 }) + (if right_negative { right } else { 0 }) + (
    if left_negative != right_negative { result } else { 0 })
}

/// The measured cost of the signs, beyond what the unsigned form pays: the
/// negate path's cost less the skip path's at each of the three branches.
pub fn sign_correction(left_negative: bool, right_negative: bool, cost: SignCost) -> (r: i16)
    ensures
        r == sign_cost(left_negative, right_negative, cost),
{
    let (left, right, result): (i16, i16, i16) = match cost {
        SignCost::Multiply => (-1, 2, 12),
        SignCost::Divide => (4, -1, 0),
    };
    let l: i16 = if left_negative {
        left
    } else {
        0
    };
    let r: i16 = if right_negative {
        right
    } else {
        0
    };
    let x: i16 = if left_negative != right_negative {
        result
    } else {
        0
    };
    l + r + x
}

/// The measured whole-instruction time of a signed multiply.
pub open spec fn measured_signed_multiply(
    word: bool,
    multiplicand: i32,
    multiplier: i32,
    product_sign_extends: bool,
) -> u16 {
    let base: int = if word { 127 } else { 79 };
    let bits = popcount(abs32(multiplier) as nat);
    (base + bits + (if product_sign_extends { 1int } else { 0 }) + sign_cost(
        multiplicand < 0,
        multiplier < 0,
        SignCost::Multiply,
    )) as u16
}

/// The number of one bits in a 32-bit value.
pub fn count_ones32(x: u32) -> (r: u32)
    ensures
        r == popcount(x as nat),
        r <= 32,
{
    let lo = count_ones16((x % 65536) as u16);
    let hi = count_ones16((x / 65536) as u16);
    proof {
        lemma_popcount_split(x as nat);
    }
    lo + hi
}

/// A value's one bits are its low half's and its high half's.
proof fn lemma_popcount_split(x: nat)
    ensures
        popcount(x) == popcount(x % 65536) + popcount(x / 65536),
{
    lemma_popcount_split_k(x, 16);
    lemma2_to64();
}

/// Splitting off `k` low bits keeps the count.
proof fn lemma_popcount_split_k(x: nat, k: nat)
    ensures
        popcount(x) == popcount(x % pow2(k)) + popcount(x / pow2(k)),
    decreases k,
{
    lemma_pow2_pos(k);
    if k == 0 {
        lemma2_to64();
    } else {
        let km = (k - 1) as nat;
        lemma_popcount_split_k(x / 2, km);
        lemma_pow2_double(km);
        lemma_pow2_pos(km);
        let p = pow2(km);
        assert(x / 2 / p == x / (2 * p)) by {
            vstd::arithmetic::div_mod::lemma_div_denominator(x as int, 2, p as int);
        }
        assert(x % (2 * p) == 2 * ((x / 2) % p) + x % 2) by {
            vstd::arithmetic::div_mod::lemma_mod_breakdown(x as int, 2, p as int);
        }
        if x > 0 {
            lemma_popcount_step(x);
        }
        let y = x % (2 * p);
        if y > 0 {
            lemma_popcount_step(y);
        }
        vstd::arithmetic::div_mod::lemma_fundamental_div_mod_converse(
            y as int,
            2,
            ((x / 2) % p) as int,
            (x % 2) as int,
        );
    }
}

/// The measured whole-instruction time of a signed multiply, given its
/// operands: the unsigned loop's base plus ten, the set bits of the
/// multiplier's magnitude, the sign-extension step, and the sign correction.
pub fn signed_multiply_cycles(
    word: bool,
    multiplicand: i32,
    multiplier: i32,
    product_sign_extends: bool,
) -> (r: u16)
    ensures
        r == measured_signed_multiply(word, multiplicand, multiplier, product_sign_extends),
{
    let base: i16 = if word {
        127
    } else {
        79
    };
    let bits = count_ones32(magnitude32(multiplier)) as i16;
    let ext: i16 = if product_sign_extends {
        1
    } else {
        0
    };
    (base + bits + ext + sign_correction(multiplicand < 0, multiplier < 0, SignCost::Multiply)) as u16
}

/// The measured whole-instruction time of a signed divide, less the 31 clocks
/// the pipeline spends itself on a fault.
pub open spec fn measured_signed_divide(word: bool, dividend: i64, divisor: i64) -> u16 {
    let signs = sign_cost(dividend < 0, divisor < 0, SignCost::Divide);
    let width: u32 = if word { 16 } else { 8 };
    let mag = abs64(dividend);
    let dmag = abs64(divisor);
    if divisor == 0 || mag / (pow2(width as nat) as int) >= dmag {
        (89 + signs - 31) as u16
    } else {
        let q = mag / dmag;
        let (compared, last) = cord_result(
            (mag % 0x1_0000_0000) as u32,
            (dmag % 0x1_0000_0000) as u32,
            width,
        );
        let base: int = if word { 165 } else { 101 };
        let late: int = if q > pow2((width - 1) as nat) - 1 { 59 - 31 } else { 0 };
        (base + compared + 2 * (if last { 1int } else { 0 }) + signs + late) as u16
    }
}

/// The measured whole-instruction time of a signed divide, with its three
/// populations: the quotient fits, it fits unsigned but not signed (the loop
/// runs and then faults), or `CORD`'s own check fails.
pub fn signed_divide_cycles(word: bool, dividend: i64, divisor: i64) -> (r: u16)
    ensures
        r == measured_signed_divide(word, dividend, divisor),
{
    let signs = sign_correction(dividend < 0, divisor < 0, SignCost::Divide);
    let width: u32 = if word {
        16
    } else {
        8
    };
    let magnitude = magnitude64(dividend);
    let divisor_magnitude = magnitude64(divisor);
    proof {
        lemma2_to64();
        vstd::bits::lemma_u64_shr_is_div(magnitude, width as u64);
    }
    if divisor == 0 || magnitude >> (width as u64) >= divisor_magnitude {
        return (89 + signs - 31) as u16;
    }
    let quotient = magnitude / divisor_magnitude;
    let (compared, last_bit) = cord(
        (magnitude % 0x1_0000_0000) as u32,
        (divisor_magnitude % 0x1_0000_0000) as u32,
        width,
    );
    proof {
        lemma_cord_bounds(
            (magnitude % 0x1_0000_0000) as int,
            (divisor_magnitude % 0x1_0000_0000) as int,
            pow2(width as nat) as int,
            width as nat,
        );
    }
    let base: i16 = if word {
        165
    } else {
        101
    };
    let limit: u64 = if word {
        0x7FFF
    } else {
        0x7F
    };
    let late: i16 = if quotient > limit {
        59 - 31
    } else {
        0
    };
    let last: i16 = if last_bit {
        1
    } else {
        0
    };
    (base + compared as i16 + 2 * last + signs + late) as u16
}

/// Where a string operation's microcode clocks fall around its bus cycles.
#[derive(Clone, Copy, Debug, PartialEq, Eq, Structural)]
pub struct StringClocks {
    /// Before the iteration's first bus cycle.
    pub before: u8,
    /// Between the two, for the operations that have two.
    pub between: u8,
    /// After the last, before the repeat decision.
    pub after: u8,
}

/// The clocks around a string operation's accesses.
pub open spec fn string_clocks_of(opcode: u8) -> StringClocks {
    let (before, between, after): (u8, u8, u8) = if opcode == 0xA4 || opcode == 0xA5 {
        (1, 0, 2)
    } else if opcode == 0xA6 || opcode == 0xA7 {
        (2, 1, 3)
    } else if 0xAA <= opcode <= 0xAD {
        (1, 0, 2)
    } else if opcode == 0xAE || opcode == 0xAF {
        (3, 0, 3)
    } else {
        (0, 0, 0)
    };
    StringClocks { before, between, after }
}

/// Where a string operation's clocks fall: MOVS, STOS and LODS spend their
/// entry line before and two after; CMPS two before, one between its reads
/// and three after; SCAS three before and three after.
pub fn string_clocks(opcode: u8) -> (r: StringClocks)
    ensures
        r == string_clocks_of(opcode),
{
    let (before, between, after): (u8, u8, u8) = match opcode {
        0xA4 | 0xA5 => (1, 0, 2),
        0xA6 | 0xA7 => (2, 1, 3),
        0xAA..=0xAD => (1, 0, 2),
        0xAE | 0xAF => (3, 0, 3),
        _ => (0, 0, 0),
    };
    StringClocks { before, between, after }
}

/// What a repeated iteration spends behind its last read, its retirement
/// included.
pub const READ_ITERATION_TAIL: u8 = 6;

/// `a - b`, or zero when `b` is larger.
pub open spec fn sat_sub(a: int, b: int) -> int {
    if a >= b { a - b } else { 0 }
}

/// The loop-control clocks of a repeated iteration.
pub open spec fn repeat_clocks(
    opcode: u8,
    rep: Option<RepPrefix>,
    again: bool,
    stopped_on_flag: bool,
) -> u8 {
    if rep is None {
        0
    } else {
        let reads = opcode == 0xA6 || opcode == 0xA7 || 0xAC <= opcode <= 0xAF;
        let tail = if reads {
            sat_sub(6, string_clocks_of(opcode).after as int)
        } else {
            2
        };
        if again {
            tail as u8
        } else {
            sat_sub(tail, 1 + if stopped_on_flag { 1int } else { 0 }) as u8
        }
    }
}

/// Clocks a repeated iteration spends on the loop control, which a single
/// one does not. An iteration that ends on a read closes in six clocks; the
/// last iteration spends one of the two, and one that stops on its flag one
/// fewer still.
pub fn string_repeat_cycles(
    opcode: u8,
    rep: Option<RepPrefix>,
    again: bool,
    stopped_on_flag: bool,
) -> (r: u8)
    ensures
        r == repeat_clocks(opcode, rep, again, stopped_on_flag),
{
    if rep.is_none() {
        return 0;
    }
    let reads = opcode == 0xA6 || opcode == 0xA7 || (opcode >= 0xAC && opcode <= 0xAF);
    let tail: u8 = if reads {
        READ_ITERATION_TAIL.saturating_sub(string_clocks(opcode).after)
    } else {
        2
    };
    if again {
        return tail;
    }
    let flag: u8 = if stopped_on_flag {
        1
    } else {
        0
    };
    tail.saturating_sub(1 + flag)
}

/// The clocks an iteration spends before its first bus cycle: the whole of
/// `before` on the first iteration, one less (the entry line runs once) on
/// every other.
pub fn string_before_cycles(opcode: u8, first_iteration: bool) -> (r: u8)
    ensures
        r == if first_iteration {
            string_clocks_of(opcode).before
        } else {
            sat_sub(string_clocks_of(opcode).before as int, 1) as u8
        },
{
    let before = string_clocks(opcode).before;
    if first_iteration {
        before
    } else {
        before.saturating_sub(1)
    }
}

/// The three lines `RPTS` skips when the count is already zero.
pub const RPTS_EARLY_EXIT: u8 = 3;

/// Clocks a `REP` prefix spends before its first iteration: seven, three
/// fewer when the count is already zero, and nothing unrepeated.
pub fn string_entry_cycles(repeated: bool, count_is_zero: bool) -> (r: u8)
    ensures
        r == if !repeated {
            0u8
        } else if count_is_zero {
            4u8
        } else {
            7u8
        },
{
    match (repeated, count_is_zero) {
        (false, _) => 0,
        (true, false) => 7,
        (true, true) => 7 - RPTS_EARLY_EXIT,
    }
}

/// Extra clocks a shift or rotate by `CL` spends: four a bit, the count not
/// masked on this part.
pub fn shift_count_cycles(count: u8) -> (r: u16)
    ensures
        r == 4 * count,
{
    4 * count as u16
}

/// Whether this core models `opcode`'s execution time: everything but WAIT,
/// the prefixes and HLT.
pub fn is_modeled(opcode: u8, modrm: u8) -> (r: bool)
    ensures
        r == !(opcode == 0x9B || 0xF0 <= opcode <= 0xF4),
{
    match opcode {
        0x9B => false,
        0xF0..=0xF4 => false,
        _ => true,
    }
}

/// The EU's time does not depend on operand width: the byte and word forms of
/// one operation cost the same, in every form but the register forms of
/// 0xFE /3 and /5, which the byte opcode does not define and the word opcode
/// (0xFF) uses for far CALL and JMP.
pub proof fn law_byte_and_word_forms_cost_the_same(byte_op: u8, modrm: u8)
    requires
        byte_op == 0x00 || byte_op == 0x02 || byte_op == 0x38 || byte_op == 0x3A || byte_op
            == 0x84 || byte_op == 0x86 || byte_op == 0x88 || byte_op == 0x8A || byte_op == 0xC6
            || byte_op == 0xD0 || byte_op == 0xD2 || byte_op == 0xF6 || byte_op == 0xFE,
        byte_op == 0xFE ==> is_mem(modrm) || (reg_field(modrm) != 3 && reg_field(modrm) != 5),
    ensures
        eu_row(byte_op, modrm) == eu_row((byte_op + 1) as u8, modrm),
{
}

/// No row charges more than twenty clocks.
pub proof fn law_rows_are_sane(opcode: u8, modrm: u8)
    ensures
        eu_row(opcode, modrm) <= 20,
        branch_row(opcode, true) <= 20,
        branch_row(opcode, false) <= 20,
{
}

/// `AAM` and `DIV` walk the same long division: over the same operands both
/// complete or both fault, and `DIV` spends four more when they complete and
/// three more when they fault.
pub proof fn law_aam_and_divide_walk_the_same_loop(al: u8, imm: u8)
    ensures
        match (divide_loop(false, al as u32, imm as u32), aam_loop(al, imm)) {
            (Loop::Completed(d), Loop::Completed(a)) => d == a + 4,
            (Loop::Faulted(d), Loop::Faulted(a)) => d == a + 3,
            _ => false,
        },
{
    lemma_cord_clock_bound(al as u32, imm as u32, 8);
}

/// A product whose high half is zero costs one clock more, and the byte
/// multiply looks at AL alone.
pub proof fn law_multiply_flag_step_and_width(word: bool, multiplier: u16)
    ensures
        multiply_clocks(word, multiplier, true) == multiply_clocks(word, multiplier, false) + 1,
        multiply_clocks(false, multiplier, false) == multiply_clocks(
            false,
            multiplier % 256,
            false,
        ),
{
    lemma2_to64();
    lemma_popcount_bound(multiplier as nat, 16);
    lemma_popcount_bound((multiplier % 256) as nat, 8);
}

/// A value below `2^k` has at most `k` one bits.
proof fn lemma_popcount_bound(x: nat, k: nat)
    requires
        x < pow2(k),
    ensures
        popcount(x) <= k,
    decreases k,
{
    lemma_pow2_pos(k);
    if x > 0 {
        if k == 0 {
            lemma2_to64();
        } else {
            lemma_pow2_double((k - 1) as nat);
            lemma_popcount_bound(x / 2, (k - 1) as nat);
        }
    }
}

} // verus!
