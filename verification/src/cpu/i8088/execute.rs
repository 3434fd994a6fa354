//! Intel 8088 instruction execution: the data-transfer instructions.
//!
//! Each instruction body takes its operand bytes from the loaded instruction
//! buffer, and every memory or stack access goes over the bus. What the bus
//! returns is not known here, so each body's contract says what the CPU
//! looks like afterwards as a function of the values it read.

use vstd::prelude::*;
use super::{I8088, MAX_INSTRUCTION};
use super::addressing::{Operand, modrm_disp_len, add16w};
use super::decode::ModRM;
use super::format::{format_of, format_spec, imm_len, operand_len, disp_len};
use super::registers::{SegReg, seg_of, lo, hi, set_lo, set_hi, phys};
use super::decode::{push_writes, pop_reads, law_pop_reads_what_push_wrote};
use crate::bus::{Bus, BusAccess, BusMaster};

verus! {

broadcast use {
    super::registers::lemma_with_reg8_frame,
    super::registers::lemma_with_reg16_frame,
};

/// `s` with its next `n` instruction bytes consumed.
pub open spec fn skip(s: I8088, n: int) -> I8088 {
    I8088 { instr_pos: (s.instr_pos + n) as u8, ip: ((s.ip + n) % 65536) as u16, ..s }
}

/// The ModR/M byte at the read position, decoded.
pub open spec fn modrm_at(s: I8088) -> ModRM {
    ModRM::of(s.byte_at(0))
}

/// The operand the ModR/M byte at the read position names.
pub open spec fn operand_at(s: I8088) -> Operand {
    skip(s, 1).resolved(modrm_at(s))
}

/// `s` past its ModR/M byte and any displacement.
pub open spec fn past_modrm(s: I8088) -> I8088 {
    skip(s, 1 + modrm_disp_len(modrm_at(s)))
}

/// Whether the ModR/M at the read position names a register.
pub open spec fn reg_form(s: I8088) -> bool {
    modrm_at(s).mod_bits == 3
}

/// `s` with SP moved by `delta` (wrapping).
pub open spec fn sp_moved(s: I8088, delta: int) -> I8088 {
    I8088 { sp: ((s.sp + delta + 65536) % 65536) as u16, ..s }
}

/// `b` differs from `a` at most in the architectural registers, FLAGS and
/// the executor's read position.
pub open spec fn only_regs_changed(a: I8088, b: I8088) -> bool {
    b == (I8088 {
        ax: b.ax,
        bx: b.bx,
        cx: b.cx,
        dx: b.dx,
        si: b.si,
        di: b.di,
        bp: b.bp,
        sp: b.sp,
        cs: b.cs,
        ds: b.ds,
        es: b.es,
        ss: b.ss,
        ip: b.ip,
        flags: b.flags,
        instr_pos: b.instr_pos,
        ..a
    })
}

/// PUSH/POP of a segment register (0x06.. / 0x07..): the register the opcode's
/// bits 4:3 select.
#[verifier::opaque]
pub open spec fn eff_stack_seg(s: I8088, opcode: u8, v1: u16) -> I8088 {
    if opcode % 2 == 0 {
        sp_moved(s, -2)
    } else {
        sp_moved(s, 2).with_seg(seg_of(opcode / 8), v1)
    }
}

/// PUSH/POP of a general register (0x50-0x5F).
#[verifier::opaque]
pub open spec fn eff_stack_reg(s: I8088, opcode: u8, v1: u16) -> I8088 {
    if opcode <= 0x57 {
        sp_moved(s, -2)
    } else {
        sp_moved(s, 2).with_reg16(opcode % 8, v1)
    }
}

/// XCHG r/m, reg (0x86, 0x87).
#[verifier::opaque]
pub open spec fn eff_xchg(s: I8088, opcode: u8, v1: u16) -> I8088 {
    let m = modrm_at(s);
    let p = past_modrm(s);
    let regf = reg_form(s);
    if opcode == 0x86 {
        let a = p.reg8(m.reg);
        let b = if regf { p.reg8(m.rm) } else { lo(v1) };
        let t = p.with_reg8(m.reg, b);
        if regf { t.with_reg8(m.rm, a) } else { t }
    } else {
        let a = p.reg16(m.reg);
        let b = if regf { p.reg16(m.rm) } else { v1 };
        let t = p.with_reg16(m.reg, b);
        if regf { t.with_reg16(m.rm, a) } else { t }
    }
}

/// MOV r/m, reg and MOV reg, r/m (0x88-0x8B).
#[verifier::opaque]
pub open spec fn eff_mov(s: I8088, opcode: u8, v1: u16) -> I8088 {
    let m = modrm_at(s);
    let p = past_modrm(s);
    let regf = reg_form(s);
    if opcode == 0x88 {
        if regf { p.with_reg8(m.rm, p.reg8(m.reg)) } else { p }
    } else if opcode == 0x89 {
        if regf { p.with_reg16(m.rm, p.reg16(m.reg)) } else { p }
    } else if opcode == 0x8A {
        p.with_reg8(m.reg, if regf { p.reg8(m.rm) } else { lo(v1) })
    } else {
        p.with_reg16(m.reg, if regf { p.reg16(m.rm) } else { v1 })
    }
}

/// MOV r/m16, sreg (0x8C), LEA (0x8D), MOV sreg, r/m16 (0x8E).
#[verifier::opaque]
pub open spec fn eff_sreg_lea(s: I8088, opcode: u8, v1: u16) -> I8088 {
    let m = modrm_at(s);
    let p = past_modrm(s);
    let regf = reg_form(s);
    if opcode == 0x8C {
        if regf { p.with_reg16(m.rm, p.seg(seg_of(m.reg))) } else { p }
    } else if opcode == 0x8D {
        match operand_at(s) {
            Operand::Memory { offset, .. } => p.with_reg16(m.reg, offset),
            Operand::Register(_) => p,
        }
    } else {
        p.with_seg(seg_of(m.reg), if regf { p.reg16(m.rm) } else { v1 })
    }
}

/// POP r/m16 (0x8F /0).
#[verifier::opaque]
pub open spec fn eff_pop_rm(s: I8088, v1: u16) -> I8088 {
    let m = modrm_at(s);
    let p = past_modrm(s);
    if m.reg == 0 {
        let t = sp_moved(p, 2);
        if reg_form(s) { t.with_reg16(m.rm, v1) } else { t }
    } else {
        p
    }
}

/// XCHG AX, reg16 (0x90-0x97).
#[verifier::opaque]
pub open spec fn eff_xchg_ax(s: I8088, opcode: u8) -> I8088 {
    let t = I8088 { ax: s.reg16(opcode % 8), ..s };
    t.with_reg16(opcode % 8, s.ax)
}

/// SAHF (0x9E) and LAHF (0x9F).
#[verifier::opaque]
pub open spec fn eff_ahf(s: I8088, opcode: u8) -> I8088 {
    if opcode == 0x9E {
        I8088 { flags: ((s.flags / 256) * 256 + ((hi(s.ax) & 0xD5) | 0x02)) as u16, ..s }
    } else {
        I8088 { ax: set_hi(s.ax, lo(s.flags)), ..s }
    }
}

/// MOV between the accumulator and a direct address (0xA0-0xA3).
#[verifier::opaque]
pub open spec fn eff_moffs(s: I8088, opcode: u8, v1: u16) -> I8088 {
    let t = skip(s, 2);
    if opcode == 0xA0 {
        I8088 { ax: set_lo(t.ax, lo(v1)), ..t }
    } else if opcode == 0xA1 {
        I8088 { ax: v1, ..t }
    } else {
        t
    }
}

/// MOV reg, imm (0xB0-0xBF).
#[verifier::opaque]
pub open spec fn eff_mov_imm(s: I8088, opcode: u8) -> I8088 {
    if opcode <= 0xB7 {
        skip(s, 1).with_reg8(opcode % 8, s.byte_at(0))
    } else {
        skip(s, 2).with_reg16(opcode % 8, s.word_at(0))
    }
}

/// LES (0xC4) and LDS (0xC5).
#[verifier::opaque]
pub open spec fn eff_load_far(s: I8088, opcode: u8, v1: u16, v2: u16) -> I8088 {
    let p = past_modrm(s);
    if reg_form(s) {
        p
    } else {
        let t = p.with_reg16(modrm_at(s).reg, v1);
        if opcode == 0xC4 { I8088 { es: v2, ..t } } else { I8088 { ds: v2, ..t } }
    }
}

/// MOV r/m, imm (0xC6, 0xC7).
#[verifier::opaque]
pub open spec fn eff_mov_rm_imm(s: I8088, opcode: u8) -> I8088 {
    let m = modrm_at(s);
    let p = past_modrm(s);
    if opcode == 0xC6 {
        let t = skip(p, 1);
        if m.reg == 0 && reg_form(s) { t.with_reg8(m.rm, p.byte_at(0)) } else { t }
    } else {
        let t = skip(p, 2);
        if m.reg == 0 && reg_form(s) { t.with_reg16(m.rm, p.word_at(0)) } else { t }
    }
}

/// XLAT (0xD7).
#[verifier::opaque]
pub open spec fn eff_xlat(s: I8088, v1: u16) -> I8088 {
    I8088 { ax: set_lo(s.ax, lo(v1)), ..s }
}

/// The 0xFF group: PUSH r/m16 (/6) moves SP; the others only decode.
#[verifier::opaque]
pub open spec fn eff_group_ff(s: I8088) -> I8088 {
    if modrm_at(s).reg == 6 { sp_moved(past_modrm(s), -2) } else { past_modrm(s) }
}

/// The two accesses of a word access, as a sequence.
pub open spec fn both(p: (BusAccess<u32, u8>, BusAccess<u32, u8>)) -> Seq<BusAccess<u32, u8>> {
    seq![p.0, p.1]
}

/// The reads of a word `v` at `segment`:`offset`, low byte first.
pub open spec fn word_reads(segment: u16, offset: u16, v: u16) -> Seq<BusAccess<u32, u8>> {
    seq![
        BusAccess::Read(phys(segment, offset), lo(v)),
        BusAccess::Read(phys(segment, offset.wrapping_add(1)), hi(v)),
    ]
}

/// The writes of a word `v` to `segment`:`offset`, low byte first.
pub open spec fn word_writes(segment: u16, offset: u16, v: u16) -> Seq<BusAccess<u32, u8>> {
    seq![
        BusAccess::Write(phys(segment, offset), lo(v)),
        BusAccess::Write(phys(segment, offset.wrapping_add(1)), hi(v)),
    ]
}

/// The bus reads of a byte operand that reads `lo(v)`: none for a register.
pub open spec fn operand_reads8(o: Operand, v: u16) -> Seq<BusAccess<u32, u8>> {
    match o {
        Operand::Register(_) => seq![],
        Operand::Memory { segment, offset } => seq![BusAccess::Read(phys(segment, offset), lo(v))],
    }
}

/// The bus reads of a word operand that reads `v`: none for a register.
pub open spec fn operand_reads16(o: Operand, v: u16) -> Seq<BusAccess<u32, u8>> {
    match o {
        Operand::Register(_) => seq![],
        Operand::Memory { segment, offset } => word_reads(segment, offset, v),
    }
}

/// The bus writes of `v` to a byte operand: none for a register.
pub open spec fn operand_writes8(o: Operand, v: u8) -> Seq<BusAccess<u32, u8>> {
    match o {
        Operand::Register(_) => seq![],
        Operand::Memory { segment, offset } => seq![BusAccess::Write(phys(segment, offset), v)],
    }
}

/// The bus writes of `v` to a word operand: none for a register.
pub open spec fn operand_writes16(o: Operand, v: u16) -> Seq<BusAccess<u32, u8>> {
    match o {
        Operand::Register(_) => seq![],
        Operand::Memory { segment, offset } => word_writes(segment, offset, v),
    }
}

/// The bus accesses of PUSH/POP sreg: the segment register's word written
/// below SP, or the word `v1` read at SP.
#[verifier::opaque]
pub open spec fn acc_stack_seg(s: I8088, opcode: u8, v1: u16) -> Seq<BusAccess<u32, u8>> {
    if opcode % 2 == 0 {
        both(push_writes(s.ss, s.sp.wrapping_sub(2), s.seg(seg_of(opcode / 8))))
    } else {
        both(pop_reads(s.ss, s.sp, v1))
    }
}

/// The bus accesses of PUSH/POP reg16: the register's word (its value
/// before SP moves) written below SP, or the word `v1` read at SP.
#[verifier::opaque]
pub open spec fn acc_stack_reg(s: I8088, opcode: u8, v1: u16) -> Seq<BusAccess<u32, u8>> {
    if opcode <= 0x57 {
        both(push_writes(s.ss, s.sp.wrapping_sub(2), s.reg16(opcode % 8)))
    } else {
        both(pop_reads(s.ss, s.sp, v1))
    }
}

/// The bus accesses of XCHG r/m, reg: the operand read, then the register
/// written back to it.
#[verifier::opaque]
pub open spec fn acc_xchg(s: I8088, opcode: u8, v1: u16) -> Seq<BusAccess<u32, u8>> {
    let m = modrm_at(s);
    let p = past_modrm(s);
    let o = operand_at(s);
    if opcode == 0x86 {
        operand_reads8(o, v1) + operand_writes8(o, p.reg8(m.reg))
    } else {
        operand_reads16(o, v1) + operand_writes16(o, p.reg16(m.reg))
    }
}

/// The bus accesses of MOV r/m, reg (a write) and MOV reg, r/m (a read).
#[verifier::opaque]
pub open spec fn acc_mov(s: I8088, opcode: u8, v1: u16) -> Seq<BusAccess<u32, u8>> {
    let m = modrm_at(s);
    let p = past_modrm(s);
    let o = operand_at(s);
    if opcode == 0x88 {
        operand_writes8(o, p.reg8(m.reg))
    } else if opcode == 0x89 {
        operand_writes16(o, p.reg16(m.reg))
    } else if opcode == 0x8A {
        operand_reads8(o, v1)
    } else {
        operand_reads16(o, v1)
    }
}

/// The bus accesses of MOV r/m16, sreg (a write), LEA (none) and MOV sreg,
/// r/m16 (a read).
#[verifier::opaque]
pub open spec fn acc_sreg_lea(s: I8088, opcode: u8, v1: u16) -> Seq<BusAccess<u32, u8>> {
    let m = modrm_at(s);
    let p = past_modrm(s);
    let o = operand_at(s);
    if opcode == 0x8C {
        operand_writes16(o, p.seg(seg_of(m.reg)))
    } else if opcode == 0x8D {
        seq![]
    } else {
        operand_reads16(o, v1)
    }
}

/// The bus accesses of POP r/m16: the word `v1` read at SP, then written to
/// the operand.
#[verifier::opaque]
pub open spec fn acc_pop_rm(s: I8088, v1: u16) -> Seq<BusAccess<u32, u8>> {
    let p = past_modrm(s);
    if modrm_at(s).reg == 0 {
        both(pop_reads(p.ss, p.sp, v1)) + operand_writes16(operand_at(s), v1)
    } else {
        seq![]
    }
}

/// The bus accesses of MOV between the accumulator and the direct address
/// in the instruction, in the data segment.
#[verifier::opaque]
pub open spec fn acc_moffs(s: I8088, opcode: u8, v1: u16) -> Seq<BusAccess<u32, u8>> {
    let seg = s.eff_seg(SegReg::DS);
    let offset = s.word_at(0);
    if opcode == 0xA0 {
        seq![BusAccess::Read(phys(seg, offset), lo(v1))]
    } else if opcode == 0xA1 {
        word_reads(seg, offset, v1)
    } else if opcode == 0xA2 {
        seq![BusAccess::Write(phys(seg, offset), lo(s.ax))]
    } else {
        word_writes(seg, offset, s.ax)
    }
}

/// The bus accesses of LES/LDS: the offset `v1`, then the segment `v2`,
/// read from a memory operand; none for a register operand.
#[verifier::opaque]
pub open spec fn acc_load_far(s: I8088, v1: u16, v2: u16) -> Seq<BusAccess<u32, u8>> {
    match operand_at(s) {
        Operand::Memory { segment, offset } => word_reads(segment, offset, v1) + word_reads(
            segment,
            offset.wrapping_add(2),
            v2,
        ),
        Operand::Register(_) => seq![],
    }
}

/// The bus accesses of MOV r/m, imm: the immediate written by the /0 form.
#[verifier::opaque]
pub open spec fn acc_mov_rm_imm(s: I8088, opcode: u8) -> Seq<BusAccess<u32, u8>> {
    let p = past_modrm(s);
    if modrm_at(s).reg != 0 {
        seq![]
    } else if opcode == 0xC6 {
        operand_writes8(operand_at(s), p.byte_at(0))
    } else {
        operand_writes16(operand_at(s), p.word_at(0))
    }
}

/// The bus access of XLAT: the byte `lo(v1)` read at BX + AL in the data
/// segment.
#[verifier::opaque]
pub open spec fn acc_xlat(s: I8088, v1: u16) -> Seq<BusAccess<u32, u8>> {
    seq![BusAccess::Read(phys(s.eff_seg(SegReg::DS), s.bx.wrapping_add(lo(s.ax) as u16)), lo(v1))]
}

/// The bus accesses of the 0xFF group: PUSH r/m16 writes below SP the word
/// it pushes, the register's value for a register operand, or the word `v1`
/// it reads for a memory one; the other forms make none.
#[verifier::opaque]
pub open spec fn acc_group_ff(s: I8088, v1: u16) -> Seq<BusAccess<u32, u8>> {
    let p = past_modrm(s);
    let pushed = if reg_form(s) {
        p.reg16(modrm_at(s).rm)
    } else {
        v1
    };
    if modrm_at(s).reg == 6 {
        operand_reads16(operand_at(s), v1) + both(push_writes(p.ss, p.sp.wrapping_sub(2), pushed))
    } else {
        seq![]
    }
}

/// The reads that fetch `bytes` from code memory at `cs`:`ip` onward, one
/// byte each, in order.
pub open spec fn operand_fetches(cs: u16, ip: u16, bytes: Seq<u8>) -> Seq<BusAccess<u32, u8>> {
    Seq::new(bytes.len(), |k: int| BusAccess::Read(phys(cs, ip.wrapping_add(k as u16)), bytes[k]))
}

/// The bus accesses of running `opcode` from `s`, in order, when its reads
/// return `v1` and then `v2` as in `effect`. Opcodes this core does not
/// execute, and those with no memory operand, make none.
pub open spec fn accesses_of(s: I8088, opcode: u8, v1: u16, v2: u16) -> Seq<BusAccess<u32, u8>> {
    if opcode == 0x06 || opcode == 0x0E || opcode == 0x16 || opcode == 0x1E
        || opcode == 0x07 || opcode == 0x0F || opcode == 0x17 || opcode == 0x1F {
        acc_stack_seg(s, opcode, v1)
    } else if 0x50 <= opcode <= 0x5F {
        acc_stack_reg(s, opcode, v1)
    } else if opcode == 0x86 || opcode == 0x87 {
        acc_xchg(s, opcode, v1)
    } else if 0x88 <= opcode <= 0x8B {
        acc_mov(s, opcode, v1)
    } else if 0x8C <= opcode <= 0x8E {
        acc_sreg_lea(s, opcode, v1)
    } else if opcode == 0x8F {
        acc_pop_rm(s, v1)
    } else if 0xA0 <= opcode <= 0xA3 {
        acc_moffs(s, opcode, v1)
    } else if opcode == 0xC4 || opcode == 0xC5 {
        acc_load_far(s, v1, v2)
    } else if opcode == 0xC6 || opcode == 0xC7 {
        acc_mov_rm_imm(s, opcode)
    } else if opcode == 0xD7 {
        acc_xlat(s, v1)
    } else if opcode == 0xFF {
        acc_group_ff(s, v1)
    } else {
        seq![]
    }
}

/// The CPU after running `opcode`, whose operand bytes are the unread bytes
/// of `s`, when its memory and stack reads return `v1` and then `v2` (a byte
/// read returns the low byte of its value). Opcodes this core does not
/// execute leave the CPU as it was.
pub open spec fn effect(s: I8088, opcode: u8, v1: u16, v2: u16) -> I8088 {
    if opcode == 0x06 || opcode == 0x0E || opcode == 0x16 || opcode == 0x1E
        || opcode == 0x07 || opcode == 0x0F || opcode == 0x17 || opcode == 0x1F {
        eff_stack_seg(s, opcode, v1)
    } else if 0x50 <= opcode <= 0x5F {
        eff_stack_reg(s, opcode, v1)
    } else if opcode == 0x86 || opcode == 0x87 {
        eff_xchg(s, opcode, v1)
    } else if 0x88 <= opcode <= 0x8B {
        eff_mov(s, opcode, v1)
    } else if 0x8C <= opcode <= 0x8E {
        eff_sreg_lea(s, opcode, v1)
    } else if opcode == 0x8F {
        eff_pop_rm(s, v1)
    } else if 0x90 <= opcode <= 0x97 {
        eff_xchg_ax(s, opcode)
    } else if opcode == 0x9E || opcode == 0x9F {
        eff_ahf(s, opcode)
    } else if 0xA0 <= opcode <= 0xA3 {
        eff_moffs(s, opcode, v1)
    } else if 0xB0 <= opcode <= 0xBF {
        eff_mov_imm(s, opcode)
    } else if opcode == 0xC4 || opcode == 0xC5 {
        eff_load_far(s, opcode, v1, v2)
    } else if opcode == 0xC6 || opcode == 0xC7 {
        eff_mov_rm_imm(s, opcode)
    } else if opcode == 0xD7 {
        eff_xlat(s, v1)
    } else if opcode == 0xFF {
        eff_group_ff(s)
    } else {
        s
    }
}

/// The unread bytes are a ModR/M byte, its displacement, and `imm` more.
pub open spec fn modrm_loaded(s: I8088, imm: int) -> bool {
    &&& s.instr_len <= MAX_INSTRUCTION
    &&& s.instr_pos < s.instr_len
    &&& s.instr_pos + 1 + disp_len(s.byte_at(0)) + imm == s.instr_len
}

/// The opcodes this core executes.
pub open spec fn executed(opcode: u8) -> bool {
    ||| opcode == 0x06 || opcode == 0x0E || opcode == 0x16 || opcode == 0x1E
    ||| opcode == 0x07 || opcode == 0x0F || opcode == 0x17 || opcode == 0x1F
    ||| 0x50 <= opcode <= 0x5F
    ||| 0x86 <= opcode <= 0x97
    ||| opcode == 0x9E || opcode == 0x9F
    ||| 0xA0 <= opcode <= 0xA3
    ||| 0xB0 <= opcode <= 0xBF
    ||| 0xC4 <= opcode <= 0xC7
    ||| opcode == 0xD7
    ||| opcode == 0xFF
}

/// Whether this core executes `opcode`.
pub fn is_executed(opcode: u8) -> (r: bool)
    ensures
        r == executed(opcode),
{
    opcode == 0x06 || opcode == 0x0E || opcode == 0x16 || opcode == 0x1E || opcode == 0x07
        || opcode == 0x0F || opcode == 0x17 || opcode == 0x1F || (0x50 <= opcode && opcode
        <= 0x5F) || (0x86 <= opcode && opcode <= 0x97) || opcode == 0x9E || opcode == 0x9F || (
    0xA0 <= opcode && opcode <= 0xA3) || (0xB0 <= opcode && opcode <= 0xBF) || (0xC4 <= opcode
        && opcode <= 0xC7) || opcode == 0xD7 || opcode == 0xFF
}

/// The instruction whose opcode has been consumed is exactly the unread
/// bytes: as many as the opcode table says follow the opcode.
pub open spec fn operands_loaded(s: I8088, opcode: u8) -> bool {
    &&& s.instr_len <= MAX_INSTRUCTION
    &&& s.instr_pos <= s.instr_len
    &&& (format_spec(opcode).modrm ==> s.instr_pos < s.instr_len)
    &&& s.instr_pos + operand_len(opcode, s.byte_at(0)) == s.instr_len
}

/// What the opcode table says about the unread bytes, opcode group by
/// opcode group.
proof fn lemma_loaded(s: I8088, opcode: u8)
    requires
        operands_loaded(s, opcode),
    ensures
        (opcode == 0x86 || opcode == 0x87 || 0x88 <= opcode <= 0x8F || opcode == 0xC4 || opcode
            == 0xC5 || opcode == 0xFF) ==> modrm_loaded(s, 0),
        opcode == 0xC6 ==> modrm_loaded(s, 1),
        opcode == 0xC7 ==> modrm_loaded(s, 2),
        0xA0 <= opcode <= 0xA3 ==> s.unread() == 2,
        0xB0 <= opcode <= 0xB7 ==> s.unread() == 1,
        0xB8 <= opcode <= 0xBF ==> s.unread() == 2,
        (opcode == 0x06 || opcode == 0x0E || opcode == 0x16 || opcode == 0x1E || opcode == 0x07
            || opcode == 0x0F || opcode == 0x17 || opcode == 0x1F || 0x50 <= opcode <= 0x5F || 0x90
            <= opcode <= 0x97 || opcode == 0x9E || opcode == 0x9F || opcode == 0xD7) ==> s.unread()
            == 0,
{
}

/// A ModR/M instruction's bytes cover the ModR/M byte and its displacement.
proof fn lemma_modrm_bytes(s: I8088, imm: int)
    requires
        modrm_loaded(s, imm),
        imm >= 0,
    ensures
        ModRM::of(s.byte_at(0)).mod_bits < 4,
        ModRM::of(s.byte_at(0)).reg < 8,
        ModRM::of(s.byte_at(0)).rm < 8,
        disp_len(s.byte_at(0)) == modrm_disp_len(ModRM::of(s.byte_at(0))),
        s.instr_pos + 1 + modrm_disp_len(ModRM::of(s.byte_at(0))) + imm == s.instr_len,
{
}

impl I8088 {
    /// Execute one instruction whose opcode has already been fetched, taking
    /// its operand bytes straight from memory at CS:IP, which points at the
    /// first of them. The loader buffer is used for the operands and left
    /// empty afterwards.
    ///
    /// The CPU ends as `run_instruction` leaves the loaded instruction, for
    /// whatever operand bytes memory held: IP moves past the operands of
    /// every opcode this core executes. An opcode it does not execute reads
    /// nothing and changes nothing.
    #[verifier::spinoff_prover]
    pub fn execute<B: Bus<Address = u32, Data = u8> + ?Sized>(
        &mut self,
        opcode: u8,
        bus: &mut B,
        master: BusMaster,
    )
        ensures
            !executed(opcode) ==> *final(self) == *old(self),
            !executed(opcode) ==> final(bus).accesses() == old(bus).accesses(),
            executed(opcode) ==> exists|t: I8088, v1: u16, v2: u16|
                #![trigger effect(t, opcode, v1, v2)]
                {
                    &&& t == (I8088 {
                        instr: t.instr,
                        instr_len: t.instr_len,
                        instr_pos: 1,
                        opcode_at: 0,
                        ..*old(self)
                    })
                    &&& t.instr@[0] == opcode
                    &&& operands_loaded(t, opcode)
                    &&& *final(self) == (I8088 {
                        instr_len: 0,
                        instr_pos: 0,
                        ..effect(t, opcode, v1, v2)
                    })
                    &&& final(bus).accesses() == old(bus).accesses() + operand_fetches(
                        old(self).cs,
                        old(self).ip,
                        t.instr@.subrange(1, t.instr_len as int),
                    ) + accesses_of(t, opcode, v1, v2)
                    &&& final(self).ip == (old(self).ip + t.unread()) % 65536
                },
    {
        if !is_executed(opcode) {
            return;
        }
        let ghost log0 = bus.accesses();
        self.instr[0] = opcode;
        self.opcode_at = 0;
        self.instr_pos = 1;
        let f = format_of(opcode);
        proof {
            super::format::law_far_pointer_only_on_far_transfers(opcode, None);
        }
        let mut len: u8;
        let mut k: u8;
        if f.modrm {
            let cs = self.cs;
            let ip = self.ip;
            let m = self.read_byte(bus, master, cs, ip);
            self.instr[1] = m;
            assert(bus.accesses() =~= log0 + operand_fetches(cs, ip, self.instr@.subrange(1, 2)));
            proof {
                super::format::law_far_pointer_only_on_far_transfers(opcode, Some(m));
            }
            len = 1 + super::format::displacement_len(m) + f.imm.len(Some(m));
            k = 1;
        } else {
            len = f.imm.len(None);
            k = 0;
        }
        let ghost first = self.instr@[1];
        let ghost s1 = *self;
        while k < len
            invariant
                len <= 5,
                k <= len,
                f == format_spec(opcode),
                f.modrm ==> k >= 1,
                f.modrm ==> self.instr@[1] == first,
                f.modrm ==> len == operand_len(opcode, first),
                !f.modrm ==> len == operand_len(opcode, first),
                self.instr@[0] == opcode,
                *self == (I8088 { instr: self.instr, ..s1 }),
                bus.accesses() == log0 + operand_fetches(
                    s1.cs,
                    s1.ip,
                    self.instr@.subrange(1, 1 + k as int),
                ),
            decreases len - k,
        {
            let cs = self.cs;
            let ip = self.ip;
            let ghost before = self.instr@;
            let b = self.read_byte(bus, master, cs, ip.wrapping_add(k as u16));
            self.instr[(1 + k) as usize] = b;
            assert(self.instr@.subrange(1, 1 + k as int) =~= before.subrange(1, 1 + k as int));
            k = k + 1;
            assert(bus.accesses() =~= log0 + operand_fetches(
                s1.cs,
                s1.ip,
                self.instr@.subrange(1, 1 + k as int),
            ));
        }
        self.instr_len = 1 + len;
        let ghost t = *self;
        assert(t.byte_at(0) == first || !f.modrm);
        let ghost log1 = bus.accesses();
        self.run_instruction(opcode, bus, master);
        let ghost e = *self;
        self.instr_len = 0;
        self.instr_pos = 0;
        proof {
            let (v1, v2) = choose|v1: u16, v2: u16|
                e == effect(t, opcode, v1, v2) && bus.accesses() == log1 + accesses_of(
                    t,
                    opcode,
                    v1,
                    v2,
                );
            assert(*self == (I8088 { instr_len: 0, instr_pos: 0, ..effect(t, opcode, v1, v2) }));
            assert(bus.accesses() == log0 + operand_fetches(
                s1.cs,
                s1.ip,
                t.instr@.subrange(1, t.instr_len as int),
            ) + accesses_of(t, opcode, v1, v2));
        }
    }

    /// Run the instruction whose opcode has just been consumed; its operand
    /// bytes are the unread bytes of the loaded instruction.
    #[verifier::spinoff_prover]
    pub fn run_instruction<B: Bus<Address = u32, Data = u8> + ?Sized>(
        &mut self,
        opcode: u8,
        bus: &mut B,
        master: BusMaster,
    )
        requires
            operands_loaded(*old(self), opcode),
        ensures
            exists|v1: u16, v2: u16|
                #![trigger effect(*old(self), opcode, v1, v2)]
                *final(self) == effect(*old(self), opcode, v1, v2) && final(bus).accesses()
                    == old(bus).accesses() + accesses_of(*old(self), opcode, v1, v2),
            only_regs_changed(*old(self), *final(self)),
            executed(opcode) ==> final(self).instr_pos == old(self).instr_len,
            executed(opcode) ==> final(self).ip == (old(self).ip + old(self).unread()) % 65536,
    {
        proof {
            lemma_loaded(*self, opcode);
        }
        let ghost s0 = *self;
        let ghost log0 = bus.accesses();
        match opcode {
            0x06 | 0x0E | 0x16 | 0x1E | 0x07 | 0x0F | 0x17 | 0x1F => {
                self.op_stack_seg(opcode, bus, master);
                proof {
                    let v = choose|v: u16|
                        *self == eff_stack_seg(s0, opcode, v) && bus.accesses() == log0 + acc_stack_seg(
                            s0,
                            opcode,
                            v,
                        );
                    assert(*self == effect(s0, opcode, v, 0));
                    assert(bus.accesses() == log0 + accesses_of(s0, opcode, v, 0));
                }
            },
            0x50..=0x5F => {
                self.op_stack_reg(opcode, bus, master);
                proof {
                    let v = choose|v: u16|
                        *self == eff_stack_reg(s0, opcode, v) && bus.accesses() == log0 + acc_stack_reg(
                            s0,
                            opcode,
                            v,
                        );
                    assert(*self == effect(s0, opcode, v, 0));
                    assert(bus.accesses() == log0 + accesses_of(s0, opcode, v, 0));
                }
            },
            0x86 | 0x87 => {
                self.op_xchg_rm(opcode, bus, master);
                proof {
                    let v = choose|v: u16|
                        *self == eff_xchg(s0, opcode, v) && bus.accesses() == log0 + acc_xchg(
                            s0,
                            opcode,
                            v,
                        );
                    assert(*self == effect(s0, opcode, v, 0));
                    assert(bus.accesses() == log0 + accesses_of(s0, opcode, v, 0));
                }
            },
            0x88..=0x8B => {
                self.op_mov_rm(opcode, bus, master);
                proof {
                    let v = choose|v: u16|
                        *self == eff_mov(s0, opcode, v) && bus.accesses() == log0 + acc_mov(
                            s0,
                            opcode,
                            v,
                        );
                    assert(*self == effect(s0, opcode, v, 0));
                    assert(bus.accesses() == log0 + accesses_of(s0, opcode, v, 0));
                }
            },
            0x8C | 0x8D | 0x8E => {
                self.op_sreg_lea(opcode, bus, master);
                proof {
                    let v = choose|v: u16|
                        *self == eff_sreg_lea(s0, opcode, v) && bus.accesses() == log0 + acc_sreg_lea(
                            s0,
                            opcode,
                            v,
                        );
                    assert(*self == effect(s0, opcode, v, 0));
                    assert(bus.accesses() == log0 + accesses_of(s0, opcode, v, 0));
                }
            },
            0x8F => {
                self.op_pop_rm(bus, master);
                proof {
                    let v = choose|v: u16|
                        *self == eff_pop_rm(s0, v) && bus.accesses() == log0 + acc_pop_rm(s0, v);
                    assert(*self == effect(s0, opcode, v, 0));
                    assert(bus.accesses() == log0 + accesses_of(s0, opcode, v, 0));
                }
            },
            0x90..=0x97 => {
                self.op_xchg_ax(opcode);
                assert(*self == effect(s0, opcode, 0, 0));
                assert(bus.accesses() =~= log0 + accesses_of(s0, opcode, 0, 0));
            },
            0x9E | 0x9F => {
                self.op_ahf(opcode);
                assert(*self == effect(s0, opcode, 0, 0));
                assert(bus.accesses() =~= log0 + accesses_of(s0, opcode, 0, 0));
            },
            0xA0..=0xA3 => {
                self.op_mov_moffs(opcode, bus, master);
                proof {
                    let v = choose|v: u16|
                        *self == eff_moffs(s0, opcode, v) && bus.accesses() == log0 + acc_moffs(
                            s0,
                            opcode,
                            v,
                        );
                    assert(*self == effect(s0, opcode, v, 0));
                    assert(bus.accesses() == log0 + accesses_of(s0, opcode, v, 0));
                }
            },
            0xB0..=0xBF => {
                self.op_mov_imm(opcode);
                assert(*self == effect(s0, opcode, 0, 0));
                assert(bus.accesses() =~= log0 + accesses_of(s0, opcode, 0, 0));
            },
            0xC4 | 0xC5 => {
                self.op_load_far(opcode, bus, master);
                proof {
                    let (v1, v2) = choose|v1: u16, v2: u16|
                        *self == eff_load_far(s0, opcode, v1, v2) && bus.accesses() == log0
                            + acc_load_far(s0, v1, v2);
                    assert(*self == effect(s0, opcode, v1, v2));
                    assert(bus.accesses() == log0 + accesses_of(s0, opcode, v1, v2));
                }
            },
            0xC6 | 0xC7 => {
                self.op_mov_rm_imm(opcode, bus, master);
                assert(*self == effect(s0, opcode, 0, 0));
                assert(bus.accesses() =~= log0 + accesses_of(s0, opcode, 0, 0));
            },
            0xD7 => {
                self.op_xlat(bus, master);
                proof {
                    let v = choose|v: u16|
                        *self == eff_xlat(s0, v) && bus.accesses() == log0 + acc_xlat(s0, v);
                    assert(*self == effect(s0, opcode, v, 0));
                    assert(bus.accesses() == log0 + accesses_of(s0, opcode, v, 0));
                }
            },
            0xFF => {
                self.op_group_ff(bus, master);
                proof {
                    let v = choose|v: u16| bus.accesses() == log0 + acc_group_ff(s0, v);
                    assert(*self == effect(s0, opcode, v, 0));
                    assert(bus.accesses() == log0 + accesses_of(s0, opcode, v, 0));
                }
            },
            _ => {
                assert(*self == effect(s0, opcode, 0, 0));
                assert(bus.accesses() =~= log0 + accesses_of(s0, opcode, 0, 0));
            },
        }
    }

    /// PUSH sreg (0x06, 0x0E, 0x16, 0x1E) and POP sreg (0x07, 0x0F, 0x17,
    /// 0x1F). POP CS is a plain pop on this part.
    #[verifier::spinoff_prover]
    fn op_stack_seg<B: Bus<Address = u32, Data = u8> + ?Sized>(
        &mut self,
        opcode: u8,
        bus: &mut B,
        master: BusMaster,
    )
        requires
            opcode == 0x06 || opcode == 0x0E || opcode == 0x16 || opcode == 0x1E || opcode == 0x07
                || opcode == 0x0F || opcode == 0x17 || opcode == 0x1F,
            old(self).unread() == 0,
        ensures
            exists|v: u16|
                #![trigger eff_stack_seg(*old(self), opcode, v)]
                *final(self) == eff_stack_seg(*old(self), opcode, v) && final(bus).accesses()
                    == old(bus).accesses() + acc_stack_seg(*old(self), opcode, v),
            final(self).instr_pos == old(self).instr_len,
            only_regs_changed(*old(self), *final(self)),
            final(self).ip == (old(self).ip + old(self).unread()) % 65536,
    {
        reveal(eff_stack_seg);
        reveal(acc_stack_seg);
        let ghost log0 = bus.accesses();
        let seg = I8088::decode_seg(opcode / 8);
        if opcode % 2 == 0 {
            let val = self.get_seg(seg);
            self.push16(bus, master, val);
            assert(*self == eff_stack_seg(*old(self), opcode, 0));
            assert(bus.accesses() =~= log0 + acc_stack_seg(*old(self), opcode, 0));
        } else {
            let val = self.pop16(bus, master);
            self.set_seg(seg, val);
            assert(*self == eff_stack_seg(*old(self), opcode, val));
            assert(bus.accesses() =~= log0 + acc_stack_seg(*old(self), opcode, val));
        }
    }

    /// PUSH reg16 (0x50-0x57), which pushes the value before SP moves, and
    /// POP reg16 (0x58-0x5F).
    #[verifier::spinoff_prover]
    fn op_stack_reg<B: Bus<Address = u32, Data = u8> + ?Sized>(
        &mut self,
        opcode: u8,
        bus: &mut B,
        master: BusMaster,
    )
        requires
            0x50 <= opcode <= 0x5F,
            old(self).unread() == 0,
        ensures
            exists|v: u16|
                #![trigger eff_stack_reg(*old(self), opcode, v)]
                *final(self) == eff_stack_reg(*old(self), opcode, v) && final(bus).accesses()
                    == old(bus).accesses() + acc_stack_reg(*old(self), opcode, v),
            final(self).instr_pos == old(self).instr_len,
            only_regs_changed(*old(self), *final(self)),
            final(self).ip == (old(self).ip + old(self).unread()) % 65536,
    {
        reveal(eff_stack_reg);
        reveal(acc_stack_reg);
        let ghost log0 = bus.accesses();
        if opcode <= 0x57 {
            let val = self.get_reg16(opcode % 8);
            self.push16(bus, master, val);
            assert(*self == eff_stack_reg(*old(self), opcode, 0));
            assert(bus.accesses() =~= log0 + acc_stack_reg(*old(self), opcode, 0));
        } else {
            let val = self.pop16(bus, master);
            self.set_reg16(opcode % 8, val);
            assert(*self == eff_stack_reg(*old(self), opcode, val));
            assert(bus.accesses() =~= log0 + acc_stack_reg(*old(self), opcode, val));
        }
    }

    /// XCHG r/m, reg (0x86 byte, 0x87 word).
    #[verifier::spinoff_prover]
    #[verifier::rlimit(50)]
    fn op_xchg_rm<B: Bus<Address = u32, Data = u8> + ?Sized>(
        &mut self,
        opcode: u8,
        bus: &mut B,
        master: BusMaster,
    )
        requires
            opcode == 0x86 || opcode == 0x87,
            modrm_loaded(*old(self), 0),
        ensures
            exists|v: u16|
                #![trigger eff_xchg(*old(self), opcode, v)]
                *final(self) == eff_xchg(*old(self), opcode, v) && final(bus).accesses()
                    == old(bus).accesses() + acc_xchg(*old(self), opcode, v),
            final(self).instr_pos == old(self).instr_len,
            only_regs_changed(*old(self), *final(self)),
            final(self).ip == (old(self).ip + old(self).unread()) % 65536,
    {
        reveal(eff_xchg);
        reveal(acc_xchg);
        let ghost log0 = bus.accesses();
        proof {
            lemma_modrm_bytes(*self, 0);
        }
        let ghost s0 = *self;
        let modrm = self.fetch_modrm();
        let operand = self.resolve_modrm(modrm);
        assert(*self == past_modrm(s0) && operand == operand_at(s0) && modrm == modrm_at(s0));
        if opcode == 0x86 {
            let a = self.get_reg8(modrm.reg);
            let b = self.read_operand8(operand, bus, master);
            self.set_reg8(modrm.reg, b);
            self.write_operand8(operand, bus, master, a);
            proof {
                super::registers::lemma_byte_halves(b as u16, b);
                assert(lo(b as u16) == b);
            }
            assert(*self == eff_xchg(*old(self), opcode, b as u16));
            assert(bus.accesses() =~= log0 + acc_xchg(*old(self), opcode, b as u16));
        } else {
            let a = self.get_reg16(modrm.reg);
            let b = self.read_operand16(operand, bus, master);
            self.set_reg16(modrm.reg, b);
            self.write_operand16(operand, bus, master, a);
            assert(*self == eff_xchg(*old(self), opcode, b));
            assert(bus.accesses() =~= log0 + acc_xchg(*old(self), opcode, b));
        }
    }

    /// MOV r/m, reg and MOV reg, r/m (0x88-0x8B): bit 0 selects word, bit 1
    /// selects the register as destination.
    #[verifier::spinoff_prover]
    #[verifier::rlimit(50)]
    fn op_mov_rm<B: Bus<Address = u32, Data = u8> + ?Sized>(
        &mut self,
        opcode: u8,
        bus: &mut B,
        master: BusMaster,
    )
        requires
            0x88 <= opcode <= 0x8B,
            modrm_loaded(*old(self), 0),
        ensures
            exists|v: u16|
                #![trigger eff_mov(*old(self), opcode, v)]
                *final(self) == eff_mov(*old(self), opcode, v) && final(bus).accesses()
                    == old(bus).accesses() + acc_mov(*old(self), opcode, v),
            final(self).instr_pos == old(self).instr_len,
            only_regs_changed(*old(self), *final(self)),
            final(self).ip == (old(self).ip + old(self).unread()) % 65536,
    {
        reveal(eff_mov);
        reveal(acc_mov);
        let ghost log0 = bus.accesses();
        proof {
            lemma_modrm_bytes(*self, 0);
        }
        let w = opcode % 2 == 1;
        let d = (opcode / 2) % 2 == 1;
        let ghost s0 = *self;
        let modrm = self.fetch_modrm();
        let operand = self.resolve_modrm(modrm);
        assert(*self == past_modrm(s0) && operand == operand_at(s0) && modrm == modrm_at(s0));
        if w {
            if d {
                let val = self.read_operand16(operand, bus, master);
                self.set_reg16(modrm.reg, val);
                assert(*self == eff_mov(*old(self), opcode, val));
                assert(bus.accesses() =~= log0 + acc_mov(*old(self), opcode, val));
            } else {
                let val = self.get_reg16(modrm.reg);
                self.write_operand16(operand, bus, master, val);
                assert(*self == eff_mov(*old(self), opcode, 0));
                assert(bus.accesses() =~= log0 + acc_mov(*old(self), opcode, 0));
            }
        } else if d {
            let val = self.read_operand8(operand, bus, master);
            self.set_reg8(modrm.reg, val);
            assert(lo(val as u16) == val);
            assert(*self == eff_mov(*old(self), opcode, val as u16));
            assert(bus.accesses() =~= log0 + acc_mov(*old(self), opcode, val as u16));
        } else {
            let val = self.get_reg8(modrm.reg);
            self.write_operand8(operand, bus, master, val);
            assert(*self == eff_mov(*old(self), opcode, 0));
            assert(bus.accesses() =~= log0 + acc_mov(*old(self), opcode, 0));
        }
    }

    /// MOV r/m16, sreg (0x8C), LEA reg16, mem (0x8D) and MOV sreg, r/m16
    /// (0x8E). LEA with a register operand does nothing.
    #[verifier::spinoff_prover]
    fn op_sreg_lea<B: Bus<Address = u32, Data = u8> + ?Sized>(
        &mut self,
        opcode: u8,
        bus: &mut B,
        master: BusMaster,
    )
        requires
            0x8C <= opcode <= 0x8E,
            modrm_loaded(*old(self), 0),
        ensures
            exists|v: u16|
                #![trigger eff_sreg_lea(*old(self), opcode, v)]
                *final(self) == eff_sreg_lea(*old(self), opcode, v) && final(bus).accesses()
                    == old(bus).accesses() + acc_sreg_lea(*old(self), opcode, v),
            final(self).instr_pos == old(self).instr_len,
            only_regs_changed(*old(self), *final(self)),
            final(self).ip == (old(self).ip + old(self).unread()) % 65536,
    {
        reveal(eff_sreg_lea);
        reveal(acc_sreg_lea);
        let ghost log0 = bus.accesses();
        proof {
            lemma_modrm_bytes(*self, 0);
        }
        let ghost s0 = *self;
        let modrm = self.fetch_modrm();
        let operand = self.resolve_modrm(modrm);
        assert(*self == past_modrm(s0) && operand == operand_at(s0) && modrm == modrm_at(s0));
        if opcode == 0x8C {
            let seg = I8088::decode_seg(modrm.reg);
            let val = self.get_seg(seg);
            self.write_operand16(operand, bus, master, val);
            assert(*self == eff_sreg_lea(*old(self), opcode, 0));
            assert(bus.accesses() =~= log0 + acc_sreg_lea(*old(self), opcode, 0));
        } else if opcode == 0x8D {
            if let Operand::Memory { offset, .. } = operand {
                self.set_reg16(modrm.reg, offset);
            }
            assert(*self == eff_sreg_lea(*old(self), opcode, 0));
            assert(bus.accesses() =~= log0 + acc_sreg_lea(*old(self), opcode, 0));
        } else {
            let val = self.read_operand16(operand, bus, master);
            let seg = I8088::decode_seg(modrm.reg);
            self.set_seg(seg, val);
            assert(*self == eff_sreg_lea(*old(self), opcode, val));
            assert(bus.accesses() =~= log0 + acc_sreg_lea(*old(self), opcode, val));
        }
    }

    /// POP r/m16 (0x8F /0). Other reg fields only decode.
    #[verifier::spinoff_prover]
    #[verifier::rlimit(100)]
    fn op_pop_rm<B: Bus<Address = u32, Data = u8> + ?Sized>(
        &mut self,
        bus: &mut B,
        master: BusMaster,
    )
        requires
            modrm_loaded(*old(self), 0),
        ensures
            exists|v: u16|
                #![trigger eff_pop_rm(*old(self), v)]
                *final(self) == eff_pop_rm(*old(self), v) && final(bus).accesses()
                    == old(bus).accesses() + acc_pop_rm(*old(self), v),
            final(self).instr_pos == old(self).instr_len,
            only_regs_changed(*old(self), *final(self)),
            final(self).ip == (old(self).ip + old(self).unread()) % 65536,
    {
        reveal(eff_pop_rm);
        reveal(acc_pop_rm);
        let ghost log0 = bus.accesses();
        proof {
            lemma_modrm_bytes(*self, 0);
        }
        let ghost s0 = *self;
        let modrm = self.fetch_modrm();
        let operand = self.resolve_modrm(modrm);
        assert(*self == past_modrm(s0) && operand == operand_at(s0) && modrm == modrm_at(s0));
        if modrm.reg == 0 {
            let val = self.pop16(bus, master);
            self.write_operand16(operand, bus, master, val);
            assert(*self == eff_pop_rm(*old(self), val));
            assert(bus.accesses() =~= log0 + acc_pop_rm(*old(self), val));
        } else {
            assert(*self == eff_pop_rm(*old(self), 0));
            assert(bus.accesses() =~= log0 + acc_pop_rm(*old(self), 0));
        }
    }

    /// XCHG AX, reg16 (0x90-0x97); 0x90 is NOP.
    #[verifier::spinoff_prover]
    fn op_xchg_ax(&mut self, opcode: u8)
        requires
            0x90 <= opcode <= 0x97,
            old(self).unread() == 0,
        ensures
            *final(self) == eff_xchg_ax(*old(self), opcode),
            final(self).instr_pos == old(self).instr_len,
            only_regs_changed(*old(self), *final(self)),
            final(self).ip == (old(self).ip + old(self).unread()) % 65536,
    {
        reveal(eff_xchg_ax);
        let reg = opcode % 8;
        let temp = self.ax;
        self.ax = self.get_reg16(reg);
        self.set_reg16(reg, temp);
    }

    /// SAHF (0x9E): SF, ZF, AF, PF and CF from AH, bit 1 set; LAHF (0x9F): AH
    /// from the low byte of FLAGS.
    #[verifier::spinoff_prover]
    fn op_ahf(&mut self, opcode: u8)
        requires
            opcode == 0x9E || opcode == 0x9F,
            old(self).unread() == 0,
        ensures
            *final(self) == eff_ahf(*old(self), opcode),
            final(self).instr_pos == old(self).instr_len,
            only_regs_changed(*old(self), *final(self)),
            final(self).ip == (old(self).ip + old(self).unread()) % 65536,
    {
        reveal(eff_ahf);
        if opcode == 0x9E {
            let ah = self.ah();
            let low = (ah & 0xD5) | 0x02;
            self.flags = (self.flags / 256) * 256 + low as u16;
        } else {
            let f = (self.flags % 256) as u8;
            self.set_ah(f);
        }
    }

    /// MOV AL/AX, [moffs] (0xA0, 0xA1) and MOV [moffs], AL/AX (0xA2, 0xA3).
    #[verifier::spinoff_prover]
    fn op_mov_moffs<B: Bus<Address = u32, Data = u8> + ?Sized>(
        &mut self,
        opcode: u8,
        bus: &mut B,
        master: BusMaster,
    )
        requires
            0xA0 <= opcode <= 0xA3,
            old(self).unread() == 2,
            old(self).instr_len <= MAX_INSTRUCTION,
        ensures
            exists|v: u16|
                #![trigger eff_moffs(*old(self), opcode, v)]
                *final(self) == eff_moffs(*old(self), opcode, v) && final(bus).accesses()
                    == old(bus).accesses() + acc_moffs(*old(self), opcode, v),
            final(self).instr_pos == old(self).instr_len,
            only_regs_changed(*old(self), *final(self)),
            final(self).ip == (old(self).ip + old(self).unread()) % 65536,
    {
        reveal(eff_moffs);
        reveal(acc_moffs);
        let ghost log0 = bus.accesses();
        let ghost s0 = *self;
        let offset = self.fetch_word();
        let seg = self.effective_segment(SegReg::DS);
        if opcode == 0xA0 {
            let val = self.read_byte(bus, master, seg, offset);
            self.set_al(val);
            assert(lo(val as u16) == val);
            assert(*self == eff_moffs(*old(self), opcode, val as u16));
            assert(bus.accesses() =~= log0 + acc_moffs(s0, opcode, val as u16));
        } else if opcode == 0xA1 {
            let val = self.read_word(bus, master, seg, offset);
            self.ax = val;
            assert(*self == eff_moffs(*old(self), opcode, val));
            assert(bus.accesses() =~= log0 + acc_moffs(s0, opcode, val));
        } else if opcode == 0xA2 {
            let al = self.al();
            self.write_byte(bus, master, seg, offset, al);
            assert(*self == eff_moffs(*old(self), opcode, 0));
            assert(bus.accesses() =~= log0 + acc_moffs(s0, opcode, 0));
        } else {
            let ax = self.ax;
            self.write_word(bus, master, seg, offset, ax);
            assert(*self == eff_moffs(*old(self), opcode, 0));
            assert(bus.accesses() =~= log0 + acc_moffs(s0, opcode, 0));
        }
    }

    /// MOV reg8, imm8 (0xB0-0xB7) and MOV reg16, imm16 (0xB8-0xBF).
    #[verifier::spinoff_prover]
    fn op_mov_imm(&mut self, opcode: u8)
        requires
            0xB0 <= opcode <= 0xBF,
            opcode <= 0xB7 ==> old(self).unread() == 1,
            opcode >= 0xB8 ==> old(self).unread() == 2,
            old(self).instr_len <= MAX_INSTRUCTION,
        ensures
            *final(self) == eff_mov_imm(*old(self), opcode),
            final(self).instr_pos == old(self).instr_len,
            only_regs_changed(*old(self), *final(self)),
            final(self).ip == (old(self).ip + old(self).unread()) % 65536,
    {
        reveal(eff_mov_imm);
        if opcode <= 0xB7 {
            let imm = self.fetch_byte();
            self.set_reg8(opcode % 8, imm);
        } else {
            let imm = self.fetch_word();
            self.set_reg16(opcode % 8, imm);
        }
    }

    /// LES (0xC4) and LDS (0xC5): load a far pointer from memory into a
    /// general register and ES or DS. A register operand does nothing.
    #[verifier::spinoff_prover]
    fn op_load_far<B: Bus<Address = u32, Data = u8> + ?Sized>(
        &mut self,
        opcode: u8,
        bus: &mut B,
        master: BusMaster,
    )
        requires
            opcode == 0xC4 || opcode == 0xC5,
            modrm_loaded(*old(self), 0),
        ensures
            exists|v1: u16, v2: u16|
                #![trigger eff_load_far(*old(self), opcode, v1, v2)]
                *final(self) == eff_load_far(*old(self), opcode, v1, v2) && final(bus).accesses()
                    == old(bus).accesses() + acc_load_far(*old(self), v1, v2),
            final(self).instr_pos == old(self).instr_len,
            only_regs_changed(*old(self), *final(self)),
            final(self).ip == (old(self).ip + old(self).unread()) % 65536,
    {
        reveal(eff_load_far);
        reveal(acc_load_far);
        let ghost log0 = bus.accesses();
        proof {
            lemma_modrm_bytes(*self, 0);
        }
        let ghost s0 = *self;
        let modrm = self.fetch_modrm();
        let operand = self.resolve_modrm(modrm);
        assert(*self == past_modrm(s0) && operand == operand_at(s0) && modrm == modrm_at(s0));
        if let Operand::Memory { segment, offset } = operand {
            let new_offset = self.read_word(bus, master, segment, offset);
            let new_seg = self.read_word(bus, master, segment, offset.wrapping_add(2));
            self.set_reg16(modrm.reg, new_offset);
            if opcode == 0xC4 {
                self.es = new_seg;
            } else {
                self.ds = new_seg;
            }
            assert(*self == eff_load_far(*old(self), opcode, new_offset, new_seg));
            assert(bus.accesses() =~= log0 + acc_load_far(*old(self), new_offset, new_seg));
        } else {
            assert(*self == eff_load_far(*old(self), opcode, 0, 0));
            assert(bus.accesses() =~= log0 + acc_load_far(*old(self), 0, 0));
        }
    }

    /// MOV r/m, imm (0xC6 byte, 0xC7 word); only the /0 form stores.
    #[verifier::spinoff_prover]
    #[verifier::rlimit(100)]
    fn op_mov_rm_imm<B: Bus<Address = u32, Data = u8> + ?Sized>(
        &mut self,
        opcode: u8,
        bus: &mut B,
        master: BusMaster,
    )
        requires
            opcode == 0xC6 ==> modrm_loaded(*old(self), 1),
            opcode == 0xC7 ==> modrm_loaded(*old(self), 2),
            opcode == 0xC6 || opcode == 0xC7,
        ensures
            *final(self) == eff_mov_rm_imm(*old(self), opcode),
            final(bus).accesses() == old(bus).accesses() + acc_mov_rm_imm(*old(self), opcode),
            final(self).instr_pos == old(self).instr_len,
            only_regs_changed(*old(self), *final(self)),
            final(self).ip == (old(self).ip + old(self).unread()) % 65536,
    {
        reveal(eff_mov_rm_imm);
        reveal(acc_mov_rm_imm);
        let ghost log0 = bus.accesses();
        proof {
            lemma_modrm_bytes(*self, if opcode == 0xC6 { 1 } else { 2 });
        }
        let ghost s0 = *self;
        let modrm = self.fetch_modrm();
        let operand = self.resolve_modrm(modrm);
        assert(*self == past_modrm(s0) && operand == operand_at(s0) && modrm == modrm_at(s0));
        if opcode == 0xC6 {
            let imm = self.fetch_byte();
            if modrm.reg == 0 {
                self.write_operand8(operand, bus, master, imm);
            }
        } else {
            let imm = self.fetch_word();
            if modrm.reg == 0 {
                self.write_operand16(operand, bus, master, imm);
            }
        }
        assert(bus.accesses() =~= log0 + acc_mov_rm_imm(s0, opcode));
    }

    /// XLAT (0xD7): AL = [DS:BX + AL], the segment overridable.
    #[verifier::spinoff_prover]
    fn op_xlat<B: Bus<Address = u32, Data = u8> + ?Sized>(&mut self, bus: &mut B, master: BusMaster)
        requires
            old(self).unread() == 0,
        ensures
            exists|v: u16|
                #![trigger eff_xlat(*old(self), v)]
                *final(self) == eff_xlat(*old(self), v) && final(bus).accesses()
                    == old(bus).accesses() + acc_xlat(*old(self), v),
            final(self).instr_pos == old(self).instr_len,
            only_regs_changed(*old(self), *final(self)),
            final(self).ip == (old(self).ip + old(self).unread()) % 65536,
    {
        reveal(eff_xlat);
        reveal(acc_xlat);
        let ghost log0 = bus.accesses();
        let seg = self.effective_segment(SegReg::DS);
        let offset = self.bx.wrapping_add(self.al() as u16);
        let val = self.read_byte(bus, master, seg, offset);
        self.set_al(val);
        assert(lo(val as u16) == val);
        assert(*self == eff_xlat(*old(self), val as u16));
        assert(bus.accesses() =~= log0 + acc_xlat(*old(self), val as u16));
    }

    /// The 0xFF group; only PUSH r/m16 (/6) runs here.
    #[verifier::spinoff_prover]
    #[verifier::rlimit(100)]
    fn op_group_ff<B: Bus<Address = u32, Data = u8> + ?Sized>(
        &mut self,
        bus: &mut B,
        master: BusMaster,
    )
        requires
            modrm_loaded(*old(self), 0),
        ensures
            *final(self) == eff_group_ff(*old(self)),
            exists|v: u16|
                final(bus).accesses() == old(bus).accesses() + #[trigger] acc_group_ff(*old(self), v),
            final(self).instr_pos == old(self).instr_len,
            only_regs_changed(*old(self), *final(self)),
            final(self).ip == (old(self).ip + old(self).unread()) % 65536,
    {
        reveal(eff_group_ff);
        reveal(acc_group_ff);
        let ghost log0 = bus.accesses();
        proof {
            lemma_modrm_bytes(*self, 0);
        }
        let ghost s0 = *self;
        let modrm = self.fetch_modrm();
        let operand = self.resolve_modrm(modrm);
        assert(*self == past_modrm(s0) && operand == operand_at(s0) && modrm == modrm_at(s0));
        if modrm.reg == 6 {
            let val = self.read_operand16(operand, bus, master);
            self.push16(bus, master, val);
            assert(bus.accesses() =~= log0 + acc_group_ff(s0, val));
        } else {
            assert(bus.accesses() =~= log0 + acc_group_ff(s0, 0));
        }
    }
}


/// PUSH reg16 then POP reg16, as two instructions, restore the pushed word
/// and SP: the POP reads the two addresses the PUSH wrote, and when memory
/// gives back the bytes written there, the popped register holds the pushed
/// register's value and SP is where it was before the PUSH. `t1` and `t2`
/// are the CPU as each instruction runs; between them nothing moved SS or
/// SP. SP itself is neither pushed nor popped here.
pub proof fn law_pop_reg_after_push_reg(t1: I8088, push_op: u8, t2: I8088, pop_op: u8, v: u16)
    requires
        0x50 <= push_op <= 0x57,
        0x58 <= pop_op <= 0x5F,
        push_op % 8 != 4,
        pop_op % 8 != 4,
        t2.ss == t1.ss,
        t2.sp == effect(t1, push_op, 0, 0).sp,
        accesses_of(t2, pop_op, v, 0)[0]->Read_1 == accesses_of(t1, push_op, 0, 0)[0]->Write_1,
        accesses_of(t2, pop_op, v, 0)[1]->Read_1 == accesses_of(t1, push_op, 0, 0)[1]->Write_1,
    ensures
        accesses_of(t2, pop_op, v, 0)[0]->Read_0 == accesses_of(t1, push_op, 0, 0)[0]->Write_0,
        accesses_of(t2, pop_op, v, 0)[1]->Read_0 == accesses_of(t1, push_op, 0, 0)[1]->Write_0,
        effect(t2, pop_op, v, 0).reg16(pop_op % 8) == t1.reg16(push_op % 8),
        effect(t2, pop_op, v, 0).sp == t1.sp,
{
    reveal(eff_stack_reg);
    reveal(acc_stack_reg);
    reveal(I8088::reg16);
    reveal(I8088::with_reg16);
    law_pop_reads_what_push_wrote(t1.ss, t1.sp, t1.reg16(push_op % 8), v);
}

/// PUSH sreg then POP sreg of the same register (ES, CS or DS), as two
/// instructions, restore the register and SP, on the same terms as
/// `law_pop_reg_after_push_reg`.
pub proof fn law_pop_seg_after_push_seg(t1: I8088, push_op: u8, t2: I8088, v: u16)
    requires
        push_op == 0x06 || push_op == 0x0E || push_op == 0x1E,
        t2.ss == t1.ss,
        t2.sp == effect(t1, push_op, 0, 0).sp,
        accesses_of(t2, (push_op + 1) as u8, v, 0)[0]->Read_1 == accesses_of(t1, push_op, 0, 0)[0]->Write_1,
        accesses_of(t2, (push_op + 1) as u8, v, 0)[1]->Read_1 == accesses_of(t1, push_op, 0, 0)[1]->Write_1,
    ensures
        accesses_of(t2, (push_op + 1) as u8, v, 0)[0]->Read_0 == accesses_of(t1, push_op, 0, 0)[0]->Write_0,
        accesses_of(t2, (push_op + 1) as u8, v, 0)[1]->Read_0 == accesses_of(t1, push_op, 0, 0)[1]->Write_0,
        effect(t2, (push_op + 1) as u8, v, 0).seg(seg_of(push_op / 8)) == t1.seg(seg_of(push_op / 8)),
        effect(t2, (push_op + 1) as u8, v, 0).sp == t1.sp,
{
    reveal(eff_stack_seg);
    reveal(acc_stack_seg);
    law_pop_reads_what_push_wrote(t1.ss, t1.sp, t1.seg(seg_of(push_op / 8)), v);
}

} // verus!
