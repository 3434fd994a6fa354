//! Intel 8088 instruction decoding: prefix bytes and the ModR/M byte.

use vstd::prelude::*;
use super::registers::{SegReg, phys};
use super::{I8088, RepPrefix, MAX_INSTRUCTION, is_prefix};
use crate::bus::{Bus, BusAccess, BusMaster};

verus! {

/// Prefix byte classification.
#[derive(Copy, Clone, Debug, PartialEq, Eq, Structural)]
pub enum Prefix {
    SegmentOverride(SegReg),
    Rep,
    Repnz,
    Lock,
}

/// The prefix a byte is, if it is one.
pub open spec fn prefix_of(byte: u8) -> Option<Prefix> {
    if byte == 0x26 {
        Some(Prefix::SegmentOverride(SegReg::ES))
    } else if byte == 0x2E {
        Some(Prefix::SegmentOverride(SegReg::CS))
    } else if byte == 0x36 {
        Some(Prefix::SegmentOverride(SegReg::SS))
    } else if byte == 0x3E {
        Some(Prefix::SegmentOverride(SegReg::DS))
    } else if byte == 0xF0 {
        Some(Prefix::Lock)
    } else if byte == 0xF2 {
        Some(Prefix::Repnz)
    } else if byte == 0xF3 {
        Some(Prefix::Rep)
    } else {
        None
    }
}

/// Classify a byte as a prefix. Returns `None` if it is not one.
pub fn decode_prefix(byte: u8) -> (r: Option<Prefix>)
    ensures
        r == prefix_of(byte),
{
    match byte {
        0x26 => Some(Prefix::SegmentOverride(SegReg::ES)),
        0x2E => Some(Prefix::SegmentOverride(SegReg::CS)),
        0x36 => Some(Prefix::SegmentOverride(SegReg::SS)),
        0x3E => Some(Prefix::SegmentOverride(SegReg::DS)),
        0xF0 => Some(Prefix::Lock),
        0xF2 => Some(Prefix::Repnz),
        0xF3 => Some(Prefix::Rep),
        _ => None,
    }
}

/// Decoded ModR/M byte fields.
#[derive(Copy, Clone, Debug, PartialEq, Eq, Structural)]
pub struct ModRM {
    /// Mode field (bits 7:6): 0=memory, 1=mem+disp8, 2=mem+disp16, 3=register
    pub mod_bits: u8,
    /// Register/opcode field (bits 5:3)
    pub reg: u8,
    /// Register/memory field (bits 2:0)
    pub rm: u8,
}

impl ModRM {
    /// The three fields of a ModR/M byte.
    pub open spec fn of(byte: u8) -> ModRM {
        ModRM { mod_bits: byte / 64, reg: (byte / 8) % 8, rm: byte % 8 }
    }

    /// Decode a ModR/M byte into its three fields.
    pub fn decode(byte: u8) -> (r: Self)
        ensures
            r == ModRM::of(byte),
            r.mod_bits < 4 && r.reg < 8 && r.rm < 8,
            byte == r.mod_bits * 64 + r.reg * 8 + r.rm,
    {
        ModRM { mod_bits: byte / 64, reg: (byte / 8) % 8, rm: byte % 8 }
    }

    /// Returns true if the R/M field refers to a register (mod == 3).
    pub fn is_reg(&self) -> (r: bool)
        ensures
            r == (self.mod_bits == 3),
    {
        self.mod_bits == 3
    }
}

/// The last segment override among `bytes[from..to]`, if any.
pub open spec fn last_seg_override(bytes: Seq<u8>, from: int, to: int) -> Option<SegReg>
    decreases to - from,
{
    if to <= from {
        None
    } else {
        match prefix_of(bytes[to - 1]) {
            Some(Prefix::SegmentOverride(s)) => Some(s),
            _ => last_seg_override(bytes, from, to - 1),
        }
    }
}

/// The last REP or REPNZ prefix among `bytes[from..to]`, if any.
pub open spec fn last_rep(bytes: Seq<u8>, from: int, to: int) -> Option<RepPrefix>
    decreases to - from,
{
    if to <= from {
        None
    } else {
        match prefix_of(bytes[to - 1]) {
            Some(Prefix::Rep) => Some(RepPrefix::Rep),
            Some(Prefix::Repnz) => Some(RepPrefix::Repnz),
            _ => last_rep(bytes, from, to - 1),
        }
    }
}

/// The index of the first non-prefix byte at or after `from`, given that
/// there is one before `to`.
pub open spec fn first_non_prefix(bytes: Seq<u8>, from: int, to: int) -> int
    decreases to - from,
{
    if to <= from {
        to
    } else if !is_prefix(bytes[from]) {
        from
    } else {
        first_non_prefix(bytes, from + 1, to)
    }
}

/// `first_non_prefix` lands on a non-prefix in range, with only prefixes
/// before it.
pub proof fn lemma_first_non_prefix(bytes: Seq<u8>, from: int, to: int)
    requires
        0 <= from,
        to <= bytes.len(),
        exists|j: int| from <= j < to && !is_prefix(bytes[j]),
    ensures
        from <= first_non_prefix(bytes, from, to) < to,
        !is_prefix(bytes[first_non_prefix(bytes, from, to)]),
        forall|j: int| from <= j < first_non_prefix(bytes, from, to) ==> is_prefix(bytes[j]),
    decreases to - from,
{
    if is_prefix(bytes[from]) {
        let w = choose|j: int| from <= j < to && !is_prefix(bytes[j]);
        assert(w != from);
        lemma_first_non_prefix(bytes, from + 1, to);
    }
}

/// When only prefixes stand before a non-prefix at `at`, that is the first
/// non-prefix.
pub proof fn lemma_first_non_prefix_at(bytes: Seq<u8>, from: int, to: int, at: int)
    requires
        from <= at < to,
        !is_prefix(bytes[at]),
        forall|j: int| from <= j < at ==> is_prefix(bytes[j]),
    ensures
        first_non_prefix(bytes, from, to) == at,
    decreases at - from,
{
    if from < at {
        lemma_first_non_prefix_at(bytes, from + 1, to, at);
    }
}

impl I8088 {
    /// The byte `k` places past the executor's read position.
    pub open spec fn byte_at(&self, k: int) -> u8 {
        self.instr@[self.instr_pos + k]
    }

    /// The little-endian word `k` places past the executor's read position.
    pub open spec fn word_at(&self, k: int) -> u16 {
        (self.byte_at(k) + self.byte_at(k + 1) * 256) as u16
    }

    /// The bytes the loader has fetched and the executor has not consumed.
    pub open spec fn unread(&self) -> int {
        self.instr_len - self.instr_pos
    }

    /// `new` is `old` with its next `n` instruction bytes consumed: the read
    /// position and IP both moved on by `n`, nothing else changed.
    pub open spec fn consumed(old: I8088, new: I8088, n: int) -> bool {
        &&& new.instr_pos == old.instr_pos + n
        &&& new.ip == (old.ip + n) % 65536
        &&& new == (I8088 { instr_pos: new.instr_pos, ip: new.ip, ..old })
    }

    /// Consuming `a` bytes and then `b` more consumes `a + b`.
    pub proof fn lemma_consumed_trans(s0: I8088, s1: I8088, s2: I8088, a: int, b: int)
        requires
            I8088::consumed(s0, s1, a),
            I8088::consumed(s1, s2, b),
            a >= 0,
            b >= 0,
        ensures
            I8088::consumed(s0, s2, a + b),
    {
        assert(((s0.ip + a) % 65536 + b) % 65536 == (s0.ip + a + b) % 65536) by (nonlinear_arith)
            requires a >= 0, b >= 0;
    }

    /// Take the next byte of the loaded instruction and advance IP.
    pub fn fetch_byte(&mut self) -> (r: u8)
        requires
            old(self).instr_pos < old(self).instr_len <= MAX_INSTRUCTION,
        ensures
            r == old(self).byte_at(0),
            I8088::consumed(*old(self), *final(self), 1),
    {
        let byte = self.instr[self.instr_pos as usize];
        self.instr_pos = self.instr_pos + 1;
        self.ip = self.ip.wrapping_add(1);
        byte
    }

    /// Take the next 16-bit word of the instruction (little-endian).
    pub fn fetch_word(&mut self) -> (r: u16)
        requires
            old(self).instr_pos + 2 <= old(self).instr_len <= MAX_INSTRUCTION,
        ensures
            r == old(self).word_at(0),
            I8088::consumed(*old(self), *final(self), 2),
    {
        let lo = self.fetch_byte() as u16;
        let hi = self.fetch_byte() as u16;
        hi * 256 + lo
    }

    /// Take and decode the ModR/M byte.
    pub fn fetch_modrm(&mut self) -> (r: ModRM)
        requires
            old(self).instr_pos < old(self).instr_len <= MAX_INSTRUCTION,
        ensures
            r == ModRM::of(old(self).byte_at(0)),
            I8088::consumed(*old(self), *final(self), 1),
    {
        ModRM::decode(self.fetch_byte())
    }

    /// Consume the prefix bytes of the loaded instruction, setting the segment
    /// override and the REP state from the last of each kind. Returns the
    /// first non-prefix byte, the opcode.
    pub fn consume_prefixes(&mut self) -> (opcode: u8)
        requires
            old(self).instr_len <= MAX_INSTRUCTION,
            old(self).instr_pos <= old(self).instr_len,
            exists|j: int|
                old(self).instr_pos <= j < old(self).instr_len && !is_prefix(old(self).instr@[j]),
        ensures
            ({
                let b = old(self).instr@;
                let at = first_non_prefix(b, old(self).instr_pos as int, old(self).instr_len as int);
                &&& opcode == b[at]
                &&& !is_prefix(opcode)
                &&& final(self).instr_pos == at + 1
                &&& final(self).ip == (old(self).ip + (at + 1 - old(self).instr_pos)) % 65536
                &&& final(self).segment_override == last_seg_override(b, old(self).instr_pos as int, at)
                &&& final(self).rep_prefix == last_rep(b, old(self).instr_pos as int, at)
                &&& *final(self) == (I8088 {
                    instr_pos: final(self).instr_pos,
                    ip: final(self).ip,
                    segment_override: final(self).segment_override,
                    rep_prefix: final(self).rep_prefix,
                    ..*old(self)
                })
            }),
    {
        let ghost b = self.instr@;
        let ghost start = self.instr_pos as int;
        let ghost end = self.instr_len as int;
        proof {
            lemma_first_non_prefix(b, start, end);
        }
        let ghost at = first_non_prefix(b, start, end);
        self.segment_override = None;
        self.rep_prefix = None;
        loop
            invariant
                b == self.instr@,
                b == old(self).instr@,
                start == old(self).instr_pos,
                end == old(self).instr_len,
                at == first_non_prefix(b, start, end),
                start <= self.instr_pos <= at,
                at < end,
                end == self.instr_len,
                end <= MAX_INSTRUCTION,
                !is_prefix(b[at]),
                forall|j: int| start <= j < at ==> is_prefix(b[j]),
                self.segment_override == last_seg_override(b, start, self.instr_pos as int),
                self.rep_prefix == last_rep(b, start, self.instr_pos as int),
                self.ip == (old(self).ip + (self.instr_pos - start)) % 65536,
                *self == (I8088 {
                    instr_pos: self.instr_pos,
                    ip: self.ip,
                    segment_override: self.segment_override,
                    rep_prefix: self.rep_prefix,
                    ..*old(self)
                }),
            decreases at - self.instr_pos,
        {
            let ghost p = self.instr_pos as int;
            let byte = self.fetch_byte();
            proof {
                if p < at {
                    assert(is_prefix(b[p]));
                }
                assert(byte == b[p]);
            }
            match decode_prefix(byte) {
                Some(Prefix::SegmentOverride(seg)) => {
                    self.segment_override = Some(seg);
                },
                Some(Prefix::Rep) => {
                    self.rep_prefix = Some(RepPrefix::Rep);
                },
                Some(Prefix::Repnz) => {
                    self.rep_prefix = Some(RepPrefix::Repnz);
                },
                Some(Prefix::Lock) => {},
                None => {
                    assert(p == at);
                    return byte;
                },
            }
        }
    }

    /// Read one byte of memory at segment:offset.
    pub fn read_byte<B: Bus<Address = u32, Data = u8> + ?Sized>(
        &self,
        bus: &mut B,
        master: BusMaster,
        segment: u16,
        offset: u16,
    ) -> (r: u8)
        ensures
            final(bus).accesses() == old(bus).accesses().push(
                BusAccess::Read(phys(segment, offset), r),
            ),
    {
        bus.read(master, I8088::physical_addr(segment, offset))
    }

    /// Write one byte of memory at segment:offset.
    pub fn write_byte<B: Bus<Address = u32, Data = u8> + ?Sized>(
        &self,
        bus: &mut B,
        master: BusMaster,
        segment: u16,
        offset: u16,
        data: u8,
    )
        ensures
            final(bus).accesses() == old(bus).accesses().push(
                BusAccess::Write(phys(segment, offset), data),
            ),
    {
        bus.write(master, I8088::physical_addr(segment, offset), data);
    }

    /// Read a 16-bit word from memory at segment:offset, low byte first; the
    /// high byte's offset wraps within the segment.
    pub fn read_word<B: Bus<Address = u32, Data = u8> + ?Sized>(
        &self,
        bus: &mut B,
        master: BusMaster,
        segment: u16,
        offset: u16,
    ) -> (r: u16)
        ensures
            final(bus).accesses() == old(bus).accesses().push(
                BusAccess::Read(phys(segment, offset), (r % 256) as u8),
            ).push(BusAccess::Read(phys(segment, offset.wrapping_add(1)), (r / 256) as u8)),
    {
        let lo = bus.read(master, I8088::physical_addr(segment, offset));
        let hi = bus.read(master, I8088::physical_addr(segment, offset.wrapping_add(1)));
        hi as u16 * 256 + lo as u16
    }

    /// Write a 16-bit word to memory at segment:offset, low byte first.
    pub fn write_word<B: Bus<Address = u32, Data = u8> + ?Sized>(
        &self,
        bus: &mut B,
        master: BusMaster,
        segment: u16,
        offset: u16,
        data: u16,
    )
        ensures
            final(bus).accesses() == old(bus).accesses().push(
                BusAccess::Write(phys(segment, offset), (data % 256) as u8),
            ).push(BusAccess::Write(phys(segment, offset.wrapping_add(1)), (data / 256) as u8)),
    {
        bus.write(master, I8088::physical_addr(segment, offset), (data % 256) as u8);
        bus.write(master, I8088::physical_addr(segment, offset.wrapping_add(1)), (data / 256) as u8);
    }

    /// Push a 16-bit value onto the stack: SP moves down two, then the word is
    /// written at SS:SP.
    pub fn push16<B: Bus<Address = u32, Data = u8> + ?Sized>(
        &mut self,
        bus: &mut B,
        master: BusMaster,
        value: u16,
    )
        ensures
            *final(self) == (I8088 { sp: old(self).sp.wrapping_sub(2), ..*old(self) }),
            final(bus).accesses() == old(bus).accesses().push(
                push_writes(old(self).ss, final(self).sp, value).0,
            ).push(push_writes(old(self).ss, final(self).sp, value).1),
    {
        self.sp = self.sp.wrapping_sub(2);
        self.write_word(bus, master, self.ss, self.sp, value);
    }

    /// Pop a 16-bit value from the stack: read at SS:SP, then SP moves up two.
    pub fn pop16<B: Bus<Address = u32, Data = u8> + ?Sized>(
        &mut self,
        bus: &mut B,
        master: BusMaster,
    ) -> (r: u16)
        ensures
            *final(self) == (I8088 { sp: old(self).sp.wrapping_add(2), ..*old(self) }),
            final(bus).accesses() == old(bus).accesses().push(
                pop_reads(old(self).ss, old(self).sp, r).0,
            ).push(pop_reads(old(self).ss, old(self).sp, r).1),
    {
        let val = self.read_word(bus, master, self.ss, self.sp);
        self.sp = self.sp.wrapping_add(2);
        val
    }
}

/// The two writes PUSH makes of `value` with SP already moved down to
/// `top`: the low byte at SS:top, then the high byte at SS:top+1.
pub open spec fn push_writes(ss: u16, top: u16, value: u16) -> (BusAccess<u32, u8>, BusAccess<
    u32,
    u8,
>) {
    (
        BusAccess::Write(phys(ss, top), (value % 256) as u8),
        BusAccess::Write(phys(ss, top.wrapping_add(1)), (value / 256) as u8),
    )
}

/// The two reads POP makes with SP at `top`, returning `r`: the low byte at
/// SS:top, then the high byte at SS:top+1.
pub open spec fn pop_reads(ss: u16, top: u16, r: u16) -> (BusAccess<u32, u8>, BusAccess<u32, u8>) {
    (
        BusAccess::Read(phys(ss, top), (r % 256) as u8),
        BusAccess::Read(phys(ss, top.wrapping_add(1)), (r / 256) as u8),
    )
}

/// POP reads back the word PUSH wrote. After a PUSH from SP `sp`, a POP
/// starting where the PUSH left SP reads the two addresses the PUSH wrote,
/// in the same order, and leaves SP at `sp`; when the bytes it reads are
/// the bytes the PUSH wrote, it returns the word pushed.
pub proof fn law_pop_reads_what_push_wrote(ss: u16, sp: u16, value: u16, r: u16)
    ensures
        ({
            let top = sp.wrapping_sub(2);
            let (w0, w1) = push_writes(ss, top, value);
            let (r0, r1) = pop_reads(ss, top, r);
            &&& top.wrapping_add(2) == sp
            &&& w0->Write_0 == r0->Read_0
            &&& w1->Write_0 == r1->Read_0
            &&& (r0->Read_1 == w0->Write_1 && r1->Read_1 == w1->Write_1 ==> r == value)
        }),
{
}

} // verus!
