//! Intel 8088 addressing mode resolution.
//!
//! With mod != 11 the R/M field selects one of eight base forms, with an
//! optional displacement:
//!
//! ```text
//! rm=000: [BX+SI]   rm=001: [BX+DI]   rm=010: [BP+SI]   rm=011: [BP+DI]
//! rm=100: [SI]      rm=101: [DI]      rm=110: [disp16] (mod=00) or [BP]
//! rm=111: [BX]
//! ```
//!
//! BP-based forms default to SS, every other form to DS. With mod == 11 the
//! R/M field names a register.

use vstd::prelude::*;
use super::I8088;
use super::decode::ModRM;
use super::registers::SegReg;
use crate::bus::{Bus, BusAccess, BusMaster};
use super::registers::phys;

verus! {

/// A resolved operand location: a memory address or a register encoding.
#[derive(Copy, Clone, Debug, PartialEq, Eq, Structural)]
pub enum Operand {
    /// Memory operand at segment:offset.
    Memory { segment: u16, offset: u16 },
    /// Register operand (the rm field).
    Register(u8),
}

/// A byte sign-extended to a word.
pub open spec fn sext8(b: u8) -> u16 {
    if b >= 0x80 {
        (b + 0xFF00) as u16
    } else {
        b as u16
    }
}

/// `a + b` modulo 65536.
pub open spec fn add16w(a: u16, b: u16) -> u16 {
    ((a + b) % 65536) as u16
}

/// How many displacement bytes a decoded ModR/M takes.
pub open spec fn modrm_disp_len(m: ModRM) -> int {
    if m.mod_bits == 0 {
        if m.rm == 6 { 2 } else { 0 }
    } else if m.mod_bits == 1 {
        1
    } else if m.mod_bits == 2 {
        2
    } else {
        0
    }
}

impl I8088 {
    /// The register part of an effective address and its default segment.
    /// For the direct form (mod=00 rm=110) the base is the 16-bit offset
    /// that follows in the instruction stream.
    pub open spec fn ea_base(&self, rm: u8, mod_bits: u8) -> (u16, SegReg) {
        let r = rm % 8;
        if r == 0 {
            (add16w(self.bx, self.si), SegReg::DS)
        } else if r == 1 {
            (add16w(self.bx, self.di), SegReg::DS)
        } else if r == 2 {
            (add16w(self.bp, self.si), SegReg::SS)
        } else if r == 3 {
            (add16w(self.bp, self.di), SegReg::SS)
        } else if r == 4 {
            (self.si, SegReg::DS)
        } else if r == 5 {
            (self.di, SegReg::DS)
        } else if r == 6 {
            if mod_bits == 0 {
                (self.word_at(0), SegReg::DS)
            } else {
                (self.bp, SegReg::SS)
            }
        } else {
            (self.bx, SegReg::DS)
        }
    }

    /// The operand a decoded ModR/M names, reading any displacement from the
    /// unread instruction bytes.
    pub open spec fn resolved(&self, m: ModRM) -> Operand {
        if m.mod_bits == 3 {
            Operand::Register(m.rm)
        } else {
            let (base, seg) = self.ea_base(m.rm, m.mod_bits);
            let offset = if m.mod_bits == 0 {
                base
            } else if m.mod_bits == 1 {
                add16w(base, sext8(self.byte_at(0)))
            } else {
                add16w(base, self.word_at(0))
            };
            Operand::Memory { segment: self.eff_seg(seg), offset }
        }
    }

    /// Resolve a ModR/M byte into an operand, consuming any displacement
    /// bytes from the loaded instruction.
    #[verifier::spinoff_prover]
    #[verifier::rlimit(100)]
    pub fn resolve_modrm(&mut self, modrm: ModRM) -> (r: Operand)
        requires
            modrm.mod_bits < 4,
            modrm.rm < 8,
            old(self).instr_len <= super::MAX_INSTRUCTION,
            old(self).instr_pos + modrm_disp_len(modrm) <= old(self).instr_len,
        ensures
            r == old(self).resolved(modrm),
            I8088::consumed(*old(self), *final(self), modrm_disp_len(modrm)),
    {
        if modrm.is_reg() {
            return Operand::Register(modrm.rm);
        }
        let ghost s0 = *self;
        let (base_offset, default_seg) = self.compute_ea_base(modrm.rm, modrm.mod_bits);
        let ghost s1 = *self;
        let offset = match modrm.mod_bits {
            0 => base_offset,
            1 => {
                let b = self.fetch_byte();
                let disp: u16 = if b >= 0x80 {
                    b as u16 + 0xFF00
                } else {
                    b as u16
                };
                base_offset.wrapping_add(disp)
            },
            _ => {
                let disp = self.fetch_word();
                base_offset.wrapping_add(disp)
            },
        };
        proof {
            let a: int = if modrm.rm == 6 && modrm.mod_bits == 0 { 2 } else { 0 };
            I8088::lemma_consumed_trans(s0, s1, *self, a, modrm_disp_len(modrm) - a);
        }
        let segment = self.effective_segment(default_seg);
        Operand::Memory { segment, offset }
    }

    /// The base effective address for an R/M field and its default segment;
    /// the direct form consumes its 16-bit offset.
    #[verifier::rlimit(40)]
    fn compute_ea_base(&mut self, rm: u8, mod_bits: u8) -> (r: (u16, SegReg))
        requires
            rm < 8,
            old(self).instr_len <= super::MAX_INSTRUCTION,
            rm == 6 && mod_bits == 0 ==> old(self).instr_pos + 2 <= old(self).instr_len,
        ensures
            r == old(self).ea_base(rm, mod_bits),
            I8088::consumed(*old(self), *final(self), if rm == 6 && mod_bits == 0 { 2int } else { 0 }),
    {
        match rm {
            0 => (self.bx.wrapping_add(self.si), SegReg::DS),
            1 => (self.bx.wrapping_add(self.di), SegReg::DS),
            2 => (self.bp.wrapping_add(self.si), SegReg::SS),
            3 => (self.bp.wrapping_add(self.di), SegReg::SS),
            4 => (self.si, SegReg::DS),
            5 => (self.di, SegReg::DS),
            6 => {
                if mod_bits == 0 {
                    let offset = self.fetch_word();
                    (offset, SegReg::DS)
                } else {
                    (self.bp, SegReg::SS)
                }
            },
            _ => (self.bx, SegReg::DS),
        }
    }

    /// Read an 8-bit value from a resolved operand: a register reads its
    /// value, a memory operand reads the bus.
    pub fn read_operand8<B: Bus<Address = u32, Data = u8> + ?Sized>(
        &self,
        operand: Operand,
        bus: &mut B,
        master: BusMaster,
    ) -> (r: u8)
        ensures
            operand matches Operand::Register(rm) ==> r == self.reg8(rm) && final(bus).accesses()
                == old(bus).accesses(),
            operand matches Operand::Memory { segment, offset } ==> final(bus).accesses()
                == old(bus).accesses().push(BusAccess::Read(phys(segment, offset), r)),
    {
        match operand {
            Operand::Register(rm) => self.get_reg8(rm),
            Operand::Memory { segment, offset } => self.read_byte(bus, master, segment, offset),
        }
    }

    /// Write an 8-bit value to a resolved operand: a register is set, a
    /// memory operand is written over the bus and leaves the CPU unchanged.
    pub fn write_operand8<B: Bus<Address = u32, Data = u8> + ?Sized>(
        &mut self,
        operand: Operand,
        bus: &mut B,
        master: BusMaster,
        val: u8,
    )
        ensures
            *final(self) == match operand {
                Operand::Register(rm) => old(self).with_reg8(rm, val),
                Operand::Memory { .. } => *old(self),
            },
            final(bus).accesses() == match operand {
                Operand::Register(_) => old(bus).accesses(),
                Operand::Memory { segment, offset } => old(bus).accesses().push(
                    BusAccess::Write(phys(segment, offset), val),
                ),
            },
    {
        match operand {
            Operand::Register(rm) => self.set_reg8(rm, val),
            Operand::Memory { segment, offset } => {
                self.write_byte(bus, master, segment, offset, val);
            },
        }
    }

    /// Read a 16-bit value from a resolved operand.
    pub fn read_operand16<B: Bus<Address = u32, Data = u8> + ?Sized>(
        &self,
        operand: Operand,
        bus: &mut B,
        master: BusMaster,
    ) -> (r: u16)
        ensures
            operand matches Operand::Register(rm) ==> r == self.reg16(rm) && final(bus).accesses()
                == old(bus).accesses(),
            operand matches Operand::Memory { segment, offset } ==> final(bus).accesses()
                == old(bus).accesses().push(
                BusAccess::Read(phys(segment, offset), (r % 256) as u8),
            ).push(BusAccess::Read(phys(segment, offset.wrapping_add(1)), (r / 256) as u8)),
    {
        match operand {
            Operand::Register(rm) => self.get_reg16(rm),
            Operand::Memory { segment, offset } => self.read_word(bus, master, segment, offset),
        }
    }

    /// Write a 16-bit value to a resolved operand.
    pub fn write_operand16<B: Bus<Address = u32, Data = u8> + ?Sized>(
        &mut self,
        operand: Operand,
        bus: &mut B,
        master: BusMaster,
        val: u16,
    )
        ensures
            *final(self) == match operand {
                Operand::Register(rm) => old(self).with_reg16(rm, val),
                Operand::Memory { .. } => *old(self),
            },
            final(bus).accesses() == match operand {
                Operand::Register(_) => old(bus).accesses(),
                Operand::Memory { segment, offset } => old(bus).accesses().push(
                    BusAccess::Write(phys(segment, offset), (val % 256) as u8),
                ).push(BusAccess::Write(phys(segment, offset.wrapping_add(1)), (val / 256) as u8)),
            },
    {
        match operand {
            Operand::Register(rm) => self.set_reg16(rm, val),
            Operand::Memory { segment, offset } => {
                self.write_word(bus, master, segment, offset, val);
            },
        }
    }
}

} // verus!
