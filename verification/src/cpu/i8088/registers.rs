//! Intel 8088 register encodings and accessors.
//!
//! Four 16-bit general registers (AX, BX, CX, DX) with addressable 8-bit
//! halves, index registers SI and DI, pointer registers BP and SP, four
//! segment registers and IP.

use vstd::prelude::*;
use super::I8088;

verus! {

/// Segment register selector.
#[derive(Copy, Clone, Debug, PartialEq, Eq, Structural)]
pub enum SegReg {
    ES,
    CS,
    SS,
    DS,
}

/// 8-bit register encoding as used in the ModR/M `reg` field.
#[derive(Copy, Clone, Debug, PartialEq, Eq, Structural)]
pub enum Reg8 {
    AL,
    CL,
    DL,
    BL,
    AH,
    CH,
    DH,
    BH,
}

/// 16-bit register encoding as used in the ModR/M `reg` field.
#[derive(Copy, Clone, Debug, PartialEq, Eq, Structural)]
pub enum Reg16 {
    AX,
    CX,
    DX,
    BX,
    SP,
    BP,
    SI,
    DI,
}

/// The low byte of a word.
pub open spec fn lo(x: u16) -> u8 {
    (x % 256) as u8
}

/// The high byte of a word.
pub open spec fn hi(x: u16) -> u8 {
    (x / 256) as u8
}

/// A word with its low byte replaced.
pub open spec fn set_lo(x: u16, v: u8) -> u16 {
    ((x / 256) * 256 + v) as u16
}

/// A word with its high byte replaced.
pub open spec fn set_hi(x: u16, v: u8) -> u16 {
    (x % 256 + v * 256) as u16
}

/// The segment register a 2-bit field selects (0=ES, 1=CS, 2=SS, 3=DS).
pub open spec fn seg_of(bits: u8) -> SegReg {
    let b = bits % 4;
    if b == 0 {
        SegReg::ES
    } else if b == 1 {
        SegReg::CS
    } else if b == 2 {
        SegReg::SS
    } else {
        SegReg::DS
    }
}

/// `segment:offset` as a 20-bit physical address.
pub open spec fn phys(segment: u16, offset: u16) -> u32 {
    ((segment * 16 + offset) % 0x100000) as u32
}

impl I8088 {
    /// The 8-bit register encoded by `reg` (0=AL..7=BH, taken modulo 8).
    #[verifier::opaque]
    pub open spec fn reg8(&self, reg: u8) -> u8 {
        let r = reg % 8;
        if r == 0 {
            lo(self.ax)
        } else if r == 1 {
            lo(self.cx)
        } else if r == 2 {
            lo(self.dx)
        } else if r == 3 {
            lo(self.bx)
        } else if r == 4 {
            hi(self.ax)
        } else if r == 5 {
            hi(self.cx)
        } else if r == 6 {
            hi(self.dx)
        } else {
            hi(self.bx)
        }
    }

    /// This CPU with the 8-bit register `reg` set to `val`.
    #[verifier::opaque]
    pub open spec fn with_reg8(self, reg: u8, val: u8) -> I8088 {
        let r = reg % 8;
        if r == 0 {
            I8088 { ax: set_lo(self.ax, val), ..self }
        } else if r == 1 {
            I8088 { cx: set_lo(self.cx, val), ..self }
        } else if r == 2 {
            I8088 { dx: set_lo(self.dx, val), ..self }
        } else if r == 3 {
            I8088 { bx: set_lo(self.bx, val), ..self }
        } else if r == 4 {
            I8088 { ax: set_hi(self.ax, val), ..self }
        } else if r == 5 {
            I8088 { cx: set_hi(self.cx, val), ..self }
        } else if r == 6 {
            I8088 { dx: set_hi(self.dx, val), ..self }
        } else {
            I8088 { bx: set_hi(self.bx, val), ..self }
        }
    }

    /// The 16-bit register encoded by `reg` (0=AX..7=DI, taken modulo 8).
    #[verifier::opaque]
    pub open spec fn reg16(&self, reg: u8) -> u16 {
        let r = reg % 8;
        if r == 0 {
            self.ax
        } else if r == 1 {
            self.cx
        } else if r == 2 {
            self.dx
        } else if r == 3 {
            self.bx
        } else if r == 4 {
            self.sp
        } else if r == 5 {
            self.bp
        } else if r == 6 {
            self.si
        } else {
            self.di
        }
    }

    /// This CPU with the 16-bit register `reg` set to `val`.
    #[verifier::opaque]
    pub open spec fn with_reg16(self, reg: u8, val: u16) -> I8088 {
        let r = reg % 8;
        if r == 0 {
            I8088 { ax: val, ..self }
        } else if r == 1 {
            I8088 { cx: val, ..self }
        } else if r == 2 {
            I8088 { dx: val, ..self }
        } else if r == 3 {
            I8088 { bx: val, ..self }
        } else if r == 4 {
            I8088 { sp: val, ..self }
        } else if r == 5 {
            I8088 { bp: val, ..self }
        } else if r == 6 {
            I8088 { si: val, ..self }
        } else {
            I8088 { di: val, ..self }
        }
    }

    /// The value of a segment register.
    pub open spec fn seg(&self, seg: SegReg) -> u16 {
        match seg {
            SegReg::ES => self.es,
            SegReg::CS => self.cs,
            SegReg::SS => self.ss,
            SegReg::DS => self.ds,
        }
    }

    /// This CPU with a segment register set.
    pub open spec fn with_seg(self, seg: SegReg, val: u16) -> I8088 {
        match seg {
            SegReg::ES => I8088 { es: val, ..self },
            SegReg::CS => I8088 { cs: val, ..self },
            SegReg::SS => I8088 { ss: val, ..self },
            SegReg::DS => I8088 { ds: val, ..self },
        }
    }

    /// Read an 8-bit register by encoding (0=AL..7=BH).
    pub fn get_reg8(&self, reg: u8) -> (r: u8)
        ensures
            r == self.reg8(reg),
    {
        reveal(I8088::reg8);
        match reg % 8 {
            0 => (self.ax % 256) as u8,
            1 => (self.cx % 256) as u8,
            2 => (self.dx % 256) as u8,
            3 => (self.bx % 256) as u8,
            4 => (self.ax / 256) as u8,
            5 => (self.cx / 256) as u8,
            6 => (self.dx / 256) as u8,
            _ => (self.bx / 256) as u8,
        }
    }

    /// Write an 8-bit register by encoding (0=AL..7=BH), keeping the other
    /// half of its word.
    pub fn set_reg8(&mut self, reg: u8, val: u8)
        ensures
            *final(self) == old(self).with_reg8(reg, val),
    {
        reveal(I8088::with_reg8);
        match reg % 8 {
            0 => self.ax = (self.ax / 256) * 256 + val as u16,
            1 => self.cx = (self.cx / 256) * 256 + val as u16,
            2 => self.dx = (self.dx / 256) * 256 + val as u16,
            3 => self.bx = (self.bx / 256) * 256 + val as u16,
            4 => self.ax = self.ax % 256 + (val as u16) * 256,
            5 => self.cx = self.cx % 256 + (val as u16) * 256,
            6 => self.dx = self.dx % 256 + (val as u16) * 256,
            _ => self.bx = self.bx % 256 + (val as u16) * 256,
        }
    }

    /// Read a 16-bit register by encoding (0=AX..7=DI).
    pub fn get_reg16(&self, reg: u8) -> (r: u16)
        ensures
            r == self.reg16(reg),
    {
        reveal(I8088::reg16);
        match reg % 8 {
            0 => self.ax,
            1 => self.cx,
            2 => self.dx,
            3 => self.bx,
            4 => self.sp,
            5 => self.bp,
            6 => self.si,
            _ => self.di,
        }
    }

    /// Write a 16-bit register by encoding (0=AX..7=DI).
    pub fn set_reg16(&mut self, reg: u8, val: u16)
        ensures
            *final(self) == old(self).with_reg16(reg, val),
    {
        reveal(I8088::with_reg16);
        match reg % 8 {
            0 => self.ax = val,
            1 => self.cx = val,
            2 => self.dx = val,
            3 => self.bx = val,
            4 => self.sp = val,
            5 => self.bp = val,
            6 => self.si = val,
            _ => self.di = val,
        }
    }

    /// Read a segment register.
    pub fn get_seg(&self, seg: SegReg) -> (r: u16)
        ensures
            r == self.seg(seg),
    {
        match seg {
            SegReg::ES => self.es,
            SegReg::CS => self.cs,
            SegReg::SS => self.ss,
            SegReg::DS => self.ds,
        }
    }

    /// Write a segment register.
    pub fn set_seg(&mut self, seg: SegReg, val: u16)
        ensures
            *final(self) == old(self).with_seg(seg, val),
    {
        match seg {
            SegReg::ES => self.es = val,
            SegReg::CS => self.cs = val,
            SegReg::SS => self.ss = val,
            SegReg::DS => self.ds = val,
        }
    }

    /// Decode a 2-bit segment register field from an instruction byte.
    pub fn decode_seg(bits: u8) -> (r: SegReg)
        ensures
            r == seg_of(bits),
    {
        match bits % 4 {
            0 => SegReg::ES,
            1 => SegReg::CS,
            2 => SegReg::SS,
            _ => SegReg::DS,
        }
    }

    /// AL, the low byte of AX.
    pub fn al(&self) -> (r: u8)
        ensures
            r == lo(self.ax),
    {
        (self.ax % 256) as u8
    }

    /// AH, the high byte of AX.
    pub fn ah(&self) -> (r: u8)
        ensures
            r == hi(self.ax),
    {
        (self.ax / 256) as u8
    }

    /// Set AL, keeping AH.
    pub fn set_al(&mut self, v: u8)
        ensures
            *final(self) == (I8088 { ax: set_lo(old(self).ax, v), ..*old(self) }),
    {
        self.ax = (self.ax / 256) * 256 + v as u16;
    }

    /// Set AH, keeping AL.
    pub fn set_ah(&mut self, v: u8)
        ensures
            *final(self) == (I8088 { ax: set_hi(old(self).ax, v), ..*old(self) }),
    {
        self.ax = self.ax % 256 + (v as u16) * 256;
    }

    /// BL, the low byte of BX.
    pub fn bl(&self) -> (r: u8)
        ensures
            r == lo(self.bx),
    {
        (self.bx % 256) as u8
    }

    /// BH, the high byte of BX.
    pub fn bh(&self) -> (r: u8)
        ensures
            r == hi(self.bx),
    {
        (self.bx / 256) as u8
    }

    /// Set BL, keeping BH.
    pub fn set_bl(&mut self, v: u8)
        ensures
            *final(self) == (I8088 { bx: set_lo(old(self).bx, v), ..*old(self) }),
    {
        self.bx = (self.bx / 256) * 256 + v as u16;
    }

    /// Set BH, keeping BL.
    pub fn set_bh(&mut self, v: u8)
        ensures
            *final(self) == (I8088 { bx: set_hi(old(self).bx, v), ..*old(self) }),
    {
        self.bx = self.bx % 256 + (v as u16) * 256;
    }

    /// CL, the low byte of CX.
    pub fn cl(&self) -> (r: u8)
        ensures
            r == lo(self.cx),
    {
        (self.cx % 256) as u8
    }

    /// CH, the high byte of CX.
    pub fn ch(&self) -> (r: u8)
        ensures
            r == hi(self.cx),
    {
        (self.cx / 256) as u8
    }

    /// Set CL, keeping CH.
    pub fn set_cl(&mut self, v: u8)
        ensures
            *final(self) == (I8088 { cx: set_lo(old(self).cx, v), ..*old(self) }),
    {
        self.cx = (self.cx / 256) * 256 + v as u16;
    }

    /// Set CH, keeping CL.
    pub fn set_ch(&mut self, v: u8)
        ensures
            *final(self) == (I8088 { cx: set_hi(old(self).cx, v), ..*old(self) }),
    {
        self.cx = self.cx % 256 + (v as u16) * 256;
    }

    /// DL, the low byte of DX.
    pub fn dl(&self) -> (r: u8)
        ensures
            r == lo(self.dx),
    {
        (self.dx % 256) as u8
    }

    /// DH, the high byte of DX.
    pub fn dh(&self) -> (r: u8)
        ensures
            r == hi(self.dx),
    {
        (self.dx / 256) as u8
    }

    /// Set DL, keeping DH.
    pub fn set_dl(&mut self, v: u8)
        ensures
            *final(self) == (I8088 { dx: set_lo(old(self).dx, v), ..*old(self) }),
    {
        self.dx = (self.dx / 256) * 256 + v as u16;
    }

    /// Set DH, keeping DL.
    pub fn set_dh(&mut self, v: u8)
        ensures
            *final(self) == (I8088 { dx: set_hi(old(self).dx, v), ..*old(self) }),
    {
        self.dx = self.dx % 256 + (v as u16) * 256;
    }

    /// Compute a 20-bit physical address from segment:offset.
    pub fn physical_addr(segment: u16, offset: u16) -> (r: u32)
        ensures
            r == phys(segment, offset),
    {
        ((segment as u32) * 16 + offset as u32) % 0x100000
    }
}

/// Writing a byte register and reading it back gives the byte written, and
/// writing a word register and reading it back gives the word written.
pub proof fn law_register_round_trip(cpu: I8088, reg: u8, v8: u8, v16: u16)
    ensures
        cpu.with_reg8(reg, v8).reg8(reg) == v8,
        cpu.with_reg16(reg, v16).reg16(reg) == v16,
        cpu.with_seg(SegReg::ES, v16).seg(SegReg::ES) == v16,
        cpu.with_seg(SegReg::CS, v16).seg(SegReg::CS) == v16,
        cpu.with_seg(SegReg::SS, v16).seg(SegReg::SS) == v16,
        cpu.with_seg(SegReg::DS, v16).seg(SegReg::DS) == v16,
{
    reveal(I8088::reg8);
    reveal(I8088::with_reg8);
    reveal(I8088::reg16);
    reveal(I8088::with_reg16);
    lemma_byte_halves(cpu.ax, v8);
    lemma_byte_halves(cpu.bx, v8);
    lemma_byte_halves(cpu.cx, v8);
    lemma_byte_halves(cpu.dx, v8);
}

/// Replacing one byte of a word leaves the other byte as it was, and the
/// replaced byte reads back as written.
pub proof fn lemma_byte_halves(x: u16, v: u8)
    ensures
        hi(set_lo(x, v)) == hi(x),
        lo(set_lo(x, v)) == v,
        lo(set_hi(x, v)) == lo(x),
        hi(set_hi(x, v)) == v,
{
    assert(((x / 256) * 256 + v) / 256 == x / 256 && ((x / 256) * 256 + v) % 256 == v)
        by (nonlinear_arith)
        requires
            v < 256,
    ;
    assert((x % 256 + v * 256) % 256 == x % 256 && (x % 256 + v * 256) / 256 == v)
        by (nonlinear_arith)
        requires
            v < 256,
    ;
}

/// Writing one half of a word register leaves the other half as it was.
pub proof fn law_byte_write_keeps_other_half(cpu: I8088, reg: u8, v: u8)
    ensures
        cpu.with_reg8(reg, v).reg8(((reg % 8 + 4) % 8) as u8) == cpu.reg8(((reg % 8 + 4) % 8) as u8),
{
    reveal(I8088::reg8);
    reveal(I8088::with_reg8);
    reveal(I8088::reg16);
    reveal(I8088::with_reg16);
    lemma_byte_halves(cpu.ax, v);
    lemma_byte_halves(cpu.bx, v);
    lemma_byte_halves(cpu.cx, v);
    lemma_byte_halves(cpu.dx, v);
}

/// Writing a byte register touches only AX, BX, CX or DX.
pub broadcast proof fn lemma_with_reg8_frame(cpu: I8088, reg: u8, val: u8)
    ensures
        #[trigger] cpu.with_reg8(reg, val) == (I8088 {
            ax: cpu.with_reg8(reg, val).ax,
            bx: cpu.with_reg8(reg, val).bx,
            cx: cpu.with_reg8(reg, val).cx,
            dx: cpu.with_reg8(reg, val).dx,
            ..cpu
        }),
{
    reveal(I8088::with_reg8);
}

/// Writing a word register touches only the eight general registers.
pub broadcast proof fn lemma_with_reg16_frame(cpu: I8088, reg: u8, val: u16)
    ensures
        #[trigger] cpu.with_reg16(reg, val) == (I8088 {
            ax: cpu.with_reg16(reg, val).ax,
            bx: cpu.with_reg16(reg, val).bx,
            cx: cpu.with_reg16(reg, val).cx,
            dx: cpu.with_reg16(reg, val).dx,
            sp: cpu.with_reg16(reg, val).sp,
            bp: cpu.with_reg16(reg, val).bp,
            si: cpu.with_reg16(reg, val).si,
            di: cpu.with_reg16(reg, val).di,
            ..cpu
        }),
{
    reveal(I8088::with_reg16);
}

} // verus!
