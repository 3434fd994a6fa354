//! The 6502's addressing modes: the cycle sequences that fetch an
//! operand, store a register or read, modify and write back a byte.
//!
//! An instruction that reads memory is an addressing mode and a read
//! operation; one that stores is a mode and a register; a read-modify-write
//! is a mode and an operation on the byte. Each cycle makes at most one bus
//! access: the contracts give the next state, and the access the bus sees,
//! as a function of the state before and of the byte the bus gave.

use vstd::prelude::*;
use crate::bus::{Bus, BusAccess, BusMaster, logged};
use super::{ExecState, M6502, at_step, fetching, inc16};
use super::alu::{ReadOp, RmwOp, read_applied};

verus! {

/// The register a store writes.
#[derive(Copy, Clone, Debug, PartialEq, Eq, Structural)]
pub enum StoreReg {
    A,
    X,
    Y,
}

/// The addressing modes.
#[derive(Copy, Clone, Debug, PartialEq, Eq, Structural)]
pub enum AddrMode {
    Imm,
    Zp,
    ZpX,
    ZpY,
    Abs,
    AbsX,
    AbsY,
    IndX,
    IndY,
}

/// The step at which a mode reaches its operand, when no page-crossing
/// shortcut is taken.
pub open spec fn operand_step(mode: AddrMode) -> u8 {
    match mode {
        AddrMode::Imm => 0,
        AddrMode::Zp => 1,
        AddrMode::ZpX => 2,
        AddrMode::ZpY => 2,
        AddrMode::Abs => 2,
        AddrMode::AbsX => 3,
        AddrMode::AbsY => 3,
        AddrMode::IndX => 4,
        AddrMode::IndY => 4,
    }
}

/// An indexed 16-bit address: `base + index`, wrapping.
pub open spec fn indexed(base: u16, index: u8) -> u16 {
    ((base + index) % 65536) as u16
}

/// The step after adding an index to `base` giving `addr`: a read skips
/// the fix-up step when the page did not change.
pub open spec fn after_index(base: u16, addr: u16, shortcut: bool, fixup: u8) -> u8 {
    if shortcut && base / 256 == addr / 256 { (fixup + 1) as u8 } else { fixup }
}

/// One step of effective-address calculation, before the operand step,
/// on bus byte `b` (ignored by steps that read nothing). `shortcut` is
/// set for reads, which skip the page fix-up when they can.
pub open spec fn addr_next(s: M6502, mode: AddrMode, cycle: u8, b: u8, shortcut: bool) -> M6502 {
    let first = at_step(M6502 { temp_addr: b as u16, pc: inc16(s.pc), ..s }, 1);
    let high = ((b as int * 256) as u16 | s.temp_addr) as u16;
    match mode {
        AddrMode::Zp => first,
        AddrMode::ZpX => if cycle == 0 {
            first
        } else {
            at_step(M6502 { temp_addr: ((s.temp_addr + s.x) % 256) as u16, ..s }, 2)
        },
        AddrMode::ZpY => if cycle == 0 {
            first
        } else {
            at_step(M6502 { temp_addr: ((s.temp_addr + s.y) % 256) as u16, ..s }, 2)
        },
        AddrMode::Abs => if cycle == 0 {
            first
        } else {
            at_step(M6502 { temp_addr: high, pc: inc16(s.pc), ..s }, 2)
        },
        AddrMode::AbsX => if cycle == 0 {
            first
        } else if cycle == 1 {
            at_step(
                M6502 { temp_addr: indexed(high, s.x), pc: inc16(s.pc), ..s },
                after_index(high, indexed(high, s.x), shortcut, 2),
            )
        } else {
            at_step(s, 3)
        },
        AddrMode::AbsY => if cycle == 0 {
            first
        } else if cycle == 1 {
            at_step(
                M6502 { temp_addr: indexed(high, s.y), pc: inc16(s.pc), ..s },
                after_index(high, indexed(high, s.y), shortcut, 2),
            )
        } else {
            at_step(s, 3)
        },
        AddrMode::IndX => if cycle == 0 {
            at_step(M6502 { temp_data: b, pc: inc16(s.pc), ..s }, 1)
        } else if cycle == 1 {
            at_step(M6502 { temp_data: ((s.temp_data + s.x) % 256) as u8, ..s }, 2)
        } else if cycle == 2 {
            at_step(M6502 { temp_addr: b as u16, ..s }, 3)
        } else {
            at_step(M6502 { temp_addr: high, ..s }, 4)
        },
        AddrMode::IndY => if cycle == 0 {
            at_step(M6502 { temp_data: b, pc: inc16(s.pc), ..s }, 1)
        } else if cycle == 1 {
            at_step(M6502 { temp_addr: b as u16, ..s }, 2)
        } else if cycle == 2 {
            at_step(
                M6502 { temp_addr: indexed(high, s.y), ..s },
                after_index(high, indexed(high, s.y), shortcut, 3),
            )
        } else {
            at_step(s, 4)
        },
        AddrMode::Imm => s,
    }
}

/// One step of a reading instruction on bus byte `b`. Immediate mode
/// reads its operand at PC on step 0 and ignores any later step.
pub open spec fn read_next(s: M6502, mode: AddrMode, op: ReadOp, cycle: u8, b: u8) -> M6502 {
    if mode == AddrMode::Imm {
        if cycle == 0 {
            fetching(read_applied(M6502 { pc: inc16(s.pc), ..s }, op, b))
        } else {
            s
        }
    } else if cycle < operand_step(mode) {
        addr_next(s, mode, cycle, b, true)
    } else if cycle == operand_step(mode) {
        fetching(read_applied(s, op, b))
    } else {
        fetching(s)
    }
}

/// One step of a store. The byte goes out on the operand step, which
/// changes nothing in the core but its state.
pub open spec fn store_next(s: M6502, mode: AddrMode, cycle: u8, b: u8) -> M6502 {
    if cycle < operand_step(mode) {
        addr_next(s, mode, cycle, b, false)
    } else {
        fetching(s)
    }
}

/// One step of a read-modify-write: the byte read on the operand step, the
/// operation on the next, the result written back on the one after.
pub open spec fn rmw_next(s: M6502, mode: AddrMode, op: RmwOp, cycle: u8, b: u8) -> M6502 {
    let k = operand_step(mode);
    if cycle < k {
        addr_next(s, mode, cycle, b, false)
    } else if cycle == k {
        at_step(M6502 { temp_data: b, ..s }, (k + 1) as u8)
    } else if cycle == k + 1 {
        at_step(
            M6502 { temp_data: s.shifted(op, s.temp_data).0, ..s.shifted(op, s.temp_data).1 },
            (k + 2) as u8,
        )
    } else {
        fetching(s)
    }
}

/// What the bus sees of one step of effective-address calculation: the
/// byte `b` read, and where.
pub open spec fn addr_log(s: M6502, mode: AddrMode, cycle: u8, b: u8) -> Option<BusAccess<u16, u8>> {
    let at_pc = Some(BusAccess::Read(s.pc, b));
    let pointer_low = Some(BusAccess::Read(s.temp_data as u16, b));
    let pointer_high = Some(BusAccess::Read(((s.temp_data + 1) % 256) as u16, b));
    match mode {
        AddrMode::Zp => at_pc,
        AddrMode::ZpX => if cycle == 0 { at_pc } else { None },
        AddrMode::ZpY => if cycle == 0 { at_pc } else { None },
        AddrMode::Abs => at_pc,
        AddrMode::AbsX => if cycle <= 1 { at_pc } else { None },
        AddrMode::AbsY => if cycle <= 1 { at_pc } else { None },
        AddrMode::IndX => if cycle == 0 {
            at_pc
        } else if cycle == 1 {
            None
        } else if cycle == 2 {
            pointer_low
        } else {
            pointer_high
        },
        AddrMode::IndY => if cycle == 0 {
            at_pc
        } else if cycle == 1 {
            pointer_low
        } else if cycle == 2 {
            pointer_high
        } else {
            None
        },
        AddrMode::Imm => None,
    }
}

/// What the bus sees of one step of a reading instruction.
pub open spec fn read_log(s: M6502, mode: AddrMode, cycle: u8, b: u8) -> Option<BusAccess<u16, u8>> {
    if mode == AddrMode::Imm {
        if cycle == 0 { Some(BusAccess::Read(s.pc, b)) } else { None }
    } else if cycle < operand_step(mode) {
        addr_log(s, mode, cycle, b)
    } else if cycle == operand_step(mode) {
        Some(BusAccess::Read(s.temp_addr, b))
    } else {
        None
    }
}

/// What the bus sees of one step of a store of `data`.
pub open spec fn store_log(s: M6502, mode: AddrMode, cycle: u8, b: u8, data: u8) -> Option<BusAccess<u16, u8>> {
    if cycle < operand_step(mode) {
        addr_log(s, mode, cycle, b)
    } else if cycle == operand_step(mode) {
        Some(BusAccess::Write(s.temp_addr, data))
    } else {
        None
    }
}

/// What the bus sees of one step of a read-modify-write: the byte read,
/// and the result written back where it came from.
pub open spec fn rmw_log(s: M6502, mode: AddrMode, cycle: u8, b: u8) -> Option<BusAccess<u16, u8>> {
    let k = operand_step(mode);
    if cycle < k {
        addr_log(s, mode, cycle, b)
    } else if cycle == k {
        Some(BusAccess::Read(s.temp_addr, b))
    } else if cycle == k + 2 {
        Some(BusAccess::Write(s.temp_addr, s.temp_data))
    } else {
        None
    }
}

/// `r` is one step of a reading instruction from `s`, the bus going from
/// record `before` to `after`: for the byte the bus gave, the state the
/// step makes and the accesses it adds.
pub open spec fn read_step(
    s: M6502,
    mode: AddrMode,
    op: ReadOp,
    cycle: u8,
    r: M6502,
    before: Seq<BusAccess<u16, u8>>,
    after: Seq<BusAccess<u16, u8>>,
) -> bool {
    exists|b: u8|
        r == #[trigger] read_next(s, mode, op, cycle, b) && after == logged(before, read_log(
            s,
            mode,
            cycle,
            b,
        ))
}

/// `r` is one step of a store of `data` from `s`, the bus going from
/// record `before` to `after`.
pub open spec fn store_step(
    s: M6502,
    mode: AddrMode,
    cycle: u8,
    data: u8,
    r: M6502,
    before: Seq<BusAccess<u16, u8>>,
    after: Seq<BusAccess<u16, u8>>,
) -> bool {
    exists|b: u8|
        r == #[trigger] store_next(s, mode, cycle, b) && after == logged(before, store_log(
            s,
            mode,
            cycle,
            b,
            data,
        ))
}

/// `r` is one step of a read-modify-write from `s`, the bus going from
/// record `before` to `after`.
pub open spec fn rmw_step(
    s: M6502,
    mode: AddrMode,
    op: RmwOp,
    cycle: u8,
    r: M6502,
    before: Seq<BusAccess<u16, u8>>,
    after: Seq<BusAccess<u16, u8>>,
) -> bool {
    exists|b: u8|
        r == #[trigger] rmw_next(s, mode, op, cycle, b) && after == logged(before, rmw_log(
            s,
            mode,
            cycle,
            b,
        ))
}

impl M6502 {
    /// Immediate mode: the operand is the byte after the opcode, read and
    /// applied on the first step.
    #[verifier::spinoff_prover]
    #[verifier::rlimit(100)]
    pub fn alu_imm<B: Bus<Address = u16, Data = u8> + ?Sized>(
        &mut self,
        cycle: u8,
        bus: &mut B,
        master: BusMaster,
        op: ReadOp,
    )
        ensures
            read_step(*old(self), AddrMode::Imm, op, cycle, *final(self), old(bus).accesses(), final(bus).accesses()),
    {
        let ghost s = *self;
        let ghost log0 = bus.accesses();
        if cycle == 0 {
            let operand = bus.read(master, self.pc);
            self.pc = self.pc.wrapping_add(1);
            self.apply_read(op, operand);
            self.state = ExecState::Fetch;
            assert(*self == read_next(s, AddrMode::Imm, op, cycle, operand));
            assert(bus.accesses() == logged(log0, read_log(s, AddrMode::Imm, cycle, operand)));
            assert(read_step(s, AddrMode::Imm, op, cycle, *self, log0, bus.accesses()));
        } else {
            assert(*self == read_next(s, AddrMode::Imm, op, cycle, 0));
            assert(bus.accesses() == logged(log0, read_log(s, AddrMode::Imm, cycle, 0)));
            assert(read_step(s, AddrMode::Imm, op, cycle, *self, log0, bus.accesses()));
        }
    }

    /// Zero page: the address byte, then the operand.
    #[verifier::spinoff_prover]
    #[verifier::rlimit(100)]
    pub fn alu_zp<B: Bus<Address = u16, Data = u8> + ?Sized>(
        &mut self,
        cycle: u8,
        bus: &mut B,
        master: BusMaster,
        op: ReadOp,
    )
        ensures
            read_step(*old(self), AddrMode::Zp, op, cycle, *final(self), old(bus).accesses(), final(bus).accesses()),
    {
        let ghost s = *self;
        let ghost log0 = bus.accesses();
        match cycle {
            0 => {
                let b = bus.read(master, self.pc);
                self.temp_addr = b as u16;
                self.pc = self.pc.wrapping_add(1);
                self.state = ExecState::Execute(self.opcode, 1);
                assert(*self == read_next(s, AddrMode::Zp, op, cycle, b));
                assert(bus.accesses() == logged(log0, read_log(s, AddrMode::Zp, cycle, b)));
                assert(read_step(s, AddrMode::Zp, op, cycle, *self, log0, bus.accesses()));
            },
            1 => {
                let operand = bus.read(master, self.temp_addr);
                self.apply_read(op, operand);
                self.state = ExecState::Fetch;
                assert(*self == read_next(s, AddrMode::Zp, op, cycle, operand));
                assert(bus.accesses() == logged(log0, read_log(s, AddrMode::Zp, cycle, operand)));
                assert(read_step(s, AddrMode::Zp, op, cycle, *self, log0, bus.accesses()));
            },
            _ => {
                self.state = ExecState::Fetch;
                assert(*self == read_next(s, AddrMode::Zp, op, cycle, 0));
                assert(bus.accesses() == logged(log0, read_log(s, AddrMode::Zp, cycle, 0)));
                assert(read_step(s, AddrMode::Zp, op, cycle, *self, log0, bus.accesses()));
            },
        }
    }

    /// Zero page indexed by X, wrapping within page zero.
    #[verifier::spinoff_prover]
    #[verifier::rlimit(100)]
    pub fn alu_zp_x<B: Bus<Address = u16, Data = u8> + ?Sized>(
        &mut self,
        cycle: u8,
        bus: &mut B,
        master: BusMaster,
        op: ReadOp,
    )
        ensures
            read_step(*old(self), AddrMode::ZpX, op, cycle, *final(self), old(bus).accesses(), final(bus).accesses()),
    {
        let ghost s = *self;
        let ghost log0 = bus.accesses();
        match cycle {
            0 => {
                let b = bus.read(master, self.pc);
                self.temp_addr = b as u16;
                self.pc = self.pc.wrapping_add(1);
                self.state = ExecState::Execute(self.opcode, 1);
                assert(*self == read_next(s, AddrMode::ZpX, op, cycle, b));
                assert(bus.accesses() == logged(log0, read_log(s, AddrMode::ZpX, cycle, b)));
                assert(read_step(s, AddrMode::ZpX, op, cycle, *self, log0, bus.accesses()));
            },
            1 => {
                self.temp_addr = ((self.temp_addr as u32 + self.x as u32) % 256) as u16;
                self.state = ExecState::Execute(self.opcode, 2);
                assert(*self == read_next(s, AddrMode::ZpX, op, cycle, 0));
                assert(bus.accesses() == logged(log0, read_log(s, AddrMode::ZpX, cycle, 0)));
                assert(read_step(s, AddrMode::ZpX, op, cycle, *self, log0, bus.accesses()));
            },
            2 => {
                let operand = bus.read(master, self.temp_addr);
                self.apply_read(op, operand);
                self.state = ExecState::Fetch;
                assert(*self == read_next(s, AddrMode::ZpX, op, cycle, operand));
                assert(bus.accesses() == logged(log0, read_log(s, AddrMode::ZpX, cycle, operand)));
                assert(read_step(s, AddrMode::ZpX, op, cycle, *self, log0, bus.accesses()));
            },
            _ => {
                self.state = ExecState::Fetch;
                assert(*self == read_next(s, AddrMode::ZpX, op, cycle, 0));
                assert(bus.accesses() == logged(log0, read_log(s, AddrMode::ZpX, cycle, 0)));
                assert(read_step(s, AddrMode::ZpX, op, cycle, *self, log0, bus.accesses()));
            },
        }
    }

    /// Zero page indexed by Y, wrapping within page zero.
    #[verifier::spinoff_prover]
    #[verifier::rlimit(100)]
    pub fn alu_zp_y<B: Bus<Address = u16, Data = u8> + ?Sized>(
        &mut self,
        cycle: u8,
        bus: &mut B,
        master: BusMaster,
        op: ReadOp,
    )
        ensures
            read_step(*old(self), AddrMode::ZpY, op, cycle, *final(self), old(bus).accesses(), final(bus).accesses()),
    {
        let ghost s = *self;
        let ghost log0 = bus.accesses();
        match cycle {
            0 => {
                let b = bus.read(master, self.pc);
                self.temp_addr = b as u16;
                self.pc = self.pc.wrapping_add(1);
                self.state = ExecState::Execute(self.opcode, 1);
                assert(*self == read_next(s, AddrMode::ZpY, op, cycle, b));
                assert(bus.accesses() == logged(log0, read_log(s, AddrMode::ZpY, cycle, b)));
                assert(read_step(s, AddrMode::ZpY, op, cycle, *self, log0, bus.accesses()));
            },
            1 => {
                self.temp_addr = ((self.temp_addr as u32 + self.y as u32) % 256) as u16;
                self.state = ExecState::Execute(self.opcode, 2);
                assert(*self == read_next(s, AddrMode::ZpY, op, cycle, 0));
                assert(bus.accesses() == logged(log0, read_log(s, AddrMode::ZpY, cycle, 0)));
                assert(read_step(s, AddrMode::ZpY, op, cycle, *self, log0, bus.accesses()));
            },
            2 => {
                let operand = bus.read(master, self.temp_addr);
                self.apply_read(op, operand);
                self.state = ExecState::Fetch;
                assert(*self == read_next(s, AddrMode::ZpY, op, cycle, operand));
                assert(bus.accesses() == logged(log0, read_log(s, AddrMode::ZpY, cycle, operand)));
                assert(read_step(s, AddrMode::ZpY, op, cycle, *self, log0, bus.accesses()));
            },
            _ => {
                self.state = ExecState::Fetch;
                assert(*self == read_next(s, AddrMode::ZpY, op, cycle, 0));
                assert(bus.accesses() == logged(log0, read_log(s, AddrMode::ZpY, cycle, 0)));
                assert(read_step(s, AddrMode::ZpY, op, cycle, *self, log0, bus.accesses()));
            },
        }
    }

    /// Absolute: low and high address bytes, then the operand.
    #[verifier::spinoff_prover]
    #[verifier::rlimit(100)]
    pub fn alu_abs<B: Bus<Address = u16, Data = u8> + ?Sized>(
        &mut self,
        cycle: u8,
        bus: &mut B,
        master: BusMaster,
        op: ReadOp,
    )
        ensures
            read_step(*old(self), AddrMode::Abs, op, cycle, *final(self), old(bus).accesses(), final(bus).accesses()),
    {
        let ghost s = *self;
        let ghost log0 = bus.accesses();
        match cycle {
            0 => {
                let b = bus.read(master, self.pc);
                self.temp_addr = b as u16;
                self.pc = self.pc.wrapping_add(1);
                self.state = ExecState::Execute(self.opcode, 1);
                assert(*self == read_next(s, AddrMode::Abs, op, cycle, b));
                assert(bus.accesses() == logged(log0, read_log(s, AddrMode::Abs, cycle, b)));
                assert(read_step(s, AddrMode::Abs, op, cycle, *self, log0, bus.accesses()));
            },
            1 => {
                let b = bus.read(master, self.pc);
                self.temp_addr = (b as u16 * 256) | self.temp_addr;
                self.pc = self.pc.wrapping_add(1);
                self.state = ExecState::Execute(self.opcode, 2);
                assert(*self == read_next(s, AddrMode::Abs, op, cycle, b));
                assert(bus.accesses() == logged(log0, read_log(s, AddrMode::Abs, cycle, b)));
                assert(read_step(s, AddrMode::Abs, op, cycle, *self, log0, bus.accesses()));
            },
            2 => {
                let operand = bus.read(master, self.temp_addr);
                self.apply_read(op, operand);
                self.state = ExecState::Fetch;
                assert(*self == read_next(s, AddrMode::Abs, op, cycle, operand));
                assert(bus.accesses() == logged(log0, read_log(s, AddrMode::Abs, cycle, operand)));
                assert(read_step(s, AddrMode::Abs, op, cycle, *self, log0, bus.accesses()));
            },
            _ => {
                self.state = ExecState::Fetch;
                assert(*self == read_next(s, AddrMode::Abs, op, cycle, 0));
                assert(bus.accesses() == logged(log0, read_log(s, AddrMode::Abs, cycle, 0)));
                assert(read_step(s, AddrMode::Abs, op, cycle, *self, log0, bus.accesses()));
            },
        }
    }

    /// Absolute indexed by X: one step more when the index crosses a page.
    #[verifier::spinoff_prover]
    #[verifier::rlimit(100)]
    pub fn alu_abs_x<B: Bus<Address = u16, Data = u8> + ?Sized>(
        &mut self,
        cycle: u8,
        bus: &mut B,
        master: BusMaster,
        op: ReadOp,
    )
        ensures
            read_step(*old(self), AddrMode::AbsX, op, cycle, *final(self), old(bus).accesses(), final(bus).accesses()),
    {
        let ghost s = *self;
        let ghost log0 = bus.accesses();
        match cycle {
            0 => {
                let b = bus.read(master, self.pc);
                self.temp_addr = b as u16;
                self.pc = self.pc.wrapping_add(1);
                self.state = ExecState::Execute(self.opcode, 1);
                assert(*self == read_next(s, AddrMode::AbsX, op, cycle, b));
                assert(bus.accesses() == logged(log0, read_log(s, AddrMode::AbsX, cycle, b)));
                assert(read_step(s, AddrMode::AbsX, op, cycle, *self, log0, bus.accesses()));
            },
            1 => {
                let b = bus.read(master, self.pc);
                self.pc = self.pc.wrapping_add(1);
                let base: u16 = (b as u16 * 256) | self.temp_addr;
                self.temp_addr = ((base as u32 + self.x as u32) % 65536) as u16;
                let next_step: u8 = if base / 256 != self.temp_addr / 256 {
                    2
                } else {
                    3
                };
                self.state = ExecState::Execute(self.opcode, next_step);
                assert(*self == read_next(s, AddrMode::AbsX, op, cycle, b));
                assert(bus.accesses() == logged(log0, read_log(s, AddrMode::AbsX, cycle, b)));
                assert(read_step(s, AddrMode::AbsX, op, cycle, *self, log0, bus.accesses()));
            },
            2 => {
                self.state = ExecState::Execute(self.opcode, 3);
                assert(*self == read_next(s, AddrMode::AbsX, op, cycle, 0));
                assert(bus.accesses() == logged(log0, read_log(s, AddrMode::AbsX, cycle, 0)));
                assert(read_step(s, AddrMode::AbsX, op, cycle, *self, log0, bus.accesses()));
            },
            3 => {
                let operand = bus.read(master, self.temp_addr);
                self.apply_read(op, operand);
                self.state = ExecState::Fetch;
                assert(*self == read_next(s, AddrMode::AbsX, op, cycle, operand));
                assert(bus.accesses() == logged(log0, read_log(s, AddrMode::AbsX, cycle, operand)));
                assert(read_step(s, AddrMode::AbsX, op, cycle, *self, log0, bus.accesses()));
            },
            _ => {
                self.state = ExecState::Fetch;
                assert(*self == read_next(s, AddrMode::AbsX, op, cycle, 0));
                assert(bus.accesses() == logged(log0, read_log(s, AddrMode::AbsX, cycle, 0)));
                assert(read_step(s, AddrMode::AbsX, op, cycle, *self, log0, bus.accesses()));
            },
        }
    }

    /// Absolute indexed by Y: one step more when the index crosses a page.
    #[verifier::spinoff_prover]
    #[verifier::rlimit(100)]
    pub fn alu_abs_y<B: Bus<Address = u16, Data = u8> + ?Sized>(
        &mut self,
        cycle: u8,
        bus: &mut B,
        master: BusMaster,
        op: ReadOp,
    )
        ensures
            read_step(*old(self), AddrMode::AbsY, op, cycle, *final(self), old(bus).accesses(), final(bus).accesses()),
    {
        let ghost s = *self;
        let ghost log0 = bus.accesses();
        match cycle {
            0 => {
                let b = bus.read(master, self.pc);
                self.temp_addr = b as u16;
                self.pc = self.pc.wrapping_add(1);
                self.state = ExecState::Execute(self.opcode, 1);
                assert(*self == read_next(s, AddrMode::AbsY, op, cycle, b));
                assert(bus.accesses() == logged(log0, read_log(s, AddrMode::AbsY, cycle, b)));
                assert(read_step(s, AddrMode::AbsY, op, cycle, *self, log0, bus.accesses()));
            },
            1 => {
                let b = bus.read(master, self.pc);
                self.pc = self.pc.wrapping_add(1);
                let base: u16 = (b as u16 * 256) | self.temp_addr;
                self.temp_addr = ((base as u32 + self.y as u32) % 65536) as u16;
                let next_step: u8 = if base / 256 != self.temp_addr / 256 {
                    2
                } else {
                    3
                };
                self.state = ExecState::Execute(self.opcode, next_step);
                assert(*self == read_next(s, AddrMode::AbsY, op, cycle, b));
                assert(bus.accesses() == logged(log0, read_log(s, AddrMode::AbsY, cycle, b)));
                assert(read_step(s, AddrMode::AbsY, op, cycle, *self, log0, bus.accesses()));
            },
            2 => {
                self.state = ExecState::Execute(self.opcode, 3);
                assert(*self == read_next(s, AddrMode::AbsY, op, cycle, 0));
                assert(bus.accesses() == logged(log0, read_log(s, AddrMode::AbsY, cycle, 0)));
                assert(read_step(s, AddrMode::AbsY, op, cycle, *self, log0, bus.accesses()));
            },
            3 => {
                let operand = bus.read(master, self.temp_addr);
                self.apply_read(op, operand);
                self.state = ExecState::Fetch;
                assert(*self == read_next(s, AddrMode::AbsY, op, cycle, operand));
                assert(bus.accesses() == logged(log0, read_log(s, AddrMode::AbsY, cycle, operand)));
                assert(read_step(s, AddrMode::AbsY, op, cycle, *self, log0, bus.accesses()));
            },
            _ => {
                self.state = ExecState::Fetch;
                assert(*self == read_next(s, AddrMode::AbsY, op, cycle, 0));
                assert(bus.accesses() == logged(log0, read_log(s, AddrMode::AbsY, cycle, 0)));
                assert(read_step(s, AddrMode::AbsY, op, cycle, *self, log0, bus.accesses()));
            },
        }
    }

    /// (Indirect,X): a zero-page pointer plus X, the address read from it,
    /// then the operand.
    #[verifier::spinoff_prover]
    #[verifier::rlimit(100)]
    pub fn alu_ind_x<B: Bus<Address = u16, Data = u8> + ?Sized>(
        &mut self,
        cycle: u8,
        bus: &mut B,
        master: BusMaster,
        op: ReadOp,
    )
        ensures
            read_step(*old(self), AddrMode::IndX, op, cycle, *final(self), old(bus).accesses(), final(bus).accesses()),
    {
        let ghost s = *self;
        let ghost log0 = bus.accesses();
        match cycle {
            0 => {
                let b = bus.read(master, self.pc);
                self.temp_data = b;
                self.pc = self.pc.wrapping_add(1);
                self.state = ExecState::Execute(self.opcode, 1);
                assert(*self == read_next(s, AddrMode::IndX, op, cycle, b));
                assert(bus.accesses() == logged(log0, read_log(s, AddrMode::IndX, cycle, b)));
                assert(read_step(s, AddrMode::IndX, op, cycle, *self, log0, bus.accesses()));
            },
            1 => {
                self.temp_data = self.temp_data.wrapping_add(self.x);
                self.state = ExecState::Execute(self.opcode, 2);
                assert(*self == read_next(s, AddrMode::IndX, op, cycle, 0));
                assert(bus.accesses() == logged(log0, read_log(s, AddrMode::IndX, cycle, 0)));
                assert(read_step(s, AddrMode::IndX, op, cycle, *self, log0, bus.accesses()));
            },
            2 => {
                let b = bus.read(master, self.temp_data as u16);
                self.temp_addr = b as u16;
                self.state = ExecState::Execute(self.opcode, 3);
                assert(*self == read_next(s, AddrMode::IndX, op, cycle, b));
                assert(bus.accesses() == logged(log0, read_log(s, AddrMode::IndX, cycle, b)));
                assert(read_step(s, AddrMode::IndX, op, cycle, *self, log0, bus.accesses()));
            },
            3 => {
                let b = bus.read(master, self.temp_data.wrapping_add(1) as u16);
                self.temp_addr = (b as u16 * 256) | self.temp_addr;
                self.state = ExecState::Execute(self.opcode, 4);
                assert(*self == read_next(s, AddrMode::IndX, op, cycle, b));
                assert(bus.accesses() == logged(log0, read_log(s, AddrMode::IndX, cycle, b)));
                assert(read_step(s, AddrMode::IndX, op, cycle, *self, log0, bus.accesses()));
            },
            4 => {
                let operand = bus.read(master, self.temp_addr);
                self.apply_read(op, operand);
                self.state = ExecState::Fetch;
                assert(*self == read_next(s, AddrMode::IndX, op, cycle, operand));
                assert(bus.accesses() == logged(log0, read_log(s, AddrMode::IndX, cycle, operand)));
                assert(read_step(s, AddrMode::IndX, op, cycle, *self, log0, bus.accesses()));
            },
            _ => {
                self.state = ExecState::Fetch;
                assert(*self == read_next(s, AddrMode::IndX, op, cycle, 0));
                assert(bus.accesses() == logged(log0, read_log(s, AddrMode::IndX, cycle, 0)));
                assert(read_step(s, AddrMode::IndX, op, cycle, *self, log0, bus.accesses()));
            },
        }
    }

    /// (Indirect),Y: the address read through a zero-page pointer, plus Y;
    /// one step more when that crosses a page.
    #[verifier::spinoff_prover]
    #[verifier::rlimit(100)]
    pub fn alu_ind_y<B: Bus<Address = u16, Data = u8> + ?Sized>(
        &mut self,
        cycle: u8,
        bus: &mut B,
        master: BusMaster,
        op: ReadOp,
    )
        ensures
            read_step(*old(self), AddrMode::IndY, op, cycle, *final(self), old(bus).accesses(), final(bus).accesses()),
    {
        let ghost s = *self;
        let ghost log0 = bus.accesses();
        match cycle {
            0 => {
                let b = bus.read(master, self.pc);
                self.temp_data = b;
                self.pc = self.pc.wrapping_add(1);
                self.state = ExecState::Execute(self.opcode, 1);
                assert(*self == read_next(s, AddrMode::IndY, op, cycle, b));
                assert(bus.accesses() == logged(log0, read_log(s, AddrMode::IndY, cycle, b)));
                assert(read_step(s, AddrMode::IndY, op, cycle, *self, log0, bus.accesses()));
            },
            1 => {
                let b = bus.read(master, self.temp_data as u16);
                self.temp_addr = b as u16;
                self.state = ExecState::Execute(self.opcode, 2);
                assert(*self == read_next(s, AddrMode::IndY, op, cycle, b));
                assert(bus.accesses() == logged(log0, read_log(s, AddrMode::IndY, cycle, b)));
                assert(read_step(s, AddrMode::IndY, op, cycle, *self, log0, bus.accesses()));
            },
            2 => {
                let b = bus.read(master, self.temp_data.wrapping_add(1) as u16);
                let base: u16 = (b as u16 * 256) | self.temp_addr;
                assert(base == ((b as int * 256) as u16 | s.temp_addr) as u16);
                self.temp_addr = ((base as u32 + self.y as u32) % 65536) as u16;
                let next_step: u8 = if base / 256 != self.temp_addr / 256 {
                    3
                } else {
                    4
                };
                self.state = ExecState::Execute(self.opcode, next_step);
                assert(*self == read_next(s, AddrMode::IndY, op, cycle, b));
                assert(bus.accesses() == logged(log0, read_log(s, AddrMode::IndY, cycle, b)));
                assert(read_step(s, AddrMode::IndY, op, cycle, *self, log0, bus.accesses()));
            },
            3 => {
                self.state = ExecState::Execute(self.opcode, 4);
                assert(*self == read_next(s, AddrMode::IndY, op, cycle, 0));
                assert(bus.accesses() == logged(log0, read_log(s, AddrMode::IndY, cycle, 0)));
                assert(read_step(s, AddrMode::IndY, op, cycle, *self, log0, bus.accesses()));
            },
            4 => {
                let operand = bus.read(master, self.temp_addr);
                self.apply_read(op, operand);
                self.state = ExecState::Fetch;
                assert(*self == read_next(s, AddrMode::IndY, op, cycle, operand));
                assert(bus.accesses() == logged(log0, read_log(s, AddrMode::IndY, cycle, operand)));
                assert(read_step(s, AddrMode::IndY, op, cycle, *self, log0, bus.accesses()));
            },
            _ => {
                self.state = ExecState::Fetch;
                assert(*self == read_next(s, AddrMode::IndY, op, cycle, 0));
                assert(bus.accesses() == logged(log0, read_log(s, AddrMode::IndY, cycle, 0)));
                assert(read_step(s, AddrMode::IndY, op, cycle, *self, log0, bus.accesses()));
            },
        }
    }

    /// Store to zero page.
    #[verifier::spinoff_prover]
    #[verifier::rlimit(100)]
    pub fn store_zp<B: Bus<Address = u16, Data = u8> + ?Sized>(
        &mut self,
        cycle: u8,
        bus: &mut B,
        master: BusMaster,
        data: u8,
    )
        ensures
            store_step(*old(self), AddrMode::Zp, cycle, data, *final(self), old(bus).accesses(), final(bus).accesses()),
    {
        let ghost s = *self;
        let ghost log0 = bus.accesses();
        match cycle {
            0 => {
                let b = bus.read(master, self.pc);
                self.temp_addr = b as u16;
                self.pc = self.pc.wrapping_add(1);
                self.state = ExecState::Execute(self.opcode, 1);
                assert(*self == store_next(s, AddrMode::Zp, cycle, b));
                assert(bus.accesses() == logged(log0, store_log(s, AddrMode::Zp, cycle, b, data)));
                assert(store_step(s, AddrMode::Zp, cycle, data, *self, log0, bus.accesses()));
            },
            1 => {
                bus.write(master, self.temp_addr, data);
                self.state = ExecState::Fetch;
                assert(*self == store_next(s, AddrMode::Zp, cycle, 0));
                assert(bus.accesses() == logged(log0, store_log(s, AddrMode::Zp, cycle, 0, data)));
                assert(store_step(s, AddrMode::Zp, cycle, data, *self, log0, bus.accesses()));
            },
            _ => {
                self.state = ExecState::Fetch;
                assert(*self == store_next(s, AddrMode::Zp, cycle, 0));
                assert(bus.accesses() == logged(log0, store_log(s, AddrMode::Zp, cycle, 0, data)));
                assert(store_step(s, AddrMode::Zp, cycle, data, *self, log0, bus.accesses()));
            },
        }
    }

    /// Store to zero page indexed by X.
    #[verifier::spinoff_prover]
    #[verifier::rlimit(100)]
    pub fn store_zp_x<B: Bus<Address = u16, Data = u8> + ?Sized>(
        &mut self,
        cycle: u8,
        bus: &mut B,
        master: BusMaster,
        data: u8,
    )
        ensures
            store_step(*old(self), AddrMode::ZpX, cycle, data, *final(self), old(bus).accesses(), final(bus).accesses()),
    {
        let ghost s = *self;
        let ghost log0 = bus.accesses();
        match cycle {
            0 => {
                let b = bus.read(master, self.pc);
                self.temp_addr = b as u16;
                self.pc = self.pc.wrapping_add(1);
                self.state = ExecState::Execute(self.opcode, 1);
                assert(*self == store_next(s, AddrMode::ZpX, cycle, b));
                assert(bus.accesses() == logged(log0, store_log(s, AddrMode::ZpX, cycle, b, data)));
                assert(store_step(s, AddrMode::ZpX, cycle, data, *self, log0, bus.accesses()));
            },
            1 => {
                self.temp_addr = ((self.temp_addr as u32 + self.x as u32) % 256) as u16;
                self.state = ExecState::Execute(self.opcode, 2);
                assert(*self == store_next(s, AddrMode::ZpX, cycle, 0));
                assert(bus.accesses() == logged(log0, store_log(s, AddrMode::ZpX, cycle, 0, data)));
                assert(store_step(s, AddrMode::ZpX, cycle, data, *self, log0, bus.accesses()));
            },
            2 => {
                bus.write(master, self.temp_addr, data);
                self.state = ExecState::Fetch;
                assert(*self == store_next(s, AddrMode::ZpX, cycle, 0));
                assert(bus.accesses() == logged(log0, store_log(s, AddrMode::ZpX, cycle, 0, data)));
                assert(store_step(s, AddrMode::ZpX, cycle, data, *self, log0, bus.accesses()));
            },
            _ => {
                self.state = ExecState::Fetch;
                assert(*self == store_next(s, AddrMode::ZpX, cycle, 0));
                assert(bus.accesses() == logged(log0, store_log(s, AddrMode::ZpX, cycle, 0, data)));
                assert(store_step(s, AddrMode::ZpX, cycle, data, *self, log0, bus.accesses()));
            },
        }
    }

    /// Store to zero page indexed by Y.
    #[verifier::spinoff_prover]
    #[verifier::rlimit(100)]
    pub fn store_zp_y<B: Bus<Address = u16, Data = u8> + ?Sized>(
        &mut self,
        cycle: u8,
        bus: &mut B,
        master: BusMaster,
        data: u8,
    )
        ensures
            store_step(*old(self), AddrMode::ZpY, cycle, data, *final(self), old(bus).accesses(), final(bus).accesses()),
    {
        let ghost s = *self;
        let ghost log0 = bus.accesses();
        match cycle {
            0 => {
                let b = bus.read(master, self.pc);
                self.temp_addr = b as u16;
                self.pc = self.pc.wrapping_add(1);
                self.state = ExecState::Execute(self.opcode, 1);
                assert(*self == store_next(s, AddrMode::ZpY, cycle, b));
                assert(bus.accesses() == logged(log0, store_log(s, AddrMode::ZpY, cycle, b, data)));
                assert(store_step(s, AddrMode::ZpY, cycle, data, *self, log0, bus.accesses()));
            },
            1 => {
                self.temp_addr = ((self.temp_addr as u32 + self.y as u32) % 256) as u16;
                self.state = ExecState::Execute(self.opcode, 2);
                assert(*self == store_next(s, AddrMode::ZpY, cycle, 0));
                assert(bus.accesses() == logged(log0, store_log(s, AddrMode::ZpY, cycle, 0, data)));
                assert(store_step(s, AddrMode::ZpY, cycle, data, *self, log0, bus.accesses()));
            },
            2 => {
                bus.write(master, self.temp_addr, data);
                self.state = ExecState::Fetch;
                assert(*self == store_next(s, AddrMode::ZpY, cycle, 0));
                assert(bus.accesses() == logged(log0, store_log(s, AddrMode::ZpY, cycle, 0, data)));
                assert(store_step(s, AddrMode::ZpY, cycle, data, *self, log0, bus.accesses()));
            },
            _ => {
                self.state = ExecState::Fetch;
                assert(*self == store_next(s, AddrMode::ZpY, cycle, 0));
                assert(bus.accesses() == logged(log0, store_log(s, AddrMode::ZpY, cycle, 0, data)));
                assert(store_step(s, AddrMode::ZpY, cycle, data, *self, log0, bus.accesses()));
            },
        }
    }

    /// Store to an absolute address.
    #[verifier::spinoff_prover]
    #[verifier::rlimit(100)]
    pub fn store_abs<B: Bus<Address = u16, Data = u8> + ?Sized>(
        &mut self,
        cycle: u8,
        bus: &mut B,
        master: BusMaster,
        data: u8,
    )
        ensures
            store_step(*old(self), AddrMode::Abs, cycle, data, *final(self), old(bus).accesses(), final(bus).accesses()),
    {
        let ghost s = *self;
        let ghost log0 = bus.accesses();
        match cycle {
            0 => {
                let b = bus.read(master, self.pc);
                self.temp_addr = b as u16;
                self.pc = self.pc.wrapping_add(1);
                self.state = ExecState::Execute(self.opcode, 1);
                assert(*self == store_next(s, AddrMode::Abs, cycle, b));
                assert(bus.accesses() == logged(log0, store_log(s, AddrMode::Abs, cycle, b, data)));
                assert(store_step(s, AddrMode::Abs, cycle, data, *self, log0, bus.accesses()));
            },
            1 => {
                let b = bus.read(master, self.pc);
                self.temp_addr = (b as u16 * 256) | self.temp_addr;
                self.pc = self.pc.wrapping_add(1);
                self.state = ExecState::Execute(self.opcode, 2);
                assert(*self == store_next(s, AddrMode::Abs, cycle, b));
                assert(bus.accesses() == logged(log0, store_log(s, AddrMode::Abs, cycle, b, data)));
                assert(store_step(s, AddrMode::Abs, cycle, data, *self, log0, bus.accesses()));
            },
            2 => {
                bus.write(master, self.temp_addr, data);
                self.state = ExecState::Fetch;
                assert(*self == store_next(s, AddrMode::Abs, cycle, 0));
                assert(bus.accesses() == logged(log0, store_log(s, AddrMode::Abs, cycle, 0, data)));
                assert(store_step(s, AddrMode::Abs, cycle, data, *self, log0, bus.accesses()));
            },
            _ => {
                self.state = ExecState::Fetch;
                assert(*self == store_next(s, AddrMode::Abs, cycle, 0));
                assert(bus.accesses() == logged(log0, store_log(s, AddrMode::Abs, cycle, 0, data)));
                assert(store_step(s, AddrMode::Abs, cycle, data, *self, log0, bus.accesses()));
            },
        }
    }

    /// Store to absolute indexed by X; always takes the fix-up step.
    #[verifier::spinoff_prover]
    #[verifier::rlimit(100)]
    pub fn store_abs_x<B: Bus<Address = u16, Data = u8> + ?Sized>(
        &mut self,
        cycle: u8,
        bus: &mut B,
        master: BusMaster,
        data: u8,
    )
        ensures
            store_step(*old(self), AddrMode::AbsX, cycle, data, *final(self), old(bus).accesses(), final(bus).accesses()),
    {
        let ghost s = *self;
        let ghost log0 = bus.accesses();
        match cycle {
            0 => {
                let b = bus.read(master, self.pc);
                self.temp_addr = b as u16;
                self.pc = self.pc.wrapping_add(1);
                self.state = ExecState::Execute(self.opcode, 1);
                assert(*self == store_next(s, AddrMode::AbsX, cycle, b));
                assert(bus.accesses() == logged(log0, store_log(s, AddrMode::AbsX, cycle, b, data)));
                assert(store_step(s, AddrMode::AbsX, cycle, data, *self, log0, bus.accesses()));
            },
            1 => {
                let b = bus.read(master, self.pc);
                self.pc = self.pc.wrapping_add(1);
                let base: u16 = (b as u16 * 256) | self.temp_addr;
                self.temp_addr = ((base as u32 + self.x as u32) % 65536) as u16;
                self.state = ExecState::Execute(self.opcode, 2);
                assert(*self == store_next(s, AddrMode::AbsX, cycle, b));
                assert(bus.accesses() == logged(log0, store_log(s, AddrMode::AbsX, cycle, b, data)));
                assert(store_step(s, AddrMode::AbsX, cycle, data, *self, log0, bus.accesses()));
            },
            2 => {
                self.state = ExecState::Execute(self.opcode, 3);
                assert(*self == store_next(s, AddrMode::AbsX, cycle, 0));
                assert(bus.accesses() == logged(log0, store_log(s, AddrMode::AbsX, cycle, 0, data)));
                assert(store_step(s, AddrMode::AbsX, cycle, data, *self, log0, bus.accesses()));
            },
            3 => {
                bus.write(master, self.temp_addr, data);
                self.state = ExecState::Fetch;
                assert(*self == store_next(s, AddrMode::AbsX, cycle, 0));
                assert(bus.accesses() == logged(log0, store_log(s, AddrMode::AbsX, cycle, 0, data)));
                assert(store_step(s, AddrMode::AbsX, cycle, data, *self, log0, bus.accesses()));
            },
            _ => {
                self.state = ExecState::Fetch;
                assert(*self == store_next(s, AddrMode::AbsX, cycle, 0));
                assert(bus.accesses() == logged(log0, store_log(s, AddrMode::AbsX, cycle, 0, data)));
                assert(store_step(s, AddrMode::AbsX, cycle, data, *self, log0, bus.accesses()));
            },
        }
    }

    /// Store to absolute indexed by Y; always takes the fix-up step.
    #[verifier::spinoff_prover]
    #[verifier::rlimit(100)]
    pub fn store_abs_y<B: Bus<Address = u16, Data = u8> + ?Sized>(
        &mut self,
        cycle: u8,
        bus: &mut B,
        master: BusMaster,
        data: u8,
    )
        ensures
            store_step(*old(self), AddrMode::AbsY, cycle, data, *final(self), old(bus).accesses(), final(bus).accesses()),
    {
        let ghost s = *self;
        let ghost log0 = bus.accesses();
        match cycle {
            0 => {
                let b = bus.read(master, self.pc);
                self.temp_addr = b as u16;
                self.pc = self.pc.wrapping_add(1);
                self.state = ExecState::Execute(self.opcode, 1);
                assert(*self == store_next(s, AddrMode::AbsY, cycle, b));
                assert(bus.accesses() == logged(log0, store_log(s, AddrMode::AbsY, cycle, b, data)));
                assert(store_step(s, AddrMode::AbsY, cycle, data, *self, log0, bus.accesses()));
            },
            1 => {
                let b = bus.read(master, self.pc);
                self.pc = self.pc.wrapping_add(1);
                let base: u16 = (b as u16 * 256) | self.temp_addr;
                self.temp_addr = ((base as u32 + self.y as u32) % 65536) as u16;
                self.state = ExecState::Execute(self.opcode, 2);
                assert(*self == store_next(s, AddrMode::AbsY, cycle, b));
                assert(bus.accesses() == logged(log0, store_log(s, AddrMode::AbsY, cycle, b, data)));
                assert(store_step(s, AddrMode::AbsY, cycle, data, *self, log0, bus.accesses()));
            },
            2 => {
                self.state = ExecState::Execute(self.opcode, 3);
                assert(*self == store_next(s, AddrMode::AbsY, cycle, 0));
                assert(bus.accesses() == logged(log0, store_log(s, AddrMode::AbsY, cycle, 0, data)));
                assert(store_step(s, AddrMode::AbsY, cycle, data, *self, log0, bus.accesses()));
            },
            3 => {
                bus.write(master, self.temp_addr, data);
                self.state = ExecState::Fetch;
                assert(*self == store_next(s, AddrMode::AbsY, cycle, 0));
                assert(bus.accesses() == logged(log0, store_log(s, AddrMode::AbsY, cycle, 0, data)));
                assert(store_step(s, AddrMode::AbsY, cycle, data, *self, log0, bus.accesses()));
            },
            _ => {
                self.state = ExecState::Fetch;
                assert(*self == store_next(s, AddrMode::AbsY, cycle, 0));
                assert(bus.accesses() == logged(log0, store_log(s, AddrMode::AbsY, cycle, 0, data)));
                assert(store_step(s, AddrMode::AbsY, cycle, data, *self, log0, bus.accesses()));
            },
        }
    }

    /// Store through (Indirect,X).
    #[verifier::spinoff_prover]
    #[verifier::rlimit(100)]
    pub fn store_ind_x<B: Bus<Address = u16, Data = u8> + ?Sized>(
        &mut self,
        cycle: u8,
        bus: &mut B,
        master: BusMaster,
        data: u8,
    )
        ensures
            store_step(*old(self), AddrMode::IndX, cycle, data, *final(self), old(bus).accesses(), final(bus).accesses()),
    {
        let ghost s = *self;
        let ghost log0 = bus.accesses();
        match cycle {
            0 => {
                let b = bus.read(master, self.pc);
                self.temp_data = b;
                self.pc = self.pc.wrapping_add(1);
                self.state = ExecState::Execute(self.opcode, 1);
                assert(*self == store_next(s, AddrMode::IndX, cycle, b));
                assert(bus.accesses() == logged(log0, store_log(s, AddrMode::IndX, cycle, b, data)));
                assert(store_step(s, AddrMode::IndX, cycle, data, *self, log0, bus.accesses()));
            },
            1 => {
                self.temp_data = self.temp_data.wrapping_add(self.x);
                self.state = ExecState::Execute(self.opcode, 2);
                assert(*self == store_next(s, AddrMode::IndX, cycle, 0));
                assert(bus.accesses() == logged(log0, store_log(s, AddrMode::IndX, cycle, 0, data)));
                assert(store_step(s, AddrMode::IndX, cycle, data, *self, log0, bus.accesses()));
            },
            2 => {
                let b = bus.read(master, self.temp_data as u16);
                self.temp_addr = b as u16;
                self.state = ExecState::Execute(self.opcode, 3);
                assert(*self == store_next(s, AddrMode::IndX, cycle, b));
                assert(bus.accesses() == logged(log0, store_log(s, AddrMode::IndX, cycle, b, data)));
                assert(store_step(s, AddrMode::IndX, cycle, data, *self, log0, bus.accesses()));
            },
            3 => {
                let b = bus.read(master, self.temp_data.wrapping_add(1) as u16);
                self.temp_addr = (b as u16 * 256) | self.temp_addr;
                self.state = ExecState::Execute(self.opcode, 4);
                assert(*self == store_next(s, AddrMode::IndX, cycle, b));
                assert(bus.accesses() == logged(log0, store_log(s, AddrMode::IndX, cycle, b, data)));
                assert(store_step(s, AddrMode::IndX, cycle, data, *self, log0, bus.accesses()));
            },
            4 => {
                bus.write(master, self.temp_addr, data);
                self.state = ExecState::Fetch;
                assert(*self == store_next(s, AddrMode::IndX, cycle, 0));
                assert(bus.accesses() == logged(log0, store_log(s, AddrMode::IndX, cycle, 0, data)));
                assert(store_step(s, AddrMode::IndX, cycle, data, *self, log0, bus.accesses()));
            },
            _ => {
                self.state = ExecState::Fetch;
                assert(*self == store_next(s, AddrMode::IndX, cycle, 0));
                assert(bus.accesses() == logged(log0, store_log(s, AddrMode::IndX, cycle, 0, data)));
                assert(store_step(s, AddrMode::IndX, cycle, data, *self, log0, bus.accesses()));
            },
        }
    }

    /// Store through (Indirect),Y; always takes the fix-up step.
    #[verifier::spinoff_prover]
    #[verifier::rlimit(100)]
    pub fn store_ind_y<B: Bus<Address = u16, Data = u8> + ?Sized>(
        &mut self,
        cycle: u8,
        bus: &mut B,
        master: BusMaster,
        data: u8,
    )
        ensures
            store_step(*old(self), AddrMode::IndY, cycle, data, *final(self), old(bus).accesses(), final(bus).accesses()),
    {
        let ghost s = *self;
        let ghost log0 = bus.accesses();
        match cycle {
            0 => {
                let b = bus.read(master, self.pc);
                self.temp_data = b;
                self.pc = self.pc.wrapping_add(1);
                self.state = ExecState::Execute(self.opcode, 1);
                assert(*self == store_next(s, AddrMode::IndY, cycle, b));
                assert(bus.accesses() == logged(log0, store_log(s, AddrMode::IndY, cycle, b, data)));
                assert(store_step(s, AddrMode::IndY, cycle, data, *self, log0, bus.accesses()));
            },
            1 => {
                let b = bus.read(master, self.temp_data as u16);
                self.temp_addr = b as u16;
                self.state = ExecState::Execute(self.opcode, 2);
                assert(*self == store_next(s, AddrMode::IndY, cycle, b));
                assert(bus.accesses() == logged(log0, store_log(s, AddrMode::IndY, cycle, b, data)));
                assert(store_step(s, AddrMode::IndY, cycle, data, *self, log0, bus.accesses()));
            },
            2 => {
                let b = bus.read(master, self.temp_data.wrapping_add(1) as u16);
                let base: u16 = (b as u16 * 256) | self.temp_addr;
                self.temp_addr = ((base as u32 + self.y as u32) % 65536) as u16;
                self.state = ExecState::Execute(self.opcode, 3);
                assert(*self == store_next(s, AddrMode::IndY, cycle, b));
                assert(bus.accesses() == logged(log0, store_log(s, AddrMode::IndY, cycle, b, data)));
                assert(store_step(s, AddrMode::IndY, cycle, data, *self, log0, bus.accesses()));
            },
            3 => {
                self.state = ExecState::Execute(self.opcode, 4);
                assert(*self == store_next(s, AddrMode::IndY, cycle, 0));
                assert(bus.accesses() == logged(log0, store_log(s, AddrMode::IndY, cycle, 0, data)));
                assert(store_step(s, AddrMode::IndY, cycle, data, *self, log0, bus.accesses()));
            },
            4 => {
                bus.write(master, self.temp_addr, data);
                self.state = ExecState::Fetch;
                assert(*self == store_next(s, AddrMode::IndY, cycle, 0));
                assert(bus.accesses() == logged(log0, store_log(s, AddrMode::IndY, cycle, 0, data)));
                assert(store_step(s, AddrMode::IndY, cycle, data, *self, log0, bus.accesses()));
            },
            _ => {
                self.state = ExecState::Fetch;
                assert(*self == store_next(s, AddrMode::IndY, cycle, 0));
                assert(bus.accesses() == logged(log0, store_log(s, AddrMode::IndY, cycle, 0, data)));
                assert(store_step(s, AddrMode::IndY, cycle, data, *self, log0, bus.accesses()));
            },
        }
    }

    /// Read-modify-write on zero page.
    #[verifier::spinoff_prover]
    #[verifier::rlimit(100)]
    pub fn rmw_zp<B: Bus<Address = u16, Data = u8> + ?Sized>(
        &mut self,
        cycle: u8,
        bus: &mut B,
        master: BusMaster,
        op: RmwOp,
    )
        ensures
            rmw_step(*old(self), AddrMode::Zp, op, cycle, *final(self), old(bus).accesses(), final(bus).accesses()),
    {
        let ghost s = *self;
        let ghost log0 = bus.accesses();
        match cycle {
            0 => {
                let b = bus.read(master, self.pc);
                self.temp_addr = b as u16;
                self.pc = self.pc.wrapping_add(1);
                self.state = ExecState::Execute(self.opcode, 1);
                assert(*self == rmw_next(s, AddrMode::Zp, op, cycle, b));
                assert(bus.accesses() == logged(log0, rmw_log(s, AddrMode::Zp, cycle, b)));
                assert(rmw_step(s, AddrMode::Zp, op, cycle, *self, log0, bus.accesses()));
            },
            1 => {
                let b = bus.read(master, self.temp_addr);
                self.temp_data = b;
                self.state = ExecState::Execute(self.opcode, 2);
                assert(*self == rmw_next(s, AddrMode::Zp, op, cycle, b));
                assert(bus.accesses() == logged(log0, rmw_log(s, AddrMode::Zp, cycle, b)));
                assert(rmw_step(s, AddrMode::Zp, op, cycle, *self, log0, bus.accesses()));
            },
            2 => {
                let v = self.temp_data;
                let r = self.apply_rmw(op, v);
                self.temp_data = r;
                self.state = ExecState::Execute(self.opcode, 3);
                assert(*self == rmw_next(s, AddrMode::Zp, op, cycle, 0));
                assert(bus.accesses() == logged(log0, rmw_log(s, AddrMode::Zp, cycle, 0)));
                assert(rmw_step(s, AddrMode::Zp, op, cycle, *self, log0, bus.accesses()));
            },
            3 => {
                bus.write(master, self.temp_addr, self.temp_data);
                self.state = ExecState::Fetch;
                assert(*self == rmw_next(s, AddrMode::Zp, op, cycle, 0));
                assert(bus.accesses() == logged(log0, rmw_log(s, AddrMode::Zp, cycle, 0)));
                assert(rmw_step(s, AddrMode::Zp, op, cycle, *self, log0, bus.accesses()));
            },
            _ => {
                self.state = ExecState::Fetch;
                assert(*self == rmw_next(s, AddrMode::Zp, op, cycle, 0));
                assert(bus.accesses() == logged(log0, rmw_log(s, AddrMode::Zp, cycle, 0)));
                assert(rmw_step(s, AddrMode::Zp, op, cycle, *self, log0, bus.accesses()));
            },
        }
    }

    /// Read-modify-write on zero page indexed by X.
    #[verifier::spinoff_prover]
    #[verifier::rlimit(100)]
    pub fn rmw_zp_x<B: Bus<Address = u16, Data = u8> + ?Sized>(
        &mut self,
        cycle: u8,
        bus: &mut B,
        master: BusMaster,
        op: RmwOp,
    )
        ensures
            rmw_step(*old(self), AddrMode::ZpX, op, cycle, *final(self), old(bus).accesses(), final(bus).accesses()),
    {
        let ghost s = *self;
        let ghost log0 = bus.accesses();
        match cycle {
            0 => {
                let b = bus.read(master, self.pc);
                self.temp_addr = b as u16;
                self.pc = self.pc.wrapping_add(1);
                self.state = ExecState::Execute(self.opcode, 1);
                assert(*self == rmw_next(s, AddrMode::ZpX, op, cycle, b));
                assert(bus.accesses() == logged(log0, rmw_log(s, AddrMode::ZpX, cycle, b)));
                assert(rmw_step(s, AddrMode::ZpX, op, cycle, *self, log0, bus.accesses()));
            },
            1 => {
                self.temp_addr = ((self.temp_addr as u32 + self.x as u32) % 256) as u16;
                self.state = ExecState::Execute(self.opcode, 2);
                assert(*self == rmw_next(s, AddrMode::ZpX, op, cycle, 0));
                assert(bus.accesses() == logged(log0, rmw_log(s, AddrMode::ZpX, cycle, 0)));
                assert(rmw_step(s, AddrMode::ZpX, op, cycle, *self, log0, bus.accesses()));
            },
            2 => {
                let b = bus.read(master, self.temp_addr);
                self.temp_data = b;
                self.state = ExecState::Execute(self.opcode, 3);
                assert(*self == rmw_next(s, AddrMode::ZpX, op, cycle, b));
                assert(bus.accesses() == logged(log0, rmw_log(s, AddrMode::ZpX, cycle, b)));
                assert(rmw_step(s, AddrMode::ZpX, op, cycle, *self, log0, bus.accesses()));
            },
            3 => {
                let v = self.temp_data;
                let r = self.apply_rmw(op, v);
                self.temp_data = r;
                self.state = ExecState::Execute(self.opcode, 4);
                assert(*self == rmw_next(s, AddrMode::ZpX, op, cycle, 0));
                assert(bus.accesses() == logged(log0, rmw_log(s, AddrMode::ZpX, cycle, 0)));
                assert(rmw_step(s, AddrMode::ZpX, op, cycle, *self, log0, bus.accesses()));
            },
            4 => {
                bus.write(master, self.temp_addr, self.temp_data);
                self.state = ExecState::Fetch;
                assert(*self == rmw_next(s, AddrMode::ZpX, op, cycle, 0));
                assert(bus.accesses() == logged(log0, rmw_log(s, AddrMode::ZpX, cycle, 0)));
                assert(rmw_step(s, AddrMode::ZpX, op, cycle, *self, log0, bus.accesses()));
            },
            _ => {
                self.state = ExecState::Fetch;
                assert(*self == rmw_next(s, AddrMode::ZpX, op, cycle, 0));
                assert(bus.accesses() == logged(log0, rmw_log(s, AddrMode::ZpX, cycle, 0)));
                assert(rmw_step(s, AddrMode::ZpX, op, cycle, *self, log0, bus.accesses()));
            },
        }
    }

    /// Read-modify-write on an absolute address.
    #[verifier::spinoff_prover]
    #[verifier::rlimit(100)]
    pub fn rmw_abs<B: Bus<Address = u16, Data = u8> + ?Sized>(
        &mut self,
        cycle: u8,
        bus: &mut B,
        master: BusMaster,
        op: RmwOp,
    )
        ensures
            rmw_step(*old(self), AddrMode::Abs, op, cycle, *final(self), old(bus).accesses(), final(bus).accesses()),
    {
        let ghost s = *self;
        let ghost log0 = bus.accesses();
        match cycle {
            0 => {
                let b = bus.read(master, self.pc);
                self.temp_addr = b as u16;
                self.pc = self.pc.wrapping_add(1);
                self.state = ExecState::Execute(self.opcode, 1);
                assert(*self == rmw_next(s, AddrMode::Abs, op, cycle, b));
                assert(bus.accesses() == logged(log0, rmw_log(s, AddrMode::Abs, cycle, b)));
                assert(rmw_step(s, AddrMode::Abs, op, cycle, *self, log0, bus.accesses()));
            },
            1 => {
                let b = bus.read(master, self.pc);
                self.temp_addr = (b as u16 * 256) | self.temp_addr;
                self.pc = self.pc.wrapping_add(1);
                self.state = ExecState::Execute(self.opcode, 2);
                assert(*self == rmw_next(s, AddrMode::Abs, op, cycle, b));
                assert(bus.accesses() == logged(log0, rmw_log(s, AddrMode::Abs, cycle, b)));
                assert(rmw_step(s, AddrMode::Abs, op, cycle, *self, log0, bus.accesses()));
            },
            2 => {
                let b = bus.read(master, self.temp_addr);
                self.temp_data = b;
                self.state = ExecState::Execute(self.opcode, 3);
                assert(*self == rmw_next(s, AddrMode::Abs, op, cycle, b));
                assert(bus.accesses() == logged(log0, rmw_log(s, AddrMode::Abs, cycle, b)));
                assert(rmw_step(s, AddrMode::Abs, op, cycle, *self, log0, bus.accesses()));
            },
            3 => {
                let v = self.temp_data;
                let r = self.apply_rmw(op, v);
                self.temp_data = r;
                self.state = ExecState::Execute(self.opcode, 4);
                assert(*self == rmw_next(s, AddrMode::Abs, op, cycle, 0));
                assert(bus.accesses() == logged(log0, rmw_log(s, AddrMode::Abs, cycle, 0)));
                assert(rmw_step(s, AddrMode::Abs, op, cycle, *self, log0, bus.accesses()));
            },
            4 => {
                bus.write(master, self.temp_addr, self.temp_data);
                self.state = ExecState::Fetch;
                assert(*self == rmw_next(s, AddrMode::Abs, op, cycle, 0));
                assert(bus.accesses() == logged(log0, rmw_log(s, AddrMode::Abs, cycle, 0)));
                assert(rmw_step(s, AddrMode::Abs, op, cycle, *self, log0, bus.accesses()));
            },
            _ => {
                self.state = ExecState::Fetch;
                assert(*self == rmw_next(s, AddrMode::Abs, op, cycle, 0));
                assert(bus.accesses() == logged(log0, rmw_log(s, AddrMode::Abs, cycle, 0)));
                assert(rmw_step(s, AddrMode::Abs, op, cycle, *self, log0, bus.accesses()));
            },
        }
    }

    /// Read-modify-write on absolute indexed by X; always takes the fix-up step.
    #[verifier::spinoff_prover]
    #[verifier::rlimit(100)]
    pub fn rmw_abs_x<B: Bus<Address = u16, Data = u8> + ?Sized>(
        &mut self,
        cycle: u8,
        bus: &mut B,
        master: BusMaster,
        op: RmwOp,
    )
        ensures
            rmw_step(*old(self), AddrMode::AbsX, op, cycle, *final(self), old(bus).accesses(), final(bus).accesses()),
    {
        let ghost s = *self;
        let ghost log0 = bus.accesses();
        match cycle {
            0 => {
                let b = bus.read(master, self.pc);
                self.temp_addr = b as u16;
                self.pc = self.pc.wrapping_add(1);
                self.state = ExecState::Execute(self.opcode, 1);
                assert(*self == rmw_next(s, AddrMode::AbsX, op, cycle, b));
                assert(bus.accesses() == logged(log0, rmw_log(s, AddrMode::AbsX, cycle, b)));
                assert(rmw_step(s, AddrMode::AbsX, op, cycle, *self, log0, bus.accesses()));
            },
            1 => {
                let b = bus.read(master, self.pc);
                self.pc = self.pc.wrapping_add(1);
                let base: u16 = (b as u16 * 256) | self.temp_addr;
                self.temp_addr = ((base as u32 + self.x as u32) % 65536) as u16;
                self.state = ExecState::Execute(self.opcode, 2);
                assert(*self == rmw_next(s, AddrMode::AbsX, op, cycle, b));
                assert(bus.accesses() == logged(log0, rmw_log(s, AddrMode::AbsX, cycle, b)));
                assert(rmw_step(s, AddrMode::AbsX, op, cycle, *self, log0, bus.accesses()));
            },
            2 => {
                self.state = ExecState::Execute(self.opcode, 3);
                assert(*self == rmw_next(s, AddrMode::AbsX, op, cycle, 0));
                assert(bus.accesses() == logged(log0, rmw_log(s, AddrMode::AbsX, cycle, 0)));
                assert(rmw_step(s, AddrMode::AbsX, op, cycle, *self, log0, bus.accesses()));
            },
            3 => {
                let b = bus.read(master, self.temp_addr);
                self.temp_data = b;
                self.state = ExecState::Execute(self.opcode, 4);
                assert(*self == rmw_next(s, AddrMode::AbsX, op, cycle, b));
                assert(bus.accesses() == logged(log0, rmw_log(s, AddrMode::AbsX, cycle, b)));
                assert(rmw_step(s, AddrMode::AbsX, op, cycle, *self, log0, bus.accesses()));
            },
            4 => {
                let v = self.temp_data;
                let r = self.apply_rmw(op, v);
                self.temp_data = r;
                self.state = ExecState::Execute(self.opcode, 5);
                assert(*self == rmw_next(s, AddrMode::AbsX, op, cycle, 0));
                assert(bus.accesses() == logged(log0, rmw_log(s, AddrMode::AbsX, cycle, 0)));
                assert(rmw_step(s, AddrMode::AbsX, op, cycle, *self, log0, bus.accesses()));
            },
            5 => {
                bus.write(master, self.temp_addr, self.temp_data);
                self.state = ExecState::Fetch;
                assert(*self == rmw_next(s, AddrMode::AbsX, op, cycle, 0));
                assert(bus.accesses() == logged(log0, rmw_log(s, AddrMode::AbsX, cycle, 0)));
                assert(rmw_step(s, AddrMode::AbsX, op, cycle, *self, log0, bus.accesses()));
            },
            _ => {
                self.state = ExecState::Fetch;
                assert(*self == rmw_next(s, AddrMode::AbsX, op, cycle, 0));
                assert(bus.accesses() == logged(log0, rmw_log(s, AddrMode::AbsX, cycle, 0)));
                assert(rmw_step(s, AddrMode::AbsX, op, cycle, *self, log0, bus.accesses()));
            },
        }
    }
}

/// The addressing mode and operation of each opcode that reads an operand.
pub open spec fn read_mode(opcode: u8) -> Option<(AddrMode, ReadOp)> {
    match opcode {
        0xA9 => Some((AddrMode::Imm, ReadOp::Lda)),
        0xA5 => Some((AddrMode::Zp, ReadOp::Lda)),
        0xB5 => Some((AddrMode::ZpX, ReadOp::Lda)),
        0xAD => Some((AddrMode::Abs, ReadOp::Lda)),
        0xBD => Some((AddrMode::AbsX, ReadOp::Lda)),
        0xB9 => Some((AddrMode::AbsY, ReadOp::Lda)),
        0xA1 => Some((AddrMode::IndX, ReadOp::Lda)),
        0xB1 => Some((AddrMode::IndY, ReadOp::Lda)),
        0xA2 => Some((AddrMode::Imm, ReadOp::Ldx)),
        0xA6 => Some((AddrMode::Zp, ReadOp::Ldx)),
        0xB6 => Some((AddrMode::ZpY, ReadOp::Ldx)),
        0xAE => Some((AddrMode::Abs, ReadOp::Ldx)),
        0xBE => Some((AddrMode::AbsY, ReadOp::Ldx)),
        0xA0 => Some((AddrMode::Imm, ReadOp::Ldy)),
        0xA4 => Some((AddrMode::Zp, ReadOp::Ldy)),
        0xB4 => Some((AddrMode::ZpX, ReadOp::Ldy)),
        0xAC => Some((AddrMode::Abs, ReadOp::Ldy)),
        0xBC => Some((AddrMode::AbsX, ReadOp::Ldy)),
        0x69 => Some((AddrMode::Imm, ReadOp::Adc)),
        0x65 => Some((AddrMode::Zp, ReadOp::Adc)),
        0x75 => Some((AddrMode::ZpX, ReadOp::Adc)),
        0x6D => Some((AddrMode::Abs, ReadOp::Adc)),
        0x7D => Some((AddrMode::AbsX, ReadOp::Adc)),
        0x79 => Some((AddrMode::AbsY, ReadOp::Adc)),
        0x61 => Some((AddrMode::IndX, ReadOp::Adc)),
        0x71 => Some((AddrMode::IndY, ReadOp::Adc)),
        0xE9 => Some((AddrMode::Imm, ReadOp::Sbc)),
        0xE5 => Some((AddrMode::Zp, ReadOp::Sbc)),
        0xF5 => Some((AddrMode::ZpX, ReadOp::Sbc)),
        0xED => Some((AddrMode::Abs, ReadOp::Sbc)),
        0xFD => Some((AddrMode::AbsX, ReadOp::Sbc)),
        0xF9 => Some((AddrMode::AbsY, ReadOp::Sbc)),
        0xE1 => Some((AddrMode::IndX, ReadOp::Sbc)),
        0xF1 => Some((AddrMode::IndY, ReadOp::Sbc)),
        0xC9 => Some((AddrMode::Imm, ReadOp::Cmp)),
        0xC5 => Some((AddrMode::Zp, ReadOp::Cmp)),
        0xD5 => Some((AddrMode::ZpX, ReadOp::Cmp)),
        0xCD => Some((AddrMode::Abs, ReadOp::Cmp)),
        0xDD => Some((AddrMode::AbsX, ReadOp::Cmp)),
        0xD9 => Some((AddrMode::AbsY, ReadOp::Cmp)),
        0xC1 => Some((AddrMode::IndX, ReadOp::Cmp)),
        0xD1 => Some((AddrMode::IndY, ReadOp::Cmp)),
        0x29 => Some((AddrMode::Imm, ReadOp::And)),
        0x25 => Some((AddrMode::Zp, ReadOp::And)),
        0x35 => Some((AddrMode::ZpX, ReadOp::And)),
        0x2D => Some((AddrMode::Abs, ReadOp::And)),
        0x3D => Some((AddrMode::AbsX, ReadOp::And)),
        0x39 => Some((AddrMode::AbsY, ReadOp::And)),
        0x21 => Some((AddrMode::IndX, ReadOp::And)),
        0x31 => Some((AddrMode::IndY, ReadOp::And)),
        0x09 => Some((AddrMode::Imm, ReadOp::Ora)),
        0x05 => Some((AddrMode::Zp, ReadOp::Ora)),
        0x15 => Some((AddrMode::ZpX, ReadOp::Ora)),
        0x0D => Some((AddrMode::Abs, ReadOp::Ora)),
        0x1D => Some((AddrMode::AbsX, ReadOp::Ora)),
        0x19 => Some((AddrMode::AbsY, ReadOp::Ora)),
        0x01 => Some((AddrMode::IndX, ReadOp::Ora)),
        0x11 => Some((AddrMode::IndY, ReadOp::Ora)),
        0x49 => Some((AddrMode::Imm, ReadOp::Eor)),
        0x45 => Some((AddrMode::Zp, ReadOp::Eor)),
        0x55 => Some((AddrMode::ZpX, ReadOp::Eor)),
        0x4D => Some((AddrMode::Abs, ReadOp::Eor)),
        0x5D => Some((AddrMode::AbsX, ReadOp::Eor)),
        0x59 => Some((AddrMode::AbsY, ReadOp::Eor)),
        0x41 => Some((AddrMode::IndX, ReadOp::Eor)),
        0x51 => Some((AddrMode::IndY, ReadOp::Eor)),
        0x24 => Some((AddrMode::Zp, ReadOp::Bit)),
        0x2C => Some((AddrMode::Abs, ReadOp::Bit)),
        0xE0 => Some((AddrMode::Imm, ReadOp::Cpx)),
        0xE4 => Some((AddrMode::Zp, ReadOp::Cpx)),
        0xEC => Some((AddrMode::Abs, ReadOp::Cpx)),
        0xC0 => Some((AddrMode::Imm, ReadOp::Cpy)),
        0xC4 => Some((AddrMode::Zp, ReadOp::Cpy)),
        0xCC => Some((AddrMode::Abs, ReadOp::Cpy)),
        _ => None,
    }
}

/// The addressing mode and register of each store opcode.
pub open spec fn store_mode(opcode: u8) -> Option<(AddrMode, StoreReg)> {
    match opcode {
        0x85 => Some((AddrMode::Zp, StoreReg::A)),
        0x95 => Some((AddrMode::ZpX, StoreReg::A)),
        0x8D => Some((AddrMode::Abs, StoreReg::A)),
        0x9D => Some((AddrMode::AbsX, StoreReg::A)),
        0x99 => Some((AddrMode::AbsY, StoreReg::A)),
        0x81 => Some((AddrMode::IndX, StoreReg::A)),
        0x91 => Some((AddrMode::IndY, StoreReg::A)),
        0x86 => Some((AddrMode::Zp, StoreReg::X)),
        0x96 => Some((AddrMode::ZpY, StoreReg::X)),
        0x8E => Some((AddrMode::Abs, StoreReg::X)),
        0x84 => Some((AddrMode::Zp, StoreReg::Y)),
        0x94 => Some((AddrMode::ZpX, StoreReg::Y)),
        0x8C => Some((AddrMode::Abs, StoreReg::Y)),
        _ => None,
    }
}

/// The addressing mode and operation of each read-modify-write opcode.
pub open spec fn rmw_mode(opcode: u8) -> Option<(AddrMode, RmwOp)> {
    match opcode {
        0x06 => Some((AddrMode::Zp, RmwOp::Asl)),
        0x16 => Some((AddrMode::ZpX, RmwOp::Asl)),
        0x0E => Some((AddrMode::Abs, RmwOp::Asl)),
        0x1E => Some((AddrMode::AbsX, RmwOp::Asl)),
        0x46 => Some((AddrMode::Zp, RmwOp::Lsr)),
        0x56 => Some((AddrMode::ZpX, RmwOp::Lsr)),
        0x4E => Some((AddrMode::Abs, RmwOp::Lsr)),
        0x5E => Some((AddrMode::AbsX, RmwOp::Lsr)),
        0x26 => Some((AddrMode::Zp, RmwOp::Rol)),
        0x36 => Some((AddrMode::ZpX, RmwOp::Rol)),
        0x2E => Some((AddrMode::Abs, RmwOp::Rol)),
        0x3E => Some((AddrMode::AbsX, RmwOp::Rol)),
        0x66 => Some((AddrMode::Zp, RmwOp::Ror)),
        0x76 => Some((AddrMode::ZpX, RmwOp::Ror)),
        0x6E => Some((AddrMode::Abs, RmwOp::Ror)),
        0x7E => Some((AddrMode::AbsX, RmwOp::Ror)),
        0xE6 => Some((AddrMode::Zp, RmwOp::Inc)),
        0xF6 => Some((AddrMode::ZpX, RmwOp::Inc)),
        0xEE => Some((AddrMode::Abs, RmwOp::Inc)),
        0xFE => Some((AddrMode::AbsX, RmwOp::Inc)),
        0xC6 => Some((AddrMode::Zp, RmwOp::Dec)),
        0xD6 => Some((AddrMode::ZpX, RmwOp::Dec)),
        0xCE => Some((AddrMode::Abs, RmwOp::Dec)),
        0xDE => Some((AddrMode::AbsX, RmwOp::Dec)),
        _ => None,
    }
}

/// Look up a reading opcode.
pub fn read_mode_of(opcode: u8) -> (r: Option<(AddrMode, ReadOp)>)
    ensures
        r == read_mode(opcode),
{
    match opcode {
        0xA9 => Some((AddrMode::Imm, ReadOp::Lda)),
        0xA5 => Some((AddrMode::Zp, ReadOp::Lda)),
        0xB5 => Some((AddrMode::ZpX, ReadOp::Lda)),
        0xAD => Some((AddrMode::Abs, ReadOp::Lda)),
        0xBD => Some((AddrMode::AbsX, ReadOp::Lda)),
        0xB9 => Some((AddrMode::AbsY, ReadOp::Lda)),
        0xA1 => Some((AddrMode::IndX, ReadOp::Lda)),
        0xB1 => Some((AddrMode::IndY, ReadOp::Lda)),
        0xA2 => Some((AddrMode::Imm, ReadOp::Ldx)),
        0xA6 => Some((AddrMode::Zp, ReadOp::Ldx)),
        0xB6 => Some((AddrMode::ZpY, ReadOp::Ldx)),
        0xAE => Some((AddrMode::Abs, ReadOp::Ldx)),
        0xBE => Some((AddrMode::AbsY, ReadOp::Ldx)),
        0xA0 => Some((AddrMode::Imm, ReadOp::Ldy)),
        0xA4 => Some((AddrMode::Zp, ReadOp::Ldy)),
        0xB4 => Some((AddrMode::ZpX, ReadOp::Ldy)),
        0xAC => Some((AddrMode::Abs, ReadOp::Ldy)),
        0xBC => Some((AddrMode::AbsX, ReadOp::Ldy)),
        0x69 => Some((AddrMode::Imm, ReadOp::Adc)),
        0x65 => Some((AddrMode::Zp, ReadOp::Adc)),
        0x75 => Some((AddrMode::ZpX, ReadOp::Adc)),
        0x6D => Some((AddrMode::Abs, ReadOp::Adc)),
        0x7D => Some((AddrMode::AbsX, ReadOp::Adc)),
        0x79 => Some((AddrMode::AbsY, ReadOp::Adc)),
        0x61 => Some((AddrMode::IndX, ReadOp::Adc)),
        0x71 => Some((AddrMode::IndY, ReadOp::Adc)),
        0xE9 => Some((AddrMode::Imm, ReadOp::Sbc)),
        0xE5 => Some((AddrMode::Zp, ReadOp::Sbc)),
        0xF5 => Some((AddrMode::ZpX, ReadOp::Sbc)),
        0xED => Some((AddrMode::Abs, ReadOp::Sbc)),
        0xFD => Some((AddrMode::AbsX, ReadOp::Sbc)),
        0xF9 => Some((AddrMode::AbsY, ReadOp::Sbc)),
        0xE1 => Some((AddrMode::IndX, ReadOp::Sbc)),
        0xF1 => Some((AddrMode::IndY, ReadOp::Sbc)),
        0xC9 => Some((AddrMode::Imm, ReadOp::Cmp)),
        0xC5 => Some((AddrMode::Zp, ReadOp::Cmp)),
        0xD5 => Some((AddrMode::ZpX, ReadOp::Cmp)),
        0xCD => Some((AddrMode::Abs, ReadOp::Cmp)),
        0xDD => Some((AddrMode::AbsX, ReadOp::Cmp)),
        0xD9 => Some((AddrMode::AbsY, ReadOp::Cmp)),
        0xC1 => Some((AddrMode::IndX, ReadOp::Cmp)),
        0xD1 => Some((AddrMode::IndY, ReadOp::Cmp)),
        0x29 => Some((AddrMode::Imm, ReadOp::And)),
        0x25 => Some((AddrMode::Zp, ReadOp::And)),
        0x35 => Some((AddrMode::ZpX, ReadOp::And)),
        0x2D => Some((AddrMode::Abs, ReadOp::And)),
        0x3D => Some((AddrMode::AbsX, ReadOp::And)),
        0x39 => Some((AddrMode::AbsY, ReadOp::And)),
        0x21 => Some((AddrMode::IndX, ReadOp::And)),
        0x31 => Some((AddrMode::IndY, ReadOp::And)),
        0x09 => Some((AddrMode::Imm, ReadOp::Ora)),
        0x05 => Some((AddrMode::Zp, ReadOp::Ora)),
        0x15 => Some((AddrMode::ZpX, ReadOp::Ora)),
        0x0D => Some((AddrMode::Abs, ReadOp::Ora)),
        0x1D => Some((AddrMode::AbsX, ReadOp::Ora)),
        0x19 => Some((AddrMode::AbsY, ReadOp::Ora)),
        0x01 => Some((AddrMode::IndX, ReadOp::Ora)),
        0x11 => Some((AddrMode::IndY, ReadOp::Ora)),
        0x49 => Some((AddrMode::Imm, ReadOp::Eor)),
        0x45 => Some((AddrMode::Zp, ReadOp::Eor)),
        0x55 => Some((AddrMode::ZpX, ReadOp::Eor)),
        0x4D => Some((AddrMode::Abs, ReadOp::Eor)),
        0x5D => Some((AddrMode::AbsX, ReadOp::Eor)),
        0x59 => Some((AddrMode::AbsY, ReadOp::Eor)),
        0x41 => Some((AddrMode::IndX, ReadOp::Eor)),
        0x51 => Some((AddrMode::IndY, ReadOp::Eor)),
        0x24 => Some((AddrMode::Zp, ReadOp::Bit)),
        0x2C => Some((AddrMode::Abs, ReadOp::Bit)),
        0xE0 => Some((AddrMode::Imm, ReadOp::Cpx)),
        0xE4 => Some((AddrMode::Zp, ReadOp::Cpx)),
        0xEC => Some((AddrMode::Abs, ReadOp::Cpx)),
        0xC0 => Some((AddrMode::Imm, ReadOp::Cpy)),
        0xC4 => Some((AddrMode::Zp, ReadOp::Cpy)),
        0xCC => Some((AddrMode::Abs, ReadOp::Cpy)),
        _ => None,
    }
}

/// Look up a store opcode.
pub fn store_mode_of(opcode: u8) -> (r: Option<(AddrMode, StoreReg)>)
    ensures
        r == store_mode(opcode),
{
    match opcode {
        0x85 => Some((AddrMode::Zp, StoreReg::A)),
        0x95 => Some((AddrMode::ZpX, StoreReg::A)),
        0x8D => Some((AddrMode::Abs, StoreReg::A)),
        0x9D => Some((AddrMode::AbsX, StoreReg::A)),
        0x99 => Some((AddrMode::AbsY, StoreReg::A)),
        0x81 => Some((AddrMode::IndX, StoreReg::A)),
        0x91 => Some((AddrMode::IndY, StoreReg::A)),
        0x86 => Some((AddrMode::Zp, StoreReg::X)),
        0x96 => Some((AddrMode::ZpY, StoreReg::X)),
        0x8E => Some((AddrMode::Abs, StoreReg::X)),
        0x84 => Some((AddrMode::Zp, StoreReg::Y)),
        0x94 => Some((AddrMode::ZpX, StoreReg::Y)),
        0x8C => Some((AddrMode::Abs, StoreReg::Y)),
        _ => None,
    }
}

/// Look up a read-modify-write opcode.
pub fn rmw_mode_of(opcode: u8) -> (r: Option<(AddrMode, RmwOp)>)
    ensures
        r == rmw_mode(opcode),
{
    match opcode {
        0x06 => Some((AddrMode::Zp, RmwOp::Asl)),
        0x16 => Some((AddrMode::ZpX, RmwOp::Asl)),
        0x0E => Some((AddrMode::Abs, RmwOp::Asl)),
        0x1E => Some((AddrMode::AbsX, RmwOp::Asl)),
        0x46 => Some((AddrMode::Zp, RmwOp::Lsr)),
        0x56 => Some((AddrMode::ZpX, RmwOp::Lsr)),
        0x4E => Some((AddrMode::Abs, RmwOp::Lsr)),
        0x5E => Some((AddrMode::AbsX, RmwOp::Lsr)),
        0x26 => Some((AddrMode::Zp, RmwOp::Rol)),
        0x36 => Some((AddrMode::ZpX, RmwOp::Rol)),
        0x2E => Some((AddrMode::Abs, RmwOp::Rol)),
        0x3E => Some((AddrMode::AbsX, RmwOp::Rol)),
        0x66 => Some((AddrMode::Zp, RmwOp::Ror)),
        0x76 => Some((AddrMode::ZpX, RmwOp::Ror)),
        0x6E => Some((AddrMode::Abs, RmwOp::Ror)),
        0x7E => Some((AddrMode::AbsX, RmwOp::Ror)),
        0xE6 => Some((AddrMode::Zp, RmwOp::Inc)),
        0xF6 => Some((AddrMode::ZpX, RmwOp::Inc)),
        0xEE => Some((AddrMode::Abs, RmwOp::Inc)),
        0xFE => Some((AddrMode::AbsX, RmwOp::Inc)),
        0xC6 => Some((AddrMode::Zp, RmwOp::Dec)),
        0xD6 => Some((AddrMode::ZpX, RmwOp::Dec)),
        0xCE => Some((AddrMode::Abs, RmwOp::Dec)),
        0xDE => Some((AddrMode::AbsX, RmwOp::Dec)),
        _ => None,
    }
}

impl M6502 {
    /// Run one step of a reading instruction in the given mode.
    pub fn run_read<B: Bus<Address = u16, Data = u8> + ?Sized>(
        &mut self,
        mode: AddrMode,
        op: ReadOp,
        cycle: u8,
        bus: &mut B,
        master: BusMaster,
    )
        ensures
            read_step(
                *old(self),
                mode,
                op,
                cycle,
                *final(self),
                old(bus).accesses(),
                final(bus).accesses(),
            ),
    {
        match mode {
            AddrMode::Imm => self.alu_imm(cycle, bus, master, op),
            AddrMode::Zp => self.alu_zp(cycle, bus, master, op),
            AddrMode::ZpX => self.alu_zp_x(cycle, bus, master, op),
            AddrMode::ZpY => self.alu_zp_y(cycle, bus, master, op),
            AddrMode::Abs => self.alu_abs(cycle, bus, master, op),
            AddrMode::AbsX => self.alu_abs_x(cycle, bus, master, op),
            AddrMode::AbsY => self.alu_abs_y(cycle, bus, master, op),
            AddrMode::IndX => self.alu_ind_x(cycle, bus, master, op),
            AddrMode::IndY => self.alu_ind_y(cycle, bus, master, op),
        }
    }

    /// Run one step of a store of `data` in the given mode.
    pub fn run_store<B: Bus<Address = u16, Data = u8> + ?Sized>(
        &mut self,
        mode: AddrMode,
        data: u8,
        cycle: u8,
        bus: &mut B,
        master: BusMaster,
    )
        requires
            mode != AddrMode::Imm,
        ensures
            store_step(
                *old(self),
                mode,
                cycle,
                data,
                *final(self),
                old(bus).accesses(),
                final(bus).accesses(),
            ),
    {
        match mode {
            AddrMode::Zp => self.store_zp(cycle, bus, master, data),
            AddrMode::ZpX => self.store_zp_x(cycle, bus, master, data),
            AddrMode::ZpY => self.store_zp_y(cycle, bus, master, data),
            AddrMode::Abs => self.store_abs(cycle, bus, master, data),
            AddrMode::AbsX => self.store_abs_x(cycle, bus, master, data),
            AddrMode::AbsY => self.store_abs_y(cycle, bus, master, data),
            AddrMode::IndX => self.store_ind_x(cycle, bus, master, data),
            AddrMode::IndY => self.store_ind_y(cycle, bus, master, data),
            AddrMode::Imm => {},
        }
    }

    /// Run one step of a read-modify-write in the given mode.
    pub fn run_rmw<B: Bus<Address = u16, Data = u8> + ?Sized>(
        &mut self,
        mode: AddrMode,
        op: RmwOp,
        cycle: u8,
        bus: &mut B,
        master: BusMaster,
    )
        requires
            mode == AddrMode::Zp || mode == AddrMode::ZpX || mode == AddrMode::Abs || mode
                == AddrMode::AbsX,
        ensures
            rmw_step(
                *old(self),
                mode,
                op,
                cycle,
                *final(self),
                old(bus).accesses(),
                final(bus).accesses(),
            ),
    {
        match mode {
            AddrMode::Zp => self.rmw_zp(cycle, bus, master, op),
            AddrMode::ZpX => self.rmw_zp_x(cycle, bus, master, op),
            AddrMode::Abs => self.rmw_abs(cycle, bus, master, op),
            _ => self.rmw_abs_x(cycle, bus, master, op),
        }
    }
}


} // verus!
