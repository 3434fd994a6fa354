//! The 6502's branches, jumps, subroutine calls and returns.

use vstd::prelude::*;
use crate::bus::{Bus, BusAccess, BusMaster, logged};
use super::{ExecState, M6502, StatusFlag, at_step, fetching, has_status, inc16, stack_addr};

verus! {

/// One down, wrapping within a byte (the stack pointer after a push).
pub open spec fn dec8(v: u8) -> u8 {
    ((v + 255) % 256) as u8
}

/// One up, wrapping within a byte (the stack pointer before a pull).
pub open spec fn inc8(v: u8) -> u8 {
    ((v + 1) % 256) as u8
}

/// `pc` moved by the signed offset `offset`, wrapping.
pub open spec fn relative(pc: u16, offset: u8) -> u16 {
    ((pc + offset - (if offset >= 128 { 256int } else { 0 })) % 65536) as u16
}

/// `low` with `b` as its high byte.
pub open spec fn with_high(low: u16, b: u8) -> u16 {
    ((b as int * 256) as u16 | low) as u16
}

/// P as pulled from the stack: B clear, U set.
pub open spec fn pulled_status(b: u8) -> u8 {
    (b | 0x20) & !0x10u8
}

/// The condition each branch opcode tests, `None` for the others.
pub open spec fn branch_condition(p: u8, opcode: u8) -> Option<bool> {
    match opcode {
        0x10 => Some(!has_status(p, StatusFlag::N)),
        0x30 => Some(has_status(p, StatusFlag::N)),
        0x50 => Some(!has_status(p, StatusFlag::V)),
        0x70 => Some(has_status(p, StatusFlag::V)),
        0x90 => Some(!has_status(p, StatusFlag::C)),
        0xB0 => Some(has_status(p, StatusFlag::C)),
        0xD0 => Some(!has_status(p, StatusFlag::Z)),
        0xF0 => Some(has_status(p, StatusFlag::Z)),
        _ => None,
    }
}

/// One step of a branch on bus byte `b`. Step 0 reads the offset: not
/// taken, the branch ends there; taken, the target is computed. Step 1
/// moves PC, and ends unless the target is on another page, which costs
/// step 2.
pub open spec fn branch_next(s: M6502, taken: bool, cycle: u8, b: u8) -> M6502 {
    if cycle == 0 {
        if !taken {
            fetching(M6502 { pc: inc16(s.pc), ..s })
        } else {
            at_step(M6502 { pc: inc16(s.pc), temp_addr: relative(inc16(s.pc), b), ..s }, 1)
        }
    } else if cycle == 1 {
        if s.pc / 256 != s.temp_addr / 256 {
            at_step(M6502 { pc: s.temp_addr, ..s }, 2)
        } else {
            fetching(M6502 { pc: s.temp_addr, ..s })
        }
    } else {
        fetching(s)
    }
}

/// What the bus sees of one step of a branch: the offset read at PC.
pub open spec fn branch_log(s: M6502, cycle: u8, b: u8) -> Option<BusAccess<u16, u8>> {
    if cycle == 0 { Some(BusAccess::Read(s.pc, b)) } else { None }
}

/// `r` is one step of a branch from `s`, the bus going from record
/// `before` to `after`.
pub open spec fn branch_step(
    s: M6502,
    taken: bool,
    cycle: u8,
    r: M6502,
    before: Seq<BusAccess<u16, u8>>,
    after: Seq<BusAccess<u16, u8>>,
) -> bool {
    exists|b: u8|
        r == #[trigger] branch_next(s, taken, cycle, b) && after == logged(before, branch_log(s, cycle, b))
}

/// One step of JMP absolute (`indirect` false) or JMP indirect on bus
/// byte `b`. The indirect form reads the target's high byte from the
/// same page as its low byte (the NMOS page-wrap).
pub open spec fn jmp_next(s: M6502, indirect: bool, cycle: u8, b: u8) -> M6502 {
    if cycle == 0 {
        at_step(M6502 { temp_addr: b as u16, pc: inc16(s.pc), ..s }, 1)
    } else if cycle == 1 {
        if indirect {
            at_step(M6502 { temp_addr: with_high(s.temp_addr, b), pc: inc16(s.pc), ..s }, 2)
        } else {
            fetching(M6502 { temp_addr: with_high(s.temp_addr, b), pc: with_high(s.temp_addr, b), ..s })
        }
    } else if indirect && cycle == 2 {
        at_step(M6502 { pc: b as u16, ..s }, 3)
    } else if indirect && cycle == 3 {
        fetching(M6502 { pc: with_high(s.pc, b), ..s })
    } else {
        fetching(s)
    }
}

/// Where JMP indirect reads the target's high byte: the byte after the
/// pointer, within the pointer's page.
pub open spec fn page_wrapped_next(a: u16) -> u16 {
    (a / 256 * 256 + (a % 256 + 1) % 256) as u16
}

/// What the bus sees of one step of a JMP: the address bytes at PC, then
/// for the indirect form the target's two bytes through the pointer.
pub open spec fn jmp_log(s: M6502, indirect: bool, cycle: u8, b: u8) -> Option<BusAccess<u16, u8>> {
    if cycle <= 1 {
        Some(BusAccess::Read(s.pc, b))
    } else if indirect && cycle == 2 {
        Some(BusAccess::Read(s.temp_addr, b))
    } else if indirect && cycle == 3 {
        Some(BusAccess::Read(page_wrapped_next(s.temp_addr), b))
    } else {
        None
    }
}

/// `r` is one step of a JMP from `s`, the bus going from record `before`
/// to `after`.
pub open spec fn jmp_step(
    s: M6502,
    indirect: bool,
    cycle: u8,
    r: M6502,
    before: Seq<BusAccess<u16, u8>>,
    after: Seq<BusAccess<u16, u8>>,
) -> bool {
    exists|b: u8|
        r == #[trigger] jmp_next(s, indirect, cycle, b) && after == logged(before, jmp_log(
            s,
            indirect,
            cycle,
            b,
        ))
}

/// One step of JSR on bus byte `b`: the target's low byte, an internal
/// step, PC's high and low bytes pushed (PC then points at the last byte
/// of the instruction), then the high byte and the jump.
pub open spec fn jsr_next(s: M6502, cycle: u8, b: u8) -> M6502 {
    if cycle == 0 {
        at_step(M6502 { temp_addr: b as u16, pc: inc16(s.pc), ..s }, 1)
    } else if cycle == 1 {
        at_step(s, 2)
    } else if cycle == 2 || cycle == 3 {
        at_step(M6502 { sp: dec8(s.sp), ..s }, (cycle + 1) as u8)
    } else if cycle == 4 {
        fetching(M6502 { temp_addr: with_high(s.temp_addr, b), pc: with_high(s.temp_addr, b), ..s })
    } else {
        fetching(s)
    }
}

/// One step of RTS (`interrupt` false) or RTI on bus byte `b`. RTI pulls
/// P first; both pull PC's low and high bytes; RTS then adds one.
pub open spec fn return_next(s: M6502, interrupt: bool, cycle: u8, b: u8) -> M6502 {
    if cycle == 0 {
        at_step(s, 1)
    } else if cycle == 1 {
        at_step(M6502 { sp: inc8(s.sp), ..s }, 2)
    } else if interrupt {
        if cycle == 2 {
            at_step(M6502 { p: pulled_status(b), sp: inc8(s.sp), ..s }, 3)
        } else if cycle == 3 {
            at_step(M6502 { pc: b as u16, sp: inc8(s.sp), ..s }, 4)
        } else if cycle == 4 {
            fetching(M6502 { pc: s.pc | (b as int * 256) as u16, ..s })
        } else {
            fetching(s)
        }
    } else {
        if cycle == 2 {
            at_step(M6502 { pc: b as u16, sp: inc8(s.sp), ..s }, 3)
        } else if cycle == 3 {
            at_step(M6502 { pc: s.pc | (b as int * 256) as u16, ..s }, 4)
        } else if cycle == 4 {
            fetching(M6502 { pc: inc16(s.pc), ..s })
        } else {
            fetching(s)
        }
    }
}

/// What the bus sees of one step of JSR: the target's low byte read, PC's
/// high then low byte pushed, the target's high byte read.
pub open spec fn jsr_log(s: M6502, cycle: u8, b: u8) -> Option<BusAccess<u16, u8>> {
    if cycle == 0 || cycle == 4 {
        Some(BusAccess::Read(s.pc, b))
    } else if cycle == 2 {
        Some(BusAccess::Write(stack_addr(s.sp), (s.pc / 256) as u8))
    } else if cycle == 3 {
        Some(BusAccess::Write(stack_addr(s.sp), (s.pc % 256) as u8))
    } else {
        None
    }
}

/// What the bus sees of one step of RTS or RTI: the pulls from the stack.
pub open spec fn return_log(s: M6502, interrupt: bool, cycle: u8, b: u8) -> Option<BusAccess<u16, u8>> {
    if cycle == 2 || cycle == 3 || (interrupt && cycle == 4) {
        Some(BusAccess::Read(stack_addr(s.sp), b))
    } else {
        None
    }
}

/// `r` is one step of JSR from `s`, the bus going from record `before` to
/// `after`.
pub open spec fn jsr_step(
    s: M6502,
    cycle: u8,
    r: M6502,
    before: Seq<BusAccess<u16, u8>>,
    after: Seq<BusAccess<u16, u8>>,
) -> bool {
    exists|b: u8| r == #[trigger] jsr_next(s, cycle, b) && after == logged(before, jsr_log(s, cycle, b))
}

/// `r` is one step of RTS or RTI from `s`, the bus going from record
/// `before` to `after`.
pub open spec fn return_step(
    s: M6502,
    interrupt: bool,
    cycle: u8,
    r: M6502,
    before: Seq<BusAccess<u16, u8>>,
    after: Seq<BusAccess<u16, u8>>,
) -> bool {
    exists|b: u8|
        r == #[trigger] return_next(s, interrupt, cycle, b) && after == logged(before, return_log(
            s,
            interrupt,
            cycle,
            b,
        ))
}

/// RTS resumes after the JSR that pushed its return address. JSR, its
/// address bytes at PC and PC + 1, pushes PC + 1 (the instruction's last
/// byte): the high byte at the slot SP points at, the low byte below it.
/// An RTS that starts with SP where JSR left it pulls those two slots, and
/// when it reads back what JSR wrote it lands at PC + 2, past the JSR.
pub proof fn law_rts_returns_past_jsr(s: M6502, lo: u8, hi: u8, t: M6502, b2: u8, b3: u8)
    requires
        t.sp == dec8(dec8(s.sp)),
    ensures
        ({
            let j1 = jsr_next(s, 0, lo);
            let j2 = jsr_next(j1, 1, 0);
            let j3 = jsr_next(j2, 2, 0);
            let j4 = jsr_next(j3, 3, 0);
            let j5 = jsr_next(j4, 4, hi);
            let ret = inc16(s.pc);
            &&& jsr_log(j2, 2, 0) == Some(BusAccess::Write(stack_addr(s.sp), (ret / 256) as u8))
            &&& jsr_log(j3, 3, 0) == Some(
                BusAccess::Write(stack_addr(dec8(s.sp)), (ret % 256) as u8),
            )
            &&& j5.pc == with_high(lo as u16, hi)
            &&& j5.sp == t.sp
        }),
        ({
            let ret = inc16(s.pc);
            let r1 = return_next(t, false, 0, 0);
            let r2 = return_next(r1, false, 1, 0);
            let r3 = return_next(r2, false, 2, b2);
            let r4 = return_next(r3, false, 3, b3);
            let r5 = return_next(r4, false, 4, 0);
            &&& return_log(r2, false, 2, b2) == Some(BusAccess::Read(stack_addr(dec8(s.sp)), b2))
            &&& return_log(r3, false, 3, b3) == Some(BusAccess::Read(stack_addr(s.sp), b3))
            &&& r5.sp == s.sp
            &&& (b2 == (ret % 256) as u8 && b3 == (ret / 256) as u8 ==> r5.pc == inc16(ret))
        }),
{
    let ret = inc16(s.pc);
    let lo_b = (ret % 256) as u8;
    let hi_b = (ret / 256) as u8;
    assert((lo_b as u16 | (hi_b as int * 256) as u16) == ret) by (bit_vector)
        requires
            lo_b == (ret % 256) as u8,
            hi_b == (ret / 256) as u8,
    ;
}

impl M6502 {
    /// A conditional branch: 2 steps when not taken, 3 when taken, 4 when
    /// taken to another page.
    pub fn branch<B: Bus<Address = u16, Data = u8> + ?Sized>(
        &mut self,
        cycle: u8,
        bus: &mut B,
        master: BusMaster,
        condition: bool,
    )
        ensures
            branch_step(
                *old(self),
                condition,
                cycle,
                *final(self),
                old(bus).accesses(),
                final(bus).accesses(),
            ),
    {
        let ghost s = *self;
        let ghost log0 = bus.accesses();
        match cycle {
            0 => {
                let offset = bus.read(master, self.pc);
                self.pc = self.pc.wrapping_add(1);
                if !condition {
                    self.state = ExecState::Fetch;
                } else {
                    let extend: u32 = if offset >= 128 {
                        0xFF00
                    } else {
                        0
                    };
                    self.temp_addr = ((self.pc as u32 + offset as u32 + extend) % 65536) as u16;
                    self.state = ExecState::Execute(self.opcode, 1);
                }
                assert(*self == branch_next(s, condition, cycle, offset));
                assert(bus.accesses() == logged(log0, branch_log(s, cycle, offset)));
            },
            1 => {
                if self.pc / 256 != self.temp_addr / 256 {
                    self.pc = self.temp_addr;
                    self.state = ExecState::Execute(self.opcode, 2);
                } else {
                    self.pc = self.temp_addr;
                    self.state = ExecState::Fetch;
                }
                assert(*self == branch_next(s, condition, cycle, 0));
                assert(bus.accesses() == logged(log0, branch_log(s, cycle, 0)));
            },
            _ => {
                self.state = ExecState::Fetch;
                assert(*self == branch_next(s, condition, cycle, 0));
                assert(bus.accesses() == logged(log0, branch_log(s, cycle, 0)));
            },
        }
    }

    /// The branch opcodes: each tests one flag, set or clear.
    pub fn op_branch<B: Bus<Address = u16, Data = u8> + ?Sized>(
        &mut self,
        opcode: u8,
        cycle: u8,
        bus: &mut B,
        master: BusMaster,
    )
        requires
            branch_condition(old(self).p, opcode) is Some,
        ensures
            branch_step(
                *old(self),
                branch_condition(old(self).p, opcode)->0,
                cycle,
                *final(self),
                old(bus).accesses(),
                final(bus).accesses(),
            ),
    {
        let condition = match opcode {
            0x10 => self.p & 0x80 == 0,
            0x30 => self.p & 0x80 != 0,
            0x50 => self.p & 0x40 == 0,
            0x70 => self.p & 0x40 != 0,
            0x90 => self.p & 0x01 == 0,
            0xB0 => self.p & 0x01 != 0,
            0xD0 => self.p & 0x02 == 0,
            _ => self.p & 0x02 != 0,
        };
        self.branch(cycle, bus, master, condition);
    }

    /// JMP absolute.
    pub fn op_jmp_abs<B: Bus<Address = u16, Data = u8> + ?Sized>(
        &mut self,
        cycle: u8,
        bus: &mut B,
        master: BusMaster,
    )
        ensures
            jmp_step(
                *old(self),
                false,
                cycle,
                *final(self),
                old(bus).accesses(),
                final(bus).accesses(),
            ),
    {
        let ghost s = *self;
        let ghost log0 = bus.accesses();
        match cycle {
            0 => {
                let b = bus.read(master, self.pc);
                self.temp_addr = b as u16;
                self.pc = self.pc.wrapping_add(1);
                self.state = ExecState::Execute(self.opcode, 1);
                assert(*self == jmp_next(s, false, cycle, b));
                assert(bus.accesses() == logged(log0, jmp_log(s, false, cycle, b)));
            },
            1 => {
                let b = bus.read(master, self.pc);
                self.temp_addr = (b as u16 * 256) | self.temp_addr;
                self.pc = self.temp_addr;
                self.state = ExecState::Fetch;
                assert(*self == jmp_next(s, false, cycle, b));
                assert(bus.accesses() == logged(log0, jmp_log(s, false, cycle, b)));
            },
            _ => {
                self.state = ExecState::Fetch;
                assert(*self == jmp_next(s, false, cycle, 0));
                assert(bus.accesses() == logged(log0, jmp_log(s, false, cycle, 0)));
            },
        }
    }

    /// JMP indirect, with the NMOS page-wrap on the pointer's high byte.
    pub fn op_jmp_ind<B: Bus<Address = u16, Data = u8> + ?Sized>(
        &mut self,
        cycle: u8,
        bus: &mut B,
        master: BusMaster,
    )
        ensures
            jmp_step(
                *old(self),
                true,
                cycle,
                *final(self),
                old(bus).accesses(),
                final(bus).accesses(),
            ),
    {
        let ghost s = *self;
        let ghost log0 = bus.accesses();
        match cycle {
            0 => {
                let b = bus.read(master, self.pc);
                self.temp_addr = b as u16;
                self.pc = self.pc.wrapping_add(1);
                self.state = ExecState::Execute(self.opcode, 1);
                assert(*self == jmp_next(s, true, cycle, b));
                assert(bus.accesses() == logged(log0, jmp_log(s, true, cycle, b)));
            },
            1 => {
                let b = bus.read(master, self.pc);
                self.temp_addr = (b as u16 * 256) | self.temp_addr;
                self.pc = self.pc.wrapping_add(1);
                self.state = ExecState::Execute(self.opcode, 2);
                assert(*self == jmp_next(s, true, cycle, b));
                assert(bus.accesses() == logged(log0, jmp_log(s, true, cycle, b)));
            },
            2 => {
                let b = bus.read(master, self.temp_addr);
                self.pc = b as u16;
                self.state = ExecState::Execute(self.opcode, 3);
                assert(*self == jmp_next(s, true, cycle, b));
                assert(bus.accesses() == logged(log0, jmp_log(s, true, cycle, b)));
            },
            3 => {
                let hi_addr = self.temp_addr / 256 * 256 + (self.temp_addr % 256 + 1) % 256;
                let b = bus.read(master, hi_addr);
                self.pc = (b as u16 * 256) | self.pc;
                self.state = ExecState::Fetch;
                assert(*self == jmp_next(s, true, cycle, b));
                assert(bus.accesses() == logged(log0, jmp_log(s, true, cycle, b)));
            },
            _ => {
                self.state = ExecState::Fetch;
                assert(*self == jmp_next(s, true, cycle, 0));
                assert(bus.accesses() == logged(log0, jmp_log(s, true, cycle, 0)));
            },
        }
    }

    /// JSR: push the address of the instruction's last byte and jump.
    pub fn op_jsr<B: Bus<Address = u16, Data = u8> + ?Sized>(
        &mut self,
        cycle: u8,
        bus: &mut B,
        master: BusMaster,
    )
        ensures
            jsr_step(*old(self), cycle, *final(self), old(bus).accesses(), final(bus).accesses()),
    {
        let ghost s = *self;
        let ghost log0 = bus.accesses();
        match cycle {
            0 => {
                let b = bus.read(master, self.pc);
                self.temp_addr = b as u16;
                self.pc = self.pc.wrapping_add(1);
                self.state = ExecState::Execute(self.opcode, 1);
                assert(*self == jsr_next(s, cycle, b));
                assert(bus.accesses() == logged(log0, jsr_log(s, cycle, b)));
            },
            1 => {
                self.state = ExecState::Execute(self.opcode, 2);
                assert(*self == jsr_next(s, cycle, 0));
                assert(bus.accesses() == logged(log0, jsr_log(s, cycle, 0)));
            },
            2 => {
                bus.write(master, 0x0100 + self.sp as u16, (self.pc / 256) as u8);
                self.sp = self.sp.wrapping_sub(1);
                self.state = ExecState::Execute(self.opcode, 3);
                assert(*self == jsr_next(s, cycle, 0));
                assert(bus.accesses() == logged(log0, jsr_log(s, cycle, 0)));
            },
            3 => {
                bus.write(master, 0x0100 + self.sp as u16, (self.pc % 256) as u8);
                self.sp = self.sp.wrapping_sub(1);
                self.state = ExecState::Execute(self.opcode, 4);
                assert(*self == jsr_next(s, cycle, 0));
                assert(bus.accesses() == logged(log0, jsr_log(s, cycle, 0)));
            },
            4 => {
                let b = bus.read(master, self.pc);
                self.temp_addr = (b as u16 * 256) | self.temp_addr;
                self.pc = self.temp_addr;
                self.state = ExecState::Fetch;
                assert(*self == jsr_next(s, cycle, b));
                assert(bus.accesses() == logged(log0, jsr_log(s, cycle, b)));
            },
            _ => {
                self.state = ExecState::Fetch;
                assert(*self == jsr_next(s, cycle, 0));
                assert(bus.accesses() == logged(log0, jsr_log(s, cycle, 0)));
            },
        }
    }

    /// RTS: pull PC and step past the JSR's last byte.
    pub fn op_rts<B: Bus<Address = u16, Data = u8> + ?Sized>(
        &mut self,
        cycle: u8,
        bus: &mut B,
        master: BusMaster,
    )
        ensures
            return_step(
                *old(self),
                false,
                cycle,
                *final(self),
                old(bus).accesses(),
                final(bus).accesses(),
            ),
    {
        let ghost s = *self;
        let ghost log0 = bus.accesses();
        match cycle {
            0 => {
                self.state = ExecState::Execute(self.opcode, 1);
                assert(*self == return_next(s, false, cycle, 0));
                assert(bus.accesses() == logged(log0, return_log(s, false, cycle, 0)));
            },
            1 => {
                self.sp = self.sp.wrapping_add(1);
                self.state = ExecState::Execute(self.opcode, 2);
                assert(*self == return_next(s, false, cycle, 0));
                assert(bus.accesses() == logged(log0, return_log(s, false, cycle, 0)));
            },
            2 => {
                let b = bus.read(master, 0x0100 + self.sp as u16);
                self.pc = b as u16;
                self.sp = self.sp.wrapping_add(1);
                self.state = ExecState::Execute(self.opcode, 3);
                assert(*self == return_next(s, false, cycle, b));
                assert(bus.accesses() == logged(log0, return_log(s, false, cycle, b)));
            },
            3 => {
                let b = bus.read(master, 0x0100 + self.sp as u16);
                self.pc = self.pc | (b as u16 * 256);
                self.state = ExecState::Execute(self.opcode, 4);
                assert(*self == return_next(s, false, cycle, b));
                assert(bus.accesses() == logged(log0, return_log(s, false, cycle, b)));
            },
            4 => {
                self.pc = self.pc.wrapping_add(1);
                self.state = ExecState::Fetch;
                assert(*self == return_next(s, false, cycle, 0));
                assert(bus.accesses() == logged(log0, return_log(s, false, cycle, 0)));
            },
            _ => {
                self.state = ExecState::Fetch;
                assert(*self == return_next(s, false, cycle, 0));
                assert(bus.accesses() == logged(log0, return_log(s, false, cycle, 0)));
            },
        }
    }

    /// RTI: pull P (B clear, U set), then PC.
    pub fn op_rti<B: Bus<Address = u16, Data = u8> + ?Sized>(
        &mut self,
        cycle: u8,
        bus: &mut B,
        master: BusMaster,
    )
        ensures
            return_step(
                *old(self),
                true,
                cycle,
                *final(self),
                old(bus).accesses(),
                final(bus).accesses(),
            ),
    {
        let ghost s = *self;
        let ghost log0 = bus.accesses();
        match cycle {
            0 => {
                self.state = ExecState::Execute(self.opcode, 1);
                assert(*self == return_next(s, true, cycle, 0));
                assert(bus.accesses() == logged(log0, return_log(s, true, cycle, 0)));
            },
            1 => {
                self.sp = self.sp.wrapping_add(1);
                self.state = ExecState::Execute(self.opcode, 2);
                assert(*self == return_next(s, true, cycle, 0));
                assert(bus.accesses() == logged(log0, return_log(s, true, cycle, 0)));
            },
            2 => {
                let b = bus.read(master, 0x0100 + self.sp as u16);
                self.p = (b | 0x20) & !0x10u8;
                self.sp = self.sp.wrapping_add(1);
                self.state = ExecState::Execute(self.opcode, 3);
                assert(*self == return_next(s, true, cycle, b));
                assert(bus.accesses() == logged(log0, return_log(s, true, cycle, b)));
            },
            3 => {
                let b = bus.read(master, 0x0100 + self.sp as u16);
                self.pc = b as u16;
                self.sp = self.sp.wrapping_add(1);
                self.state = ExecState::Execute(self.opcode, 4);
                assert(*self == return_next(s, true, cycle, b));
                assert(bus.accesses() == logged(log0, return_log(s, true, cycle, b)));
            },
            4 => {
                let b = bus.read(master, 0x0100 + self.sp as u16);
                self.pc = self.pc | (b as u16 * 256);
                self.state = ExecState::Fetch;
                assert(*self == return_next(s, true, cycle, b));
                assert(bus.accesses() == logged(log0, return_log(s, true, cycle, b)));
            },
            _ => {
                self.state = ExecState::Fetch;
                assert(*self == return_next(s, true, cycle, 0));
                assert(bus.accesses() == logged(log0, return_log(s, true, cycle, 0)));
            },
        }
    }
}


/// Each conditional branch tests one bit of P: BPL/BMI bit 7 (N), BVC/BVS
/// bit 6 (V), BCC/BCS bit 0 (C), BNE/BEQ bit 1 (Z); the first of each pair
/// (bit 5 of the opcode clear) branches when its bit is clear, the second
/// when it is set. So the two opcodes of a pair, which differ only in bit 5,
/// branch on complementary conditions, and only these eight opcodes branch.
pub proof fn law_each_branch_tests_its_flag(p: u8, opcode: u8)
    ensures
        branch_condition(p, 0x10) == Some(p & 0x80 == 0),
        branch_condition(p, 0x30) == Some(p & 0x80 != 0),
        branch_condition(p, 0x50) == Some(p & 0x40 == 0),
        branch_condition(p, 0x70) == Some(p & 0x40 != 0),
        branch_condition(p, 0x90) == Some(p & 0x01 == 0),
        branch_condition(p, 0xB0) == Some(p & 0x01 != 0),
        branch_condition(p, 0xD0) == Some(p & 0x02 == 0),
        branch_condition(p, 0xF0) == Some(p & 0x02 != 0),
        branch_condition(p, opcode) is Some <==> opcode % 32 == 0x10,
        branch_condition(p, opcode) is Some ==> branch_condition(p, opcode ^ 0x20) == Some(
            !branch_condition(p, opcode)->0,
        ),
{
    assert(opcode % 32 == 0x10 <==> (opcode == 0x10 || opcode == 0x30 || opcode == 0x50
        || opcode == 0x70 || opcode == 0x90 || opcode == 0xB0 || opcode == 0xD0 || opcode
        == 0xF0)) by (bit_vector);
    assert(0x10u8 ^ 0x20 == 0x30 && 0x30u8 ^ 0x20 == 0x10 && 0x50u8 ^ 0x20 == 0x70 && 0x70u8
        ^ 0x20 == 0x50 && 0x90u8 ^ 0x20 == 0xB0 && 0xB0u8 ^ 0x20 == 0x90 && 0xD0u8 ^ 0x20 == 0xF0
        && 0xF0u8 ^ 0x20 == 0xD0) by (bit_vector);
}

} // verus!
