//! The 6502's stack instructions and BRK.

use vstd::prelude::*;
use crate::bus::{Bus, BusAccess, BusMaster, logged};
use super::{ExecState, M6502, StatusFlag, at_step, fetching, inc16, nz, stack_addr, with_status};
use super::branch::{dec8, inc8, pulled_status, with_high};

verus! {

/// One step of PHA or PHP: a dummy read, then the push.
pub open spec fn push_next(s: M6502, cycle: u8) -> M6502 {
    if cycle == 0 {
        at_step(s, 1)
    } else if cycle == 1 {
        fetching(M6502 { sp: dec8(s.sp), ..s })
    } else {
        fetching(s)
    }
}

/// One step of PLA (`status` false) or PLP on bus byte `b`: a dummy read,
/// SP up, then the pull: A with N and Z, or P with B clear and U set.
pub open spec fn pull_next(s: M6502, status: bool, cycle: u8, b: u8) -> M6502 {
    if cycle == 0 {
        at_step(s, 1)
    } else if cycle == 1 {
        at_step(M6502 { sp: inc8(s.sp), ..s }, 2)
    } else if cycle == 2 {
        if status {
            fetching(M6502 { p: pulled_status(b), ..s })
        } else {
            fetching(M6502 { a: b, p: nz(s.p, b), ..s })
        }
    } else {
        fetching(s)
    }
}

/// What the bus sees of one step of PHA (`status` false) or PHP: a dummy
/// read at PC, then A, or P with B and U set, pushed.
pub open spec fn push_log(s: M6502, status: bool, cycle: u8, b: u8) -> Option<BusAccess<u16, u8>> {
    if cycle == 0 {
        Some(BusAccess::Read(s.pc, b))
    } else if cycle == 1 {
        Some(BusAccess::Write(stack_addr(s.sp), if status { s.p | 0x30 } else { s.a }))
    } else {
        None
    }
}

/// `r` is one step of PHA or PHP from `s`, the bus going from record
/// `before` to `after`.
pub open spec fn push_step(
    s: M6502,
    status: bool,
    cycle: u8,
    r: M6502,
    before: Seq<BusAccess<u16, u8>>,
    after: Seq<BusAccess<u16, u8>>,
) -> bool {
    exists|b: u8| r == push_next(s, cycle) && after == logged(before, #[trigger] push_log(s, status, cycle, b))
}

/// What the bus sees of one step of PLA or PLP: a dummy read at PC, a
/// dummy read of the stack, then the pull.
pub open spec fn pull_log(s: M6502, cycle: u8, b: u8) -> Option<BusAccess<u16, u8>> {
    if cycle == 0 {
        Some(BusAccess::Read(s.pc, b))
    } else if cycle <= 2 {
        Some(BusAccess::Read(stack_addr(s.sp), b))
    } else {
        None
    }
}

/// `r` is one step of PLA or PLP from `s`, the bus going from record
/// `before` to `after`.
pub open spec fn pull_step(
    s: M6502,
    status: bool,
    cycle: u8,
    r: M6502,
    before: Seq<BusAccess<u16, u8>>,
    after: Seq<BusAccess<u16, u8>>,
) -> bool {
    exists|b: u8|
        r == #[trigger] pull_next(s, status, cycle, b) && after == logged(before, pull_log(s, cycle, b))
}

/// One step of BRK on bus byte `b`: the padding byte skipped, PC's high
/// and low bytes and P (B and U set) pushed, the vector at 0xFFFE read,
/// and I set.
pub open spec fn brk_next(s: M6502, cycle: u8, b: u8) -> M6502 {
    if cycle == 0 {
        at_step(M6502 { pc: inc16(s.pc), ..s }, 1)
    } else if 1 <= cycle <= 3 {
        at_step(M6502 { sp: dec8(s.sp), ..s }, (cycle + 1) as u8)
    } else if cycle == 4 {
        at_step(M6502 { pc: b as u16, ..s }, 5)
    } else if cycle == 5 {
        fetching(M6502 { pc: with_high(s.pc, b), p: with_status(s.p, StatusFlag::I, true), ..s })
    } else {
        fetching(s)
    }
}

/// What the bus sees of one step of BRK: the padding byte read, PC's high
/// and low bytes and P (B and U set) pushed, the vector read.
pub open spec fn brk_log(s: M6502, cycle: u8, b: u8) -> Option<BusAccess<u16, u8>> {
    if cycle == 0 {
        Some(BusAccess::Read(s.pc, b))
    } else if cycle == 1 {
        Some(BusAccess::Write(stack_addr(s.sp), (s.pc / 256) as u8))
    } else if cycle == 2 {
        Some(BusAccess::Write(stack_addr(s.sp), (s.pc % 256) as u8))
    } else if cycle == 3 {
        Some(BusAccess::Write(stack_addr(s.sp), s.p | 0x30))
    } else if cycle == 4 {
        Some(BusAccess::Read(0xFFFE, b))
    } else if cycle == 5 {
        Some(BusAccess::Read(0xFFFF, b))
    } else {
        None
    }
}

/// `r` is one step of BRK from `s`, the bus going from record `before` to
/// `after`.
pub open spec fn brk_step(
    s: M6502,
    cycle: u8,
    r: M6502,
    before: Seq<BusAccess<u16, u8>>,
    after: Seq<BusAccess<u16, u8>>,
) -> bool {
    exists|b: u8| r == #[trigger] brk_next(s, cycle, b) && after == logged(before, brk_log(s, cycle, b))
}

/// PLA gives back what PHA pushed: PHA writes A to the slot SP points at
/// and moves SP down; a PLA that starts with SP there moves it back up and
/// reads that same slot, and when the byte read is the one PHA wrote, A is
/// what it was.
pub proof fn law_pull_reads_where_push_wrote(s: M6502, t: M6502, d0: u8, d1: u8, d2: u8, b: u8)
    requires
        t.sp == push_next(at_step(s, 1), 1).sp,
    ensures
        push_log(at_step(s, 1), false, 1, d0) == Some(BusAccess::Write(stack_addr(s.sp), s.a)),
        ({
            let t1 = pull_next(t, false, 0, d1);
            let t2 = pull_next(t1, false, 1, d2);
            let t3 = pull_next(t2, false, 2, b);
            &&& pull_log(t2, 2, b) == Some(BusAccess::Read(stack_addr(s.sp), b))
            &&& t3.sp == s.sp
            &&& (b == s.a ==> t3.a == s.a)
        }),
{
}

impl M6502 {
    /// PHA: push A.
    pub fn op_pha<B: Bus<Address = u16, Data = u8> + ?Sized>(
        &mut self,
        cycle: u8,
        bus: &mut B,
        master: BusMaster,
    )
        ensures
            push_step(
                *old(self),
                false,
                cycle,
                *final(self),
                old(bus).accesses(),
                final(bus).accesses(),
            ),
    {
        let ghost s = *self;
        let ghost log0 = bus.accesses();
        match cycle {
            0 => {
                let d = bus.read(master, self.pc);
                self.state = ExecState::Execute(self.opcode, 1);
                assert(bus.accesses() == logged(log0, push_log(s, false, cycle, d)));
            },
            1 => {
                bus.write(master, 0x0100 + self.sp as u16, self.a);
                self.sp = self.sp.wrapping_sub(1);
                self.state = ExecState::Fetch;
                assert(bus.accesses() == logged(log0, push_log(s, false, cycle, 0)));
            },
            _ => {
                self.state = ExecState::Fetch;
                assert(bus.accesses() == logged(log0, push_log(s, false, cycle, 0)));
            },
        }
    }

    /// PLA: pull A, setting N and Z.
    pub fn op_pla<B: Bus<Address = u16, Data = u8> + ?Sized>(
        &mut self,
        cycle: u8,
        bus: &mut B,
        master: BusMaster,
    )
        ensures
            pull_step(
                *old(self),
                false,
                cycle,
                *final(self),
                old(bus).accesses(),
                final(bus).accesses(),
            ),
    {
        let ghost s = *self;
        let ghost log0 = bus.accesses();
        match cycle {
            0 => {
                let d = bus.read(master, self.pc);
                self.state = ExecState::Execute(self.opcode, 1);
                assert(*self == pull_next(s, false, cycle, d));
                assert(bus.accesses() == logged(log0, pull_log(s, cycle, d)));
            },
            1 => {
                let d = bus.read(master, 0x0100 + self.sp as u16);
                self.sp = self.sp.wrapping_add(1);
                self.state = ExecState::Execute(self.opcode, 2);
                assert(*self == pull_next(s, false, cycle, d));
                assert(bus.accesses() == logged(log0, pull_log(s, cycle, d)));
            },
            2 => {
                let b = bus.read(master, 0x0100 + self.sp as u16);
                self.a = b;
                self.set_nz(b);
                self.state = ExecState::Fetch;
                assert(*self == pull_next(s, false, cycle, b));
                assert(bus.accesses() == logged(log0, pull_log(s, cycle, b)));
            },
            _ => {
                self.state = ExecState::Fetch;
                assert(*self == pull_next(s, false, cycle, 0));
                assert(bus.accesses() == logged(log0, pull_log(s, cycle, 0)));
            },
        }
    }

    /// PHP: push P with B and U set.
    pub fn op_php<B: Bus<Address = u16, Data = u8> + ?Sized>(
        &mut self,
        cycle: u8,
        bus: &mut B,
        master: BusMaster,
    )
        ensures
            push_step(
                *old(self),
                true,
                cycle,
                *final(self),
                old(bus).accesses(),
                final(bus).accesses(),
            ),
    {
        let ghost s = *self;
        let ghost log0 = bus.accesses();
        match cycle {
            0 => {
                let d = bus.read(master, self.pc);
                self.state = ExecState::Execute(self.opcode, 1);
                assert(bus.accesses() == logged(log0, push_log(s, true, cycle, d)));
            },
            1 => {
                let p_push = self.p | 0x30;
                bus.write(master, 0x0100 + self.sp as u16, p_push);
                self.sp = self.sp.wrapping_sub(1);
                self.state = ExecState::Fetch;
                assert(bus.accesses() == logged(log0, push_log(s, true, cycle, 0)));
            },
            _ => {
                self.state = ExecState::Fetch;
                assert(bus.accesses() == logged(log0, push_log(s, true, cycle, 0)));
            },
        }
    }

    /// PLP: pull P, B clear and U set.
    pub fn op_plp<B: Bus<Address = u16, Data = u8> + ?Sized>(
        &mut self,
        cycle: u8,
        bus: &mut B,
        master: BusMaster,
    )
        ensures
            pull_step(
                *old(self),
                true,
                cycle,
                *final(self),
                old(bus).accesses(),
                final(bus).accesses(),
            ),
    {
        let ghost s = *self;
        let ghost log0 = bus.accesses();
        match cycle {
            0 => {
                let d = bus.read(master, self.pc);
                self.state = ExecState::Execute(self.opcode, 1);
                assert(*self == pull_next(s, true, cycle, d));
                assert(bus.accesses() == logged(log0, pull_log(s, cycle, d)));
            },
            1 => {
                let d = bus.read(master, 0x0100 + self.sp as u16);
                self.sp = self.sp.wrapping_add(1);
                self.state = ExecState::Execute(self.opcode, 2);
                assert(*self == pull_next(s, true, cycle, d));
                assert(bus.accesses() == logged(log0, pull_log(s, cycle, d)));
            },
            2 => {
                let b = bus.read(master, 0x0100 + self.sp as u16);
                self.p = (b | 0x20) & !0x10u8;
                self.state = ExecState::Fetch;
                assert(*self == pull_next(s, true, cycle, b));
                assert(bus.accesses() == logged(log0, pull_log(s, cycle, b)));
            },
            _ => {
                self.state = ExecState::Fetch;
                assert(*self == pull_next(s, true, cycle, 0));
                assert(bus.accesses() == logged(log0, pull_log(s, cycle, 0)));
            },
        }
    }

    /// BRK: the software interrupt, through the IRQ vector.
    pub fn op_brk<B: Bus<Address = u16, Data = u8> + ?Sized>(
        &mut self,
        cycle: u8,
        bus: &mut B,
        master: BusMaster,
    )
        ensures
            brk_step(*old(self), cycle, *final(self), old(bus).accesses(), final(bus).accesses()),
    {
        let ghost s = *self;
        let ghost log0 = bus.accesses();
        match cycle {
            0 => {
                let d = bus.read(master, self.pc);
                self.pc = self.pc.wrapping_add(1);
                self.state = ExecState::Execute(self.opcode, 1);
                assert(*self == brk_next(s, cycle, d));
                assert(bus.accesses() == logged(log0, brk_log(s, cycle, d)));
            },
            1 => {
                bus.write(master, 0x0100 + self.sp as u16, (self.pc / 256) as u8);
                self.sp = self.sp.wrapping_sub(1);
                self.state = ExecState::Execute(self.opcode, 2);
                assert(*self == brk_next(s, cycle, 0));
                assert(bus.accesses() == logged(log0, brk_log(s, cycle, 0)));
            },
            2 => {
                bus.write(master, 0x0100 + self.sp as u16, (self.pc % 256) as u8);
                self.sp = self.sp.wrapping_sub(1);
                self.state = ExecState::Execute(self.opcode, 3);
                assert(*self == brk_next(s, cycle, 0));
                assert(bus.accesses() == logged(log0, brk_log(s, cycle, 0)));
            },
            3 => {
                let p_push = self.p | 0x30;
                bus.write(master, 0x0100 + self.sp as u16, p_push);
                self.sp = self.sp.wrapping_sub(1);
                self.state = ExecState::Execute(self.opcode, 4);
                assert(*self == brk_next(s, cycle, 0));
                assert(bus.accesses() == logged(log0, brk_log(s, cycle, 0)));
            },
            4 => {
                let b = bus.read(master, 0xFFFE);
                self.pc = b as u16;
                self.state = ExecState::Execute(self.opcode, 5);
                assert(*self == brk_next(s, cycle, b));
                assert(bus.accesses() == logged(log0, brk_log(s, cycle, b)));
            },
            5 => {
                let b = bus.read(master, 0xFFFF);
                self.pc = (b as u16 * 256) | self.pc;
                self.set_flag(StatusFlag::I, true);
                self.state = ExecState::Fetch;
                assert(*self == brk_next(s, cycle, b));
                assert(bus.accesses() == logged(log0, brk_log(s, cycle, b)));
            },
            _ => {
                self.state = ExecState::Fetch;
                assert(*self == brk_next(s, cycle, 0));
                assert(bus.accesses() == logged(log0, brk_log(s, cycle, 0)));
            },
        }
    }
}

} // verus!
