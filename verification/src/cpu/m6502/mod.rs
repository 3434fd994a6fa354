//! MOS 6502 CPU core.
//!
//! Cycle-stepped: each call to `execute_cycle` runs one clock. An opcode
//! fetch takes one cycle and the instruction's remaining cycles follow as
//! `Execute(opcode, n)` steps; hardware interrupts run their own sequence.

pub mod alu;
pub mod modes;
pub mod branch;
pub mod stack;

use vstd::prelude::*;
use crate::bus::{Bus, BusAccess, BusMaster, InterruptState, logged};
use alu::RmwOp;
use modes::{
    StoreReg, read_mode, read_mode_of, read_step, rmw_mode, rmw_mode_of, rmw_step, store_mode,
    store_mode_of, store_step,
};
use branch::{
    branch_condition, branch_step, dec8, jmp_step, jsr_step, return_step, with_high,
};
use stack::{brk_step, pull_step, push_step};

verus! {

/// The status register's flags.
#[derive(Copy, Clone, Debug, PartialEq, Eq, Structural)]
pub enum StatusFlag {
    /// Carry, bit 0.
    C,
    /// Zero, bit 1.
    Z,
    /// Interrupt disable, bit 2.
    I,
    /// Decimal mode, bit 3.
    D,
    /// Break, bit 4 (only in pushed copies).
    B,
    /// Unused, bit 5 (reads as one).
    U,
    /// Overflow, bit 6.
    V,
    /// Negative, bit 7.
    N,
}

/// A flag's bit in P.
pub open spec fn status_mask(flag: StatusFlag) -> u8 {
    match flag {
        StatusFlag::C => 0x01,
        StatusFlag::Z => 0x02,
        StatusFlag::I => 0x04,
        StatusFlag::D => 0x08,
        StatusFlag::B => 0x10,
        StatusFlag::U => 0x20,
        StatusFlag::V => 0x40,
        StatusFlag::N => 0x80,
    }
}

/// Whether `flag` is set in `p`.
pub open spec fn has_status(p: u8, flag: StatusFlag) -> bool {
    p & status_mask(flag) != 0
}

/// `p` with `flag` forced to `set`.
pub open spec fn with_status(p: u8, flag: StatusFlag, set: bool) -> u8 {
    if set {
        p | status_mask(flag)
    } else {
        p & !status_mask(flag)
    }
}

/// Where the core is in its cycle sequence.
#[derive(Clone, Copy, Debug, PartialEq, Eq, Structural)]
pub enum ExecState {
    /// Fetch the next opcode (and sample the interrupt lines).
    Fetch,
    /// Step `n` of the instruction `opcode`: `Execute(opcode, n)`.
    Execute(u8, u8),
    /// Step of the hardware interrupt sequence.
    Interrupt(u8),
}

/// The 6502.
pub struct M6502 {
    pub a: u8,
    pub x: u8,
    pub y: u8,
    pub pc: u16,
    pub sp: u8,
    pub p: u8,
    pub state: ExecState,
    pub opcode: u8,
    /// The effective address an instruction is working on.
    pub temp_addr: u16,
    /// A byte held between cycles: a read-modify-write operand or a
    /// zero-page pointer.
    pub temp_data: u8,
    /// The interrupt being served: 0 none, 1 NMI, 2 IRQ.
    pub interrupt_type: u8,
    /// The NMI line as last sampled, for edge detection.
    pub nmi_previous: bool,
}

/// A snapshot of the 6502's registers.
#[derive(Debug, Clone, Copy, PartialEq, Eq)]
pub struct M6502State {
    pub a: u8,
    pub x: u8,
    pub y: u8,
    pub pc: u16,
    pub sp: u8,
    pub p: u8,
}

/// One on, wrapping within the 64K address space.
pub open spec fn inc16(v: u16) -> u16 {
    ((v + 1) % 65536) as u16
}

/// `s` moved on to step `n` of its current opcode.
pub open spec fn at_step(s: M6502, n: u8) -> M6502 {
    M6502 { state: ExecState::Execute(s.opcode, n), ..s }
}

/// `s` back at an instruction boundary.
pub open spec fn fetching(s: M6502) -> M6502 {
    M6502 { state: ExecState::Fetch, ..s }
}

/// The address of stack slot `sp` in page one.
pub open spec fn stack_addr(sp: u8) -> u16 {
    (0x0100 + sp) as u16
}

/// What the 2-cycle implied instructions do, `None` for the others.
pub open spec fn implied(s: M6502, opcode: u8) -> Option<M6502> {
    match opcode {
        0x0A => Some(M6502 { a: s.shifted(RmwOp::Asl, s.a).0, ..s.shifted(RmwOp::Asl, s.a).1 }),
        0x4A => Some(M6502 { a: s.shifted(RmwOp::Lsr, s.a).0, ..s.shifted(RmwOp::Lsr, s.a).1 }),
        0x2A => Some(M6502 { a: s.shifted(RmwOp::Rol, s.a).0, ..s.shifted(RmwOp::Rol, s.a).1 }),
        0x6A => Some(M6502 { a: s.shifted(RmwOp::Ror, s.a).0, ..s.shifted(RmwOp::Ror, s.a).1 }),
        0x18 => Some(M6502 { p: with_status(s.p, StatusFlag::C, false), ..s }),
        0x38 => Some(M6502 { p: with_status(s.p, StatusFlag::C, true), ..s }),
        0x58 => Some(M6502 { p: with_status(s.p, StatusFlag::I, false), ..s }),
        0x78 => Some(M6502 { p: with_status(s.p, StatusFlag::I, true), ..s }),
        0xB8 => Some(M6502 { p: with_status(s.p, StatusFlag::V, false), ..s }),
        0xD8 => Some(M6502 { p: with_status(s.p, StatusFlag::D, false), ..s }),
        0xF8 => Some(M6502 { p: with_status(s.p, StatusFlag::D, true), ..s }),
        0xAA => Some(M6502 { x: s.a, p: nz(s.p, s.a), ..s }),
        0xA8 => Some(M6502 { y: s.a, p: nz(s.p, s.a), ..s }),
        0x8A => Some(M6502 { a: s.x, p: nz(s.p, s.x), ..s }),
        0x98 => Some(M6502 { a: s.y, p: nz(s.p, s.y), ..s }),
        0xBA => Some(M6502 { x: s.sp, p: nz(s.p, s.sp), ..s }),
        0x9A => Some(M6502 { sp: s.x, ..s }),
        0xE8 => Some(M6502 { x: ((s.x + 1) % 256) as u8, p: nz(s.p, ((s.x + 1) % 256) as u8), ..s }),
        0xC8 => Some(M6502 { y: ((s.y + 1) % 256) as u8, p: nz(s.p, ((s.y + 1) % 256) as u8), ..s }),
        0xCA => Some(M6502 { x: ((s.x + 255) % 256) as u8, p: nz(s.p, ((s.x + 255) % 256) as u8), ..s }),
        0x88 => Some(M6502 { y: ((s.y + 255) % 256) as u8, p: nz(s.p, ((s.y + 255) % 256) as u8), ..s }),
        0xEA => Some(s),
        _ => None,
    }
}

/// P with N and Z set from `result`.
pub open spec fn nz(p: u8, result: u8) -> u8 {
    with_status(with_status(p, StatusFlag::N, result >= 0x80), StatusFlag::Z, result == 0)
}

/// What the interrupt check at an instruction boundary gives: whether an
/// interrupt was taken, and the core after it. NMI wins on a rising edge of
/// its line; IRQ needs its line high and I clear.
pub open spec fn interrupt_check(s: M6502, ints: InterruptState) -> (bool, M6502) {
    let s1 = M6502 { nmi_previous: ints.nmi, ..s };
    if ints.nmi && !s.nmi_previous {
        (true, M6502 { interrupt_type: 1, state: ExecState::Interrupt(0), ..s1 })
    } else if ints.irq && !has_status(s.p, StatusFlag::I) {
        (true, M6502 { interrupt_type: 2, state: ExecState::Interrupt(0), ..s1 })
    } else {
        (false, s1)
    }
}

/// One step of the interrupt sequence on bus byte `b`.
pub open spec fn interrupt_next(s: M6502, cycle: u8, b: u8) -> M6502 {
    if cycle == 0 {
        M6502 { state: ExecState::Interrupt(1), ..s }
    } else if 1 <= cycle <= 3 {
        M6502 { sp: dec8(s.sp), state: ExecState::Interrupt((cycle + 1) as u8), ..s }
    } else if cycle == 4 {
        M6502 {
            pc: b as u16,
            p: with_status(s.p, StatusFlag::I, true),
            state: ExecState::Interrupt(5),
            ..s
        }
    } else if cycle == 5 {
        M6502 { pc: with_high(s.pc, b), interrupt_type: 0, state: ExecState::Fetch, ..s }
    } else {
        fetching(s)
    }
}

/// The vector the interrupt being served goes through: 0xFFFA for NMI,
/// 0xFFFE for IRQ.
pub open spec fn vector_of(interrupt_type: u8) -> u16 {
    if interrupt_type == 1 { 0xFFFA } else { 0xFFFE }
}

/// What the bus sees of one step of the interrupt sequence: PC's high and
/// low bytes and P (B clear, U set) pushed, the vector's two bytes read.
pub open spec fn interrupt_log(s: M6502, cycle: u8, b: u8) -> Option<BusAccess<u16, u8>> {
    if cycle == 1 {
        Some(BusAccess::Write(stack_addr(s.sp), (s.pc / 256) as u8))
    } else if cycle == 2 {
        Some(BusAccess::Write(stack_addr(s.sp), (s.pc % 256) as u8))
    } else if cycle == 3 {
        Some(BusAccess::Write(stack_addr(s.sp), (s.p | 0x20) & !0x10u8))
    } else if cycle == 4 {
        Some(BusAccess::Read(vector_of(s.interrupt_type), b))
    } else if cycle == 5 {
        Some(BusAccess::Read((vector_of(s.interrupt_type) + 1) as u16, b))
    } else {
        None
    }
}

/// `r` is one step of the interrupt sequence from `s`, the bus going from
/// record `before` to `after`.
pub open spec fn interrupt_step(
    s: M6502,
    cycle: u8,
    r: M6502,
    before: Seq<BusAccess<u16, u8>>,
    after: Seq<BusAccess<u16, u8>>,
) -> bool {
    exists|b: u8|
        r == #[trigger] interrupt_next(s, cycle, b) && after == logged(before, interrupt_log(s, cycle, b))
}

/// `r` is step `cycle` of `opcode` from `s`, the bus going from record
/// `before` to `after`: each opcode by the family it belongs to.
pub open spec fn instruction_step(
    s: M6502,
    opcode: u8,
    cycle: u8,
    r: M6502,
    before: Seq<BusAccess<u16, u8>>,
    after: Seq<BusAccess<u16, u8>>,
) -> bool {
    match read_mode(opcode) {
        Some((m, o)) => read_step(s, m, o, cycle, r, before, after),
        None => match store_mode(opcode) {
            Some((m, g)) => store_step(s, m, cycle, stored(s, g), r, before, after),
            None => match rmw_mode(opcode) {
                Some((m, o)) => rmw_step(s, m, o, cycle, r, before, after),
                None => match implied(s, opcode) {
                    Some(t) => after == before && r == if cycle == 0 { fetching(t) } else { s },
                    None => match branch_condition(s.p, opcode) {
                        Some(c) => branch_step(s, c, cycle, r, before, after),
                        None => other_step(s, opcode, cycle, r, before, after),
                    },
                },
            },
        },
    }
}

/// The register a store writes.
pub open spec fn stored(s: M6502, g: StoreReg) -> u8 {
    match g {
        StoreReg::A => s.a,
        StoreReg::X => s.x,
        StoreReg::Y => s.y,
    }
}

/// `r` is step `cycle` of a jump, return, stack opcode or BRK from `s`;
/// any other opcode ends at once, leaving the bus alone.
pub open spec fn other_step(
    s: M6502,
    opcode: u8,
    cycle: u8,
    r: M6502,
    before: Seq<BusAccess<u16, u8>>,
    after: Seq<BusAccess<u16, u8>>,
) -> bool {
    match opcode {
        0x4C => jmp_step(s, false, cycle, r, before, after),
        0x6C => jmp_step(s, true, cycle, r, before, after),
        0x20 => jsr_step(s, cycle, r, before, after),
        0x60 => return_step(s, false, cycle, r, before, after),
        0x40 => return_step(s, true, cycle, r, before, after),
        0x48 => push_step(s, false, cycle, r, before, after),
        0x08 => push_step(s, true, cycle, r, before, after),
        0x68 => pull_step(s, false, cycle, r, before, after),
        0x28 => pull_step(s, true, cycle, r, before, after),
        0x00 => brk_step(s, cycle, r, before, after),
        _ => after == before && r == fetching(s),
    }
}

/// The fetch step on interrupt lines `ints` and bus byte `b`: the
/// interrupt check, then, when none was taken, `b` fetched as the opcode.
pub open spec fn fetch_next(s: M6502, ints: InterruptState, b: u8) -> M6502 {
    let (taken, h) = interrupt_check(s, ints);
    if taken {
        h
    } else {
        M6502 { opcode: b, pc: inc16(s.pc), state: ExecState::Execute(b, 0), ..h }
    }
}

/// `r` is one clock of the core from `s`, whatever the bus and the
/// interrupt lines gave, the bus going from record `before` to `after`. The
/// fetch looks at the interrupt lines once, then reads the opcode at PC
/// unless an interrupt was taken.
pub open spec fn cycle_step(
    s: M6502,
    r: M6502,
    before: Seq<BusAccess<u16, u8>>,
    after: Seq<BusAccess<u16, u8>>,
) -> bool {
    match s.state {
        ExecState::Fetch => exists|ints: InterruptState, b: u8|
            r == #[trigger] fetch_next(s, ints, b) && after == if interrupt_check(s, ints).0 {
                before.push(BusAccess::Poll(ints))
            } else {
                before.push(BusAccess::Poll(ints)).push(BusAccess::Read(s.pc, b))
            },
        ExecState::Execute(op, c) => instruction_step(s, op, c, r, before, after),
        ExecState::Interrupt(c) => interrupt_step(s, c, r, before, after),
    }
}

impl M6502 {
    /// The power-on state: registers zero, SP at 0xFD, I and U set.
    pub open spec fn spec_power_on() -> M6502 {
        M6502 {
            a: 0,
            x: 0,
            y: 0,
            pc: 0,
            sp: 0xFD,
            p: 0x24,
            state: ExecState::Fetch,
            opcode: 0,
            temp_addr: 0,
            temp_data: 0,
            interrupt_type: 0,
            nmi_previous: false,
        }
    }

    /// A core in its power-on state.
    pub fn new() -> (r: Self)
        ensures
            r == M6502::spec_power_on(),
    {
        M6502 {
            a: 0,
            x: 0,
            y: 0,
            pc: 0,
            sp: 0xFD,
            p: 0x24,
            state: ExecState::Fetch,
            opcode: 0,
            temp_addr: 0,
            temp_data: 0,
            interrupt_type: 0,
            nmi_previous: false,
        }
    }

    /// Set or clear a status flag.
    pub fn set_flag(&mut self, flag: StatusFlag, set: bool)
        ensures
            *final(self) == (M6502 { p: with_status(old(self).p, flag, set), ..*old(self) }),
    {
        let m: u8 = match flag {
            StatusFlag::C => 0x01,
            StatusFlag::Z => 0x02,
            StatusFlag::I => 0x04,
            StatusFlag::D => 0x08,
            StatusFlag::B => 0x10,
            StatusFlag::U => 0x20,
            StatusFlag::V => 0x40,
            StatusFlag::N => 0x80,
        };
        if set {
            self.p = self.p | m;
        } else {
            self.p = self.p & !m;
        }
    }

    /// Reset: PC to zero, SP to 0xFD, P to I and U; the rest is kept.
    pub fn reset(&mut self)
        ensures
            *final(self) == (M6502 { pc: 0, sp: 0xFD, p: 0x24, ..*old(self) }),
    {
        self.pc = 0;
        self.sp = 0xFD;
        self.p = 0x24;
    }

    /// The 6502 never sleeps.
    pub fn is_sleeping(&self) -> (r: bool)
        ensures
            !r,
    {
        false
    }

    /// The registers.
    pub fn snapshot(&self) -> (r: M6502State)
        ensures
            r == (M6502State { a: self.a, x: self.x, y: self.y, pc: self.pc, sp: self.sp, p: self.p }),
    {
        M6502State { a: self.a, x: self.x, y: self.y, pc: self.pc, sp: self.sp, p: self.p }
    }

    /// Check the interrupt lines at an instruction boundary. NMI is taken on
    /// a rising edge; IRQ while its line is high and I is clear. Returns
    /// whether one was taken, which starts the interrupt sequence.
    pub fn handle_interrupts(&mut self, ints: InterruptState) -> (taken: bool)
        ensures
            (taken, *final(self)) == interrupt_check(*old(self), ints),
    {
        let nmi_edge = ints.nmi && !self.nmi_previous;
        self.nmi_previous = ints.nmi;
        if nmi_edge {
            self.interrupt_type = 1;
            self.state = ExecState::Interrupt(0);
            return true;
        }
        if ints.irq && (self.p & 0x04) == 0 {
            self.interrupt_type = 2;
            self.state = ExecState::Interrupt(0);
            return true;
        }
        false
    }

    /// One step of the hardware interrupt sequence: an internal cycle,
    /// PC's high and low bytes and P (B clear, U set) pushed, I set and
    /// the vector's low byte read (0xFFFA for NMI, 0xFFFE for IRQ), then
    /// its high byte.
    pub fn execute_interrupt<B: Bus<Address = u16, Data = u8> + ?Sized>(
        &mut self,
        cycle: u8,
        bus: &mut B,
        master: BusMaster,
    )
        ensures
            interrupt_step(*old(self), cycle, *final(self), old(bus).accesses(), final(bus).accesses()),
    {
        let ghost s = *self;
        let ghost log0 = bus.accesses();
        match cycle {
            0 => {
                self.state = ExecState::Interrupt(1);
                assert(*self == interrupt_next(s, cycle, 0));
                assert(bus.accesses() == logged(log0, interrupt_log(s, cycle, 0)));
            },
            1 => {
                bus.write(master, 0x0100 + self.sp as u16, (self.pc / 256) as u8);
                self.sp = self.sp.wrapping_sub(1);
                self.state = ExecState::Interrupt(2);
                assert(*self == interrupt_next(s, cycle, 0));
                assert(bus.accesses() == logged(log0, interrupt_log(s, cycle, 0)));
            },
            2 => {
                bus.write(master, 0x0100 + self.sp as u16, (self.pc % 256) as u8);
                self.sp = self.sp.wrapping_sub(1);
                self.state = ExecState::Interrupt(3);
                assert(*self == interrupt_next(s, cycle, 0));
                assert(bus.accesses() == logged(log0, interrupt_log(s, cycle, 0)));
            },
            3 => {
                let p_push = (self.p | 0x20) & !0x10u8;
                bus.write(master, 0x0100 + self.sp as u16, p_push);
                self.sp = self.sp.wrapping_sub(1);
                self.state = ExecState::Interrupt(4);
                assert(*self == interrupt_next(s, cycle, 0));
                assert(bus.accesses() == logged(log0, interrupt_log(s, cycle, 0)));
            },
            4 => {
                self.set_flag(StatusFlag::I, true);
                let vector_addr: u16 = if self.interrupt_type == 1 {
                    0xFFFA
                } else {
                    0xFFFE
                };
                let lo = bus.read(master, vector_addr);
                self.pc = lo as u16;
                self.state = ExecState::Interrupt(5);
                assert(*self == interrupt_next(s, cycle, lo));
                assert(bus.accesses() == logged(log0, interrupt_log(s, cycle, lo)));
            },
            5 => {
                let vector_addr: u16 = if self.interrupt_type == 1 {
                    0xFFFB
                } else {
                    0xFFFF
                };
                let hi = bus.read(master, vector_addr);
                self.pc = (hi as u16 * 256) | self.pc;
                self.interrupt_type = 0;
                self.state = ExecState::Fetch;
                assert(*self == interrupt_next(s, cycle, hi));
                assert(bus.accesses() == logged(log0, interrupt_log(s, cycle, hi)));
            },
            _ => {
                self.state = ExecState::Fetch;
                assert(*self == interrupt_next(s, cycle, 0));
                assert(bus.accesses() == logged(log0, interrupt_log(s, cycle, 0)));
            },
        }
    }

    /// Run step `cycle` of `opcode`. Opcodes this core does not implement
    /// end at once.
    pub fn execute_instruction<B: Bus<Address = u16, Data = u8> + ?Sized>(
        &mut self,
        opcode: u8,
        cycle: u8,
        bus: &mut B,
        master: BusMaster,
    )
        ensures
            instruction_step(
                *old(self),
                opcode,
                cycle,
                *final(self),
                old(bus).accesses(),
                final(bus).accesses(),
            ),
    {
        if let Some((mode, op)) = read_mode_of(opcode) {
            self.run_read(mode, op, cycle, bus, master);
            return ;
        }
        if let Some((mode, reg)) = store_mode_of(opcode) {
            let data = match reg {
                StoreReg::A => self.a,
                StoreReg::X => self.x,
                StoreReg::Y => self.y,
            };
            self.run_store(mode, data, cycle, bus, master);
            return ;
        }
        if let Some((mode, op)) = rmw_mode_of(opcode) {
            self.run_rmw(mode, op, cycle, bus, master);
            return ;
        }
        self.execute_other(opcode, cycle, bus, master);
    }

    /// The opcodes outside the read, store and read-modify-write families.
    pub fn execute_other<B: Bus<Address = u16, Data = u8> + ?Sized>(
        &mut self,
        opcode: u8,
        cycle: u8,
        bus: &mut B,
        master: BusMaster,
    )
        requires
            read_mode(opcode) is None,
            store_mode(opcode) is None,
            rmw_mode(opcode) is None,
        ensures
            instruction_step(
                *old(self),
                opcode,
                cycle,
                *final(self),
                old(bus).accesses(),
                final(bus).accesses(),
            ),
    {
        match opcode {
            0x0A | 0x4A | 0x2A | 0x6A | 0x18 | 0x38 | 0x58 | 0x78 | 0xB8 | 0xD8 | 0xF8 | 0xAA
            | 0xA8 | 0x8A | 0x98 | 0xBA | 0x9A | 0xE8 | 0xC8 | 0xCA | 0x88 | 0xEA => {
                self.execute_implied(opcode, cycle);
            },
            0x10 | 0x30 | 0x50 | 0x70 | 0x90 | 0xB0 | 0xD0 | 0xF0 => {
                self.op_branch(opcode, cycle, bus, master);
            },
            0x4C => self.op_jmp_abs(cycle, bus, master),
            0x6C => self.op_jmp_ind(cycle, bus, master),
            0x20 => self.op_jsr(cycle, bus, master),
            0x60 => self.op_rts(cycle, bus, master),
            0x40 => self.op_rti(cycle, bus, master),
            0x48 => self.op_pha(cycle, bus, master),
            0x68 => self.op_pla(cycle, bus, master),
            0x08 => self.op_php(cycle, bus, master),
            0x28 => self.op_plp(cycle, bus, master),
            0x00 => self.op_brk(cycle, bus, master),
            _ => {
                self.state = ExecState::Fetch;
            },
        }
    }

    /// The two-cycle implied opcodes: the work on step 0, nothing on a later one.
    #[verifier::rlimit(80)]
    pub fn execute_implied(&mut self, opcode: u8, cycle: u8)
        requires
            implied(*old(self), opcode) is Some,
        ensures
            *final(self) == if cycle == 0 {
                fetching(implied(*old(self), opcode)->0)
            } else {
                *old(self)
            },
    {
        match opcode {
            0x0A => {
                if cycle == 0 {
                    let a = self.a;
                    self.a = self.perform_asl(a);
                    self.state = ExecState::Fetch;
                }
            },
            0x4A => {
                if cycle == 0 {
                    let a = self.a;
                    self.a = self.perform_lsr(a);
                    self.state = ExecState::Fetch;
                }
            },
            0x2A => {
                if cycle == 0 {
                    let a = self.a;
                    self.a = self.perform_rol(a);
                    self.state = ExecState::Fetch;
                }
            },
            0x6A => {
                if cycle == 0 {
                    let a = self.a;
                    self.a = self.perform_ror(a);
                    self.state = ExecState::Fetch;
                }
            },
            0x18 => {
                if cycle == 0 {
                    self.set_flag(StatusFlag::C, false);
                    self.state = ExecState::Fetch;
                }
            },
            0x38 => {
                if cycle == 0 {
                    self.set_flag(StatusFlag::C, true);
                    self.state = ExecState::Fetch;
                }
            },
            0x58 => {
                if cycle == 0 {
                    self.set_flag(StatusFlag::I, false);
                    self.state = ExecState::Fetch;
                }
            },
            0x78 => {
                if cycle == 0 {
                    self.set_flag(StatusFlag::I, true);
                    self.state = ExecState::Fetch;
                }
            },
            0xB8 => {
                if cycle == 0 {
                    self.set_flag(StatusFlag::V, false);
                    self.state = ExecState::Fetch;
                }
            },
            0xD8 => {
                if cycle == 0 {
                    self.set_flag(StatusFlag::D, false);
                    self.state = ExecState::Fetch;
                }
            },
            0xF8 => {
                if cycle == 0 {
                    self.set_flag(StatusFlag::D, true);
                    self.state = ExecState::Fetch;
                }
            },
            0xAA => {
                if cycle == 0 {
                    self.x = self.a;
                    let x = self.x;
                    self.set_nz(x);
                    self.state = ExecState::Fetch;
                }
            },
            0xA8 => {
                if cycle == 0 {
                    self.y = self.a;
                    let y = self.y;
                    self.set_nz(y);
                    self.state = ExecState::Fetch;
                }
            },
            0x8A => {
                if cycle == 0 {
                    self.a = self.x;
                    let a = self.a;
                    self.set_nz(a);
                    self.state = ExecState::Fetch;
                }
            },
            0x98 => {
                if cycle == 0 {
                    self.a = self.y;
                    let a = self.a;
                    self.set_nz(a);
                    self.state = ExecState::Fetch;
                }
            },
            0xBA => {
                if cycle == 0 {
                    self.x = self.sp;
                    let x = self.x;
                    self.set_nz(x);
                    self.state = ExecState::Fetch;
                }
            },
            0x9A => {
                if cycle == 0 {
                    self.sp = self.x;
                    self.state = ExecState::Fetch;
                }
            },
            0xE8 => {
                if cycle == 0 {
                    self.x = self.x.wrapping_add(1);
                    let x = self.x;
                    self.set_nz(x);
                    self.state = ExecState::Fetch;
                }
            },
            0xC8 => {
                if cycle == 0 {
                    self.y = self.y.wrapping_add(1);
                    let y = self.y;
                    self.set_nz(y);
                    self.state = ExecState::Fetch;
                }
            },
            0xCA => {
                if cycle == 0 {
                    self.x = self.x.wrapping_sub(1);
                    let x = self.x;
                    self.set_nz(x);
                    self.state = ExecState::Fetch;
                }
            },
            0x88 => {
                if cycle == 0 {
                    self.y = self.y.wrapping_sub(1);
                    let y = self.y;
                    self.set_nz(y);
                    self.state = ExecState::Fetch;
                }
            },
            0xEA => {
                if cycle == 0 {
                    self.state = ExecState::Fetch;
                }
            },
            _ => {},
        }
    }

    /// Run one clock: at an instruction boundary take an interrupt or fetch
    /// the next opcode; otherwise run the next step of the instruction or
    /// of the interrupt sequence.
    pub fn execute_cycle<B: Bus<Address = u16, Data = u8> + ?Sized>(
        &mut self,
        bus: &mut B,
        master: BusMaster,
    )
        ensures
            cycle_step(*old(self), *final(self), old(bus).accesses(), final(bus).accesses()),
    {
        match self.state {
            ExecState::Fetch => {
                let ghost s = *self;
                let ghost log0 = bus.accesses();
                let ints = bus.check_interrupts(master);
                if self.handle_interrupts(ints) {
                    assert(*self == fetch_next(s, ints, 0));
                    return ;
                }
                let b = bus.read(master, self.pc);
                self.opcode = b;
                self.pc = self.pc.wrapping_add(1);
                self.state = ExecState::Execute(b, 0);
                assert(*self == fetch_next(s, ints, b));
                assert(bus.accesses() == log0.push(BusAccess::Poll(ints)).push(BusAccess::Read(s.pc, b)));
            },
            ExecState::Execute(op, cyc) => {
                self.execute_instruction(op, cyc, bus, master);
            },
            ExecState::Interrupt(cycle) => {
                self.execute_interrupt(cycle, bus, master);
            },
        }
    }
}

impl M6502 {
    /// One clock as a bus master, then whether the core sits at an
    /// instruction boundary (about to fetch).
    pub fn tick_with_bus<B: Bus<Address = u16, Data = u8> + ?Sized>(
        &mut self,
        bus: &mut B,
        master: BusMaster,
    ) -> (boundary: bool)
        ensures
            cycle_step(*old(self), *final(self), old(bus).accesses(), final(bus).accesses()),
            boundary == (final(self).state == ExecState::Fetch),
    {
        self.execute_cycle(bus, master);
        match self.state {
            ExecState::Fetch => true,
            _ => false,
        }
    }
}

impl Default for M6502 {
    /// A core in its power-on state.
    fn default() -> (r: Self)
        ensures
            r == M6502::spec_power_on(),
    {
        M6502::new()
    }
}

} // verus!
