//! The 8035's moves: registers, internal and external RAM, program memory
//! and the ports.
//!
//! Moves within the chip take one machine cycle; those that use the bus or
//! an immediate byte take two, doing their work on the second.

use vstd::prelude::*;
use crate::bus::{Bus, BusAccess, BusMaster};
use super::{ExecState, I8035, next_pc, page_of, to_fetch, to_second_cycle};

verus! {

/// The I/O address of the BUS port.
pub const PORT_BUS: u16 = 0x100;
/// The I/O address of port 1.
pub const PORT_P1: u16 = 0x101;
/// The I/O address of port 2.
pub const PORT_P2: u16 = 0x102;
/// The I/O address of expander port 4; ports 5 to 7 follow it.
pub const PORT_P4: u16 = 0x104;

/// `s` with A set to `a`, at an instruction boundary.
pub open spec fn loaded_a(s: I8035, a: u8) -> I8035 {
    I8035 { a: a, state: ExecState::Fetch, ..s }
}

/// `s` past an immediate byte, at an instruction boundary.
pub open spec fn past_immediate(s: I8035) -> I8035 {
    I8035 { pc: next_pc(s.pc), state: ExecState::Fetch, ..s }
}

/// What a two-cycle move does on a cycle past the second: go back to fetching.
pub open spec fn late_cycle(cycle: u8, s: I8035, r: I8035) -> bool {
    cycle > 1 ==> r == to_fetch(s)
}

impl I8035 {
    /// MOV A, Rn.
    pub fn op_mov_a_rn(&mut self, n: u8)
        ensures
            *final(self) == loaded_a(*old(self), old(self).reg(n)),
    {
        self.a = self.get_reg(n);
        self.state = ExecState::Fetch;
    }

    /// MOV Rn, A.
    pub fn op_mov_rn_a(&mut self, n: u8)
        ensures
            final(self).ram@ == old(self).ram@.update(old(self).reg_addr(n) as int, old(self).a),
            *final(self) == (I8035 { ram: final(self).ram, ..to_fetch(*old(self)) }),
    {
        let a = self.a;
        self.set_reg(n, a);
        self.state = ExecState::Fetch;
    }

    /// MOV A, @Ri: A from the internal RAM byte register `ri` points at.
    pub fn op_mov_a_indirect(&mut self, ri: u8)
        ensures
            *final(self) == loaded_a(*old(self), old(self).ram_at(old(self).reg(ri))),
    {
        let addr = self.get_reg(ri);
        self.a = self.read_ram(addr);
        self.state = ExecState::Fetch;
    }

    /// MOV @Ri, A: A to the internal RAM byte register `ri` points at.
    pub fn op_mov_indirect_a(&mut self, ri: u8)
        ensures
            final(self).ram@ == old(self).ram_written(old(self).reg(ri), old(self).a),
            *final(self) == (I8035 { ram: final(self).ram, ..to_fetch(*old(self)) }),
    {
        let addr = self.get_reg(ri);
        let a = self.a;
        self.write_ram(addr, a);
        self.state = ExecState::Fetch;
    }

    /// XCH A, Rn: exchange A and register `n`.
    pub fn op_xch_a_rn(&mut self, n: u8)
        ensures
            final(self).ram@ == old(self).ram@.update(old(self).reg_addr(n) as int, old(self).a),
            *final(self) == (I8035 {
                ram: final(self).ram,
                ..loaded_a(*old(self), old(self).reg(n))
            }),
    {
        let val = self.get_reg(n);
        let a = self.a;
        self.set_reg(n, a);
        self.a = val;
        self.state = ExecState::Fetch;
    }

    /// XCH A, @Ri: exchange A and the RAM byte register `ri` points at.
    pub fn op_xch_a_indirect(&mut self, ri: u8)
        ensures
            final(self).ram@ == old(self).ram_written(old(self).reg(ri), old(self).a),
            *final(self) == (I8035 {
                ram: final(self).ram,
                ..loaded_a(*old(self), old(self).ram_at(old(self).reg(ri)))
            }),
    {
        let addr = self.get_reg(ri);
        let val = self.read_ram(addr);
        let a = self.a;
        self.write_ram(addr, a);
        self.a = val;
        self.state = ExecState::Fetch;
    }

    /// XCHD A, @Ri: exchange the low nibbles of A and the RAM byte register
    /// `ri` points at.
    pub fn op_xchd_a_indirect(&mut self, ri: u8)
        ensures
            ({
                let v = old(self).ram_at(old(self).reg(ri));
                let a = old(self).a;
                &&& final(self).ram@ == old(self).ram_written(
                    old(self).reg(ri),
                    (v / 16 * 16 + a % 16) as u8,
                )
                &&& *final(self) == (I8035 {
                    ram: final(self).ram,
                    ..loaded_a(*old(self), (a / 16 * 16 + v % 16) as u8)
                })
            }),
    {
        let addr = self.get_reg(ri);
        let val = self.read_ram(addr);
        let a_lo = self.a % 16;
        let v_lo = val % 16;
        self.a = self.a / 16 * 16 + v_lo;
        self.write_ram(addr, val / 16 * 16 + a_lo);
        self.state = ExecState::Fetch;
    }

    /// MOV A, T.
    pub fn op_mov_a_t(&mut self)
        ensures
            *final(self) == loaded_a(*old(self), old(self).t),
    {
        self.a = self.t;
        self.state = ExecState::Fetch;
    }

    /// MOV T, A.
    pub fn op_mov_t_a(&mut self)
        ensures
            *final(self) == (I8035 { t: old(self).a, ..to_fetch(*old(self)) }),
    {
        self.t = self.a;
        self.state = ExecState::Fetch;
    }

    /// MOV A, PSW.
    pub fn op_mov_a_psw(&mut self)
        ensures
            *final(self) == loaded_a(*old(self), old(self).psw),
    {
        self.a = self.psw;
        self.state = ExecState::Fetch;
    }

    /// MOV PSW, A.
    pub fn op_mov_psw_a(&mut self)
        ensures
            *final(self) == (I8035 { psw: old(self).a, ..to_fetch(*old(self)) }),
    {
        self.psw = self.a;
        self.state = ExecState::Fetch;
    }

    /// MOV A, #data.
    pub fn op_mov_a_imm<B: Bus<Address = u16, Data = u8> + ?Sized>(
        &mut self,
        cycle: u8,
        bus: &mut B,
        master: BusMaster,
    )
        requires
            old(self).pc < 0xFFFF,
        ensures
            cycle != 1 ==> final(bus).accesses() == old(bus).accesses(),
            cycle == 0 ==> *final(self) == to_second_cycle(*old(self)),
            cycle == 1 ==> exists|b: u8|
                *final(self) == #[trigger] loaded_a(past_immediate(*old(self)), b)
                    && final(bus).accesses() == old(bus).accesses().push(
                    BusAccess::Read(old(self).pc, b),
                ),
            late_cycle(cycle, *old(self), *final(self)),
    {
        match cycle {
            0 => self.state = ExecState::Execute(self.opcode),
            1 => {
                let ghost s = *self;
                self.a = bus.read(master, self.pc);
                self.pc = (self.pc + 1) % 4096;
                self.state = ExecState::Fetch;
                assert(*self == loaded_a(past_immediate(s), self.a));
            },
            _ => self.state = ExecState::Fetch,
        }
    }

    /// MOV Rn, #data.
    pub fn op_mov_rn_imm<B: Bus<Address = u16, Data = u8> + ?Sized>(
        &mut self,
        n: u8,
        cycle: u8,
        bus: &mut B,
        master: BusMaster,
    )
        requires
            old(self).pc < 0xFFFF,
        ensures
            cycle != 1 ==> final(bus).accesses() == old(bus).accesses(),
            cycle == 0 ==> *final(self) == to_second_cycle(*old(self)),
            cycle == 1 ==> exists|b: u8|
                final(self).ram@ == #[trigger] old(self).ram@.update(
                    old(self).reg_addr(n) as int,
                    b,
                ) && final(bus).accesses() == old(bus).accesses().push(
                    BusAccess::Read(old(self).pc, b),
                ),
            cycle == 1 ==> *final(self) == (I8035 {
                ram: final(self).ram,
                ..past_immediate(*old(self))
            }),
            late_cycle(cycle, *old(self), *final(self)),
    {
        match cycle {
            0 => self.state = ExecState::Execute(self.opcode),
            1 => {
                let ghost s = *self;
                let data = bus.read(master, self.pc);
                self.pc = (self.pc + 1) % 4096;
                self.set_reg(n, data);
                self.state = ExecState::Fetch;
                assert(self.ram@ == s.ram@.update(s.reg_addr(n) as int, data));
            },
            _ => self.state = ExecState::Fetch,
        }
    }

    /// MOV @Ri, #data.
    pub fn op_mov_indirect_imm<B: Bus<Address = u16, Data = u8> + ?Sized>(
        &mut self,
        ri: u8,
        cycle: u8,
        bus: &mut B,
        master: BusMaster,
    )
        requires
            old(self).pc < 0xFFFF,
        ensures
            cycle != 1 ==> final(bus).accesses() == old(bus).accesses(),
            cycle == 0 ==> *final(self) == to_second_cycle(*old(self)),
            cycle == 1 ==> exists|b: u8|
                final(self).ram@ == #[trigger] old(self).ram_written(old(self).reg(ri), b)
                    && final(bus).accesses() == old(bus).accesses().push(
                    BusAccess::Read(old(self).pc, b),
                ),
            cycle == 1 ==> *final(self) == (I8035 {
                ram: final(self).ram,
                ..past_immediate(*old(self))
            }),
            late_cycle(cycle, *old(self), *final(self)),
    {
        match cycle {
            0 => self.state = ExecState::Execute(self.opcode),
            1 => {
                let ghost s = *self;
                let data = bus.read(master, self.pc);
                self.pc = (self.pc + 1) % 4096;
                let addr = self.get_reg(ri);
                self.write_ram(addr, data);
                self.state = ExecState::Fetch;
                assert(self.ram@ == s.ram_written(s.reg(ri), data));
            },
            _ => self.state = ExecState::Fetch,
        }
    }

    /// MOVX A, @Ri: A from external RAM at the address in register `ri`.
    pub fn op_movx_a_indirect<B: Bus<Address = u16, Data = u8> + ?Sized>(
        &mut self,
        ri: u8,
        cycle: u8,
        bus: &mut B,
        master: BusMaster,
    )
        ensures
            final(bus).accesses() == old(bus).accesses(),
            cycle == 0 ==> *final(self) == to_second_cycle(*old(self)),
            cycle == 1 ==> exists|b: u8| *final(self) == #[trigger] loaded_a(*old(self), b),
            late_cycle(cycle, *old(self), *final(self)),
    {
        match cycle {
            0 => self.state = ExecState::Execute(self.opcode),
            1 => {
                let ghost s = *self;
                let addr = self.get_reg(ri) as u16;
                self.a = bus.io_read(master, addr);
                self.state = ExecState::Fetch;
                assert(*self == loaded_a(s, self.a));
            },
            _ => self.state = ExecState::Fetch,
        }
    }

    /// MOVX @Ri, A: A to external RAM at the address in register `ri`.
    pub fn op_movx_indirect_a<B: Bus<Address = u16, Data = u8> + ?Sized>(
        &mut self,
        ri: u8,
        cycle: u8,
        bus: &mut B,
        master: BusMaster,
    )
        ensures
            final(bus).accesses() == old(bus).accesses(),
            cycle == 0 ==> *final(self) == to_second_cycle(*old(self)),
            cycle != 0 ==> *final(self) == to_fetch(*old(self)),
    {
        match cycle {
            0 => self.state = ExecState::Execute(self.opcode),
            1 => {
                let addr = self.get_reg(ri) as u16;
                bus.io_write(master, addr, self.a);
                self.state = ExecState::Fetch;
            },
            _ => self.state = ExecState::Fetch,
        }
    }

    /// MOVP A, @A: A from the current page of program memory at A.
    pub fn op_movp_a<B: Bus<Address = u16, Data = u8> + ?Sized>(
        &mut self,
        cycle: u8,
        bus: &mut B,
        master: BusMaster,
    )
        ensures
            cycle != 1 ==> final(bus).accesses() == old(bus).accesses(),
            cycle == 0 ==> *final(self) == to_second_cycle(*old(self)),
            cycle == 1 ==> exists|b: u8|
                *final(self) == #[trigger] loaded_a(*old(self), b)
                    && final(bus).accesses() == old(bus).accesses().push(
                    BusAccess::Read((page_of(old(self).pc) + old(self).a) as u16, b),
                ),
            late_cycle(cycle, *old(self), *final(self)),
    {
        match cycle {
            0 => self.state = ExecState::Execute(self.opcode),
            1 => {
                let ghost s = *self;
                let addr = (self.pc / 256 % 16) * 256 + self.a as u16;
                self.a = bus.read(master, addr);
                self.state = ExecState::Fetch;
                assert(*self == loaded_a(s, self.a));
            },
            _ => self.state = ExecState::Fetch,
        }
    }

    /// MOVP3 A, @A: A from page 3 of program memory at A.
    pub fn op_movp3_a<B: Bus<Address = u16, Data = u8> + ?Sized>(
        &mut self,
        cycle: u8,
        bus: &mut B,
        master: BusMaster,
    )
        ensures
            cycle != 1 ==> final(bus).accesses() == old(bus).accesses(),
            cycle == 0 ==> *final(self) == to_second_cycle(*old(self)),
            cycle == 1 ==> exists|b: u8|
                *final(self) == #[trigger] loaded_a(*old(self), b)
                    && final(bus).accesses() == old(bus).accesses().push(
                    BusAccess::Read((0x300 + old(self).a) as u16, b),
                ),
            late_cycle(cycle, *old(self), *final(self)),
    {
        match cycle {
            0 => self.state = ExecState::Execute(self.opcode),
            1 => {
                let ghost s = *self;
                let addr = 0x300 + self.a as u16;
                self.a = bus.read(master, addr);
                self.state = ExecState::Fetch;
                assert(*self == loaded_a(s, self.a));
            },
            _ => self.state = ExecState::Fetch,
        }
    }

    /// INS A, BUS.
    pub fn op_ins_a_bus<B: Bus<Address = u16, Data = u8> + ?Sized>(
        &mut self,
        cycle: u8,
        bus: &mut B,
        master: BusMaster,
    )
        ensures
            final(bus).accesses() == old(bus).accesses(),
            cycle == 0 ==> *final(self) == to_second_cycle(*old(self)),
            cycle == 1 ==> exists|b: u8| *final(self) == #[trigger] loaded_a(*old(self), b),
            late_cycle(cycle, *old(self), *final(self)),
    {
        match cycle {
            0 => self.state = ExecState::Execute(self.opcode),
            1 => {
                let ghost s = *self;
                self.a = bus.io_read(master, PORT_BUS);
                self.state = ExecState::Fetch;
                assert(*self == loaded_a(s, self.a));
            },
            _ => self.state = ExecState::Fetch,
        }
    }

    /// IN A, P1.
    pub fn op_in_a_p1<B: Bus<Address = u16, Data = u8> + ?Sized>(
        &mut self,
        cycle: u8,
        bus: &mut B,
        master: BusMaster,
    )
        ensures
            final(bus).accesses() == old(bus).accesses(),
            cycle == 0 ==> *final(self) == to_second_cycle(*old(self)),
            cycle == 1 ==> exists|b: u8| *final(self) == #[trigger] loaded_a(*old(self), b),
            late_cycle(cycle, *old(self), *final(self)),
    {
        match cycle {
            0 => self.state = ExecState::Execute(self.opcode),
            1 => {
                let ghost s = *self;
                self.a = bus.io_read(master, PORT_P1);
                self.state = ExecState::Fetch;
                assert(*self == loaded_a(s, self.a));
            },
            _ => self.state = ExecState::Fetch,
        }
    }

    /// IN A, P2.
    pub fn op_in_a_p2<B: Bus<Address = u16, Data = u8> + ?Sized>(
        &mut self,
        cycle: u8,
        bus: &mut B,
        master: BusMaster,
    )
        ensures
            final(bus).accesses() == old(bus).accesses(),
            cycle == 0 ==> *final(self) == to_second_cycle(*old(self)),
            cycle == 1 ==> exists|b: u8| *final(self) == #[trigger] loaded_a(*old(self), b),
            late_cycle(cycle, *old(self), *final(self)),
    {
        match cycle {
            0 => self.state = ExecState::Execute(self.opcode),
            1 => {
                let ghost s = *self;
                self.a = bus.io_read(master, PORT_P2);
                self.state = ExecState::Fetch;
                assert(*self == loaded_a(s, self.a));
            },
            _ => self.state = ExecState::Fetch,
        }
    }

    /// OUTL BUS, A: the BUS latch takes A, which goes out on the port.
    pub fn op_outl_bus_a<B: Bus<Address = u16, Data = u8> + ?Sized>(
        &mut self,
        cycle: u8,
        bus: &mut B,
        master: BusMaster,
    )
        ensures
            final(bus).accesses() == old(bus).accesses(),
            cycle == 0 ==> *final(self) == to_second_cycle(*old(self)),
            cycle == 1 ==> *final(self) == (I8035 { dbbb: old(self).a, ..to_fetch(*old(self)) }),
            late_cycle(cycle, *old(self), *final(self)),
    {
        match cycle {
            0 => self.state = ExecState::Execute(self.opcode),
            1 => {
                self.dbbb = self.a;
                bus.io_write(master, PORT_BUS, self.a);
                self.state = ExecState::Fetch;
            },
            _ => self.state = ExecState::Fetch,
        }
    }

    /// OUTL P1, A: the port 1 latch takes A, which goes out on the port.
    pub fn op_outl_p1_a<B: Bus<Address = u16, Data = u8> + ?Sized>(
        &mut self,
        cycle: u8,
        bus: &mut B,
        master: BusMaster,
    )
        ensures
            final(bus).accesses() == old(bus).accesses(),
            cycle == 0 ==> *final(self) == to_second_cycle(*old(self)),
            cycle == 1 ==> *final(self) == (I8035 { p1: old(self).a, ..to_fetch(*old(self)) }),
            late_cycle(cycle, *old(self), *final(self)),
    {
        match cycle {
            0 => self.state = ExecState::Execute(self.opcode),
            1 => {
                self.p1 = self.a;
                bus.io_write(master, PORT_P1, self.a);
                self.state = ExecState::Fetch;
            },
            _ => self.state = ExecState::Fetch,
        }
    }

    /// OUTL P2, A: the port 2 latch takes A, which goes out on the port.
    pub fn op_outl_p2_a<B: Bus<Address = u16, Data = u8> + ?Sized>(
        &mut self,
        cycle: u8,
        bus: &mut B,
        master: BusMaster,
    )
        ensures
            final(bus).accesses() == old(bus).accesses(),
            cycle == 0 ==> *final(self) == to_second_cycle(*old(self)),
            cycle == 1 ==> *final(self) == (I8035 { p2: old(self).a, ..to_fetch(*old(self)) }),
            late_cycle(cycle, *old(self), *final(self)),
    {
        match cycle {
            0 => self.state = ExecState::Execute(self.opcode),
            1 => {
                self.p2 = self.a;
                bus.io_write(master, PORT_P2, self.a);
                self.state = ExecState::Fetch;
            },
            _ => self.state = ExecState::Fetch,
        }
    }

    /// ANL BUS, #data: the BUS latch ANDed with the immediate byte.
    pub fn op_anl_bus_imm<B: Bus<Address = u16, Data = u8> + ?Sized>(
        &mut self,
        cycle: u8,
        bus: &mut B,
        master: BusMaster,
    )
        requires
            old(self).pc < 0xFFFF,
        ensures
            cycle != 1 ==> final(bus).accesses() == old(bus).accesses(),
            cycle == 0 ==> *final(self) == to_second_cycle(*old(self)),
            cycle == 1 ==> exists|b: u8|
                *final(self) == (I8035 {
                    dbbb: #[trigger] (old(self).dbbb & b),
                    ..past_immediate(*old(self))
                }) && final(bus).accesses() == old(bus).accesses().push(
                    BusAccess::Read(old(self).pc, b),
                ),
            late_cycle(cycle, *old(self), *final(self)),
    {
        match cycle {
            0 => self.state = ExecState::Execute(self.opcode),
            1 => {
                let data = bus.read(master, self.pc);
                self.pc = (self.pc + 1) % 4096;
                self.dbbb = self.dbbb & data;
                bus.io_write(master, PORT_BUS, self.dbbb);
                self.state = ExecState::Fetch;
            },
            _ => self.state = ExecState::Fetch,
        }
    }

    /// ORL BUS, #data: the BUS latch ORed with the immediate byte.
    pub fn op_orl_bus_imm<B: Bus<Address = u16, Data = u8> + ?Sized>(
        &mut self,
        cycle: u8,
        bus: &mut B,
        master: BusMaster,
    )
        requires
            old(self).pc < 0xFFFF,
        ensures
            cycle != 1 ==> final(bus).accesses() == old(bus).accesses(),
            cycle == 0 ==> *final(self) == to_second_cycle(*old(self)),
            cycle == 1 ==> exists|b: u8|
                *final(self) == (I8035 {
                    dbbb: #[trigger] (old(self).dbbb | b),
                    ..past_immediate(*old(self))
                }) && final(bus).accesses() == old(bus).accesses().push(
                    BusAccess::Read(old(self).pc, b),
                ),
            late_cycle(cycle, *old(self), *final(self)),
    {
        match cycle {
            0 => self.state = ExecState::Execute(self.opcode),
            1 => {
                let data = bus.read(master, self.pc);
                self.pc = (self.pc + 1) % 4096;
                self.dbbb = self.dbbb | data;
                bus.io_write(master, PORT_BUS, self.dbbb);
                self.state = ExecState::Fetch;
            },
            _ => self.state = ExecState::Fetch,
        }
    }

    /// ANL P1, #data: the port 1 latch ANDed with the immediate byte.
    pub fn op_anl_p1_imm<B: Bus<Address = u16, Data = u8> + ?Sized>(
        &mut self,
        cycle: u8,
        bus: &mut B,
        master: BusMaster,
    )
        requires
            old(self).pc < 0xFFFF,
        ensures
            cycle != 1 ==> final(bus).accesses() == old(bus).accesses(),
            cycle == 0 ==> *final(self) == to_second_cycle(*old(self)),
            cycle == 1 ==> exists|b: u8|
                *final(self) == (I8035 {
                    p1: #[trigger] (old(self).p1 & b),
                    ..past_immediate(*old(self))
                }) && final(bus).accesses() == old(bus).accesses().push(
                    BusAccess::Read(old(self).pc, b),
                ),
            late_cycle(cycle, *old(self), *final(self)),
    {
        match cycle {
            0 => self.state = ExecState::Execute(self.opcode),
            1 => {
                let data = bus.read(master, self.pc);
                self.pc = (self.pc + 1) % 4096;
                self.p1 = self.p1 & data;
                bus.io_write(master, PORT_P1, self.p1);
                self.state = ExecState::Fetch;
            },
            _ => self.state = ExecState::Fetch,
        }
    }

    /// ORL P1, #data: the port 1 latch ORed with the immediate byte.
    pub fn op_orl_p1_imm<B: Bus<Address = u16, Data = u8> + ?Sized>(
        &mut self,
        cycle: u8,
        bus: &mut B,
        master: BusMaster,
    )
        requires
            old(self).pc < 0xFFFF,
        ensures
            cycle != 1 ==> final(bus).accesses() == old(bus).accesses(),
            cycle == 0 ==> *final(self) == to_second_cycle(*old(self)),
            cycle == 1 ==> exists|b: u8|
                *final(self) == (I8035 {
                    p1: #[trigger] (old(self).p1 | b),
                    ..past_immediate(*old(self))
                }) && final(bus).accesses() == old(bus).accesses().push(
                    BusAccess::Read(old(self).pc, b),
                ),
            late_cycle(cycle, *old(self), *final(self)),
    {
        match cycle {
            0 => self.state = ExecState::Execute(self.opcode),
            1 => {
                let data = bus.read(master, self.pc);
                self.pc = (self.pc + 1) % 4096;
                self.p1 = self.p1 | data;
                bus.io_write(master, PORT_P1, self.p1);
                self.state = ExecState::Fetch;
            },
            _ => self.state = ExecState::Fetch,
        }
    }

    /// ANL P2, #data: the port 2 latch ANDed with the immediate byte.
    pub fn op_anl_p2_imm<B: Bus<Address = u16, Data = u8> + ?Sized>(
        &mut self,
        cycle: u8,
        bus: &mut B,
        master: BusMaster,
    )
        requires
            old(self).pc < 0xFFFF,
        ensures
            cycle != 1 ==> final(bus).accesses() == old(bus).accesses(),
            cycle == 0 ==> *final(self) == to_second_cycle(*old(self)),
            cycle == 1 ==> exists|b: u8|
                *final(self) == (I8035 {
                    p2: #[trigger] (old(self).p2 & b),
                    ..past_immediate(*old(self))
                }) && final(bus).accesses() == old(bus).accesses().push(
                    BusAccess::Read(old(self).pc, b),
                ),
            late_cycle(cycle, *old(self), *final(self)),
    {
        match cycle {
            0 => self.state = ExecState::Execute(self.opcode),
            1 => {
                let data = bus.read(master, self.pc);
                self.pc = (self.pc + 1) % 4096;
                self.p2 = self.p2 & data;
                bus.io_write(master, PORT_P2, self.p2);
                self.state = ExecState::Fetch;
            },
            _ => self.state = ExecState::Fetch,
        }
    }

    /// ORL P2, #data: the port 2 latch ORed with the immediate byte.
    pub fn op_orl_p2_imm<B: Bus<Address = u16, Data = u8> + ?Sized>(
        &mut self,
        cycle: u8,
        bus: &mut B,
        master: BusMaster,
    )
        requires
            old(self).pc < 0xFFFF,
        ensures
            cycle != 1 ==> final(bus).accesses() == old(bus).accesses(),
            cycle == 0 ==> *final(self) == to_second_cycle(*old(self)),
            cycle == 1 ==> exists|b: u8|
                *final(self) == (I8035 {
                    p2: #[trigger] (old(self).p2 | b),
                    ..past_immediate(*old(self))
                }) && final(bus).accesses() == old(bus).accesses().push(
                    BusAccess::Read(old(self).pc, b),
                ),
            late_cycle(cycle, *old(self), *final(self)),
    {
        match cycle {
            0 => self.state = ExecState::Execute(self.opcode),
            1 => {
                let data = bus.read(master, self.pc);
                self.pc = (self.pc + 1) % 4096;
                self.p2 = self.p2 | data;
                bus.io_write(master, PORT_P2, self.p2);
                self.state = ExecState::Fetch;
            },
            _ => self.state = ExecState::Fetch,
        }
    }

    /// MOVD A, Pp: A from the low nibble of expander port `port` (4 to 7,
    /// given as 0 to 3).
    pub fn op_movd_a_pp<B: Bus<Address = u16, Data = u8> + ?Sized>(
        &mut self,
        port: u8,
        cycle: u8,
        bus: &mut B,
        master: BusMaster,
    )
        ensures
            final(bus).accesses() == old(bus).accesses(),
            cycle == 0 ==> *final(self) == to_second_cycle(*old(self)),
            cycle == 1 ==> exists|b: u8|
                b < 16 && *final(self) == #[trigger] loaded_a(*old(self), b),
            late_cycle(cycle, *old(self), *final(self)),
    {
        match cycle {
            0 => self.state = ExecState::Execute(self.opcode),
            1 => {
                let ghost s = *self;
                self.a = bus.io_read(master, PORT_P4 + port as u16) % 16;
                self.state = ExecState::Fetch;
                assert(*self == loaded_a(s, self.a));
            },
            _ => self.state = ExecState::Fetch,
        }
    }

    /// MOVD Pp, A: A's low nibble out to expander port `port`.
    pub fn op_movd_pp_a<B: Bus<Address = u16, Data = u8> + ?Sized>(
        &mut self,
        port: u8,
        cycle: u8,
        bus: &mut B,
        master: BusMaster,
    )
        ensures
            final(bus).accesses() == old(bus).accesses(),
            cycle == 0 ==> *final(self) == to_second_cycle(*old(self)),
            cycle != 0 ==> *final(self) == to_fetch(*old(self)),
    {
        match cycle {
            0 => self.state = ExecState::Execute(self.opcode),
            1 => {
                bus.io_write(master, PORT_P4 + port as u16, self.a % 16);
                self.state = ExecState::Fetch;
            },
            _ => self.state = ExecState::Fetch,
        }
    }

    /// ANLD Pp, A: expander port `port` ANDed with A's low nibble.
    pub fn op_anld_pp_a<B: Bus<Address = u16, Data = u8> + ?Sized>(
        &mut self,
        port: u8,
        cycle: u8,
        bus: &mut B,
        master: BusMaster,
    )
        ensures
            final(bus).accesses() == old(bus).accesses(),
            cycle == 0 ==> *final(self) == to_second_cycle(*old(self)),
            cycle != 0 ==> *final(self) == to_fetch(*old(self)),
    {
        match cycle {
            0 => self.state = ExecState::Execute(self.opcode),
            1 => {
                let addr = PORT_P4 + port as u16;
                let val = bus.io_read(master, addr) & (self.a | 0xF0);
                bus.io_write(master, addr, val % 16);
                self.state = ExecState::Fetch;
            },
            _ => self.state = ExecState::Fetch,
        }
    }

    /// ORLD Pp, A: expander port `port` ORed with A's low nibble.
    pub fn op_orld_pp_a<B: Bus<Address = u16, Data = u8> + ?Sized>(
        &mut self,
        port: u8,
        cycle: u8,
        bus: &mut B,
        master: BusMaster,
    )
        ensures
            final(bus).accesses() == old(bus).accesses(),
            cycle == 0 ==> *final(self) == to_second_cycle(*old(self)),
            cycle != 0 ==> *final(self) == to_fetch(*old(self)),
    {
        match cycle {
            0 => self.state = ExecState::Execute(self.opcode),
            1 => {
                let addr = PORT_P4 + port as u16;
                let val = bus.io_read(master, addr) | (self.a % 16);
                bus.io_write(master, addr, val % 16);
                self.state = ExecState::Fetch;
            },
            _ => self.state = ExecState::Fetch,
        }
    }
}

} // verus!
