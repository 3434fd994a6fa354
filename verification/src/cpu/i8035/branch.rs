//! The 8035's jumps, calls and returns.
//!
//! Every one takes two machine cycles. The first decides (a conditional
//! jump leaves its decision in `temp_data`); the second reads the address
//! byte and moves PC.

use vstd::prelude::*;
use crate::bus::{Bus, BusAccess, BusMaster, InterruptState};
use super::{
    ExecState, I8035, PswFlag, has_flag, is_push, next_pc, page_of, popped, to_fetch,
    to_second_cycle, PORT_T1,
};

verus! {

/// The I/O address of the T0 test pin.
pub const PORT_T0: u16 = 0x110;

/// The second cycle of a conditional jump on address byte `b`: PC moves to
/// `b` within the current page when `temp_data` holds the decision to jump,
/// and past the address byte otherwise.
pub open spec fn conditional_jump(s: I8035, b: u8) -> I8035 {
    I8035 {
        pc: if s.temp_data != 0 {
            (page_of(s.pc) + b) as u16
        } else {
            next_pc(s.pc)
        },
        state: ExecState::Fetch,
        ..s
    }
}

/// The 12-bit target of JMP and CALL: A11 from the bank select, bits 10:8
/// from the opcode's top three bits, the low byte from the address byte.
pub open spec fn long_target(a11: bool, opcode: u8, b: u8) -> u16 {
    ((if a11 { 0x800int } else { 0 }) + (opcode / 32) * 256 + b) as u16
}

/// The second cycle of JMP on address byte `b`.
pub open spec fn long_jump(s: I8035, b: u8) -> I8035 {
    I8035 {
        a11: s.a11_pending,
        pc: long_target(s.a11_pending, s.opcode, b),
        state: ExecState::Fetch,
        ..s
    }
}

/// `r` is the second cycle of CALL from `s` on address byte `b`: the
/// address after the byte pushed with the PSW, then the jump.
pub open spec fn long_call(s: I8035, b: u8, r: I8035) -> bool {
    exists|p: I8035|
        is_push(I8035 { pc: next_pc(s.pc), ..s }, p) && r == (I8035 {
            a11: s.a11_pending,
            pc: long_target(s.a11_pending, s.opcode, b),
            state: ExecState::Fetch,
            ..p
        })
}

/// The second cycle of JMPP on the byte `b` fetched from the current page at A.
pub open spec fn page_jump(s: I8035, b: u8) -> I8035 {
    I8035 { pc: (page_of(s.pc) + b) as u16, state: ExecState::Fetch, ..s }
}

/// The first cycle of a conditional jump that jumps when `taken`.
pub open spec fn decided(s: I8035, taken: bool) -> I8035 {
    I8035 {
        temp_data: if taken { 1 } else { 0 },
        state: ExecState::Execute(s.opcode),
        ..s
    }
}

impl I8035 {
    /// The second cycle of a conditional jump: read the address byte, and
    /// jump within the page when `temp_data` says so.
    pub fn jump_if_temp<B: Bus<Address = u16, Data = u8> + ?Sized>(
        &mut self,
        bus: &mut B,
        master: BusMaster,
    )
        requires
            old(self).pc < 0xFFFF,
        ensures
            exists|b: u8| *final(self) == #[trigger] conditional_jump(*old(self), b)
                    && final(bus).accesses() == old(bus).accesses().push(BusAccess::Read(old(self).pc, b)),
    {
        let ghost s = *self;
        let ghost log0 = bus.accesses();
        let page = (self.pc / 256 % 16) * 256;
        let addr = bus.read(master, self.pc);
        assert(bus.accesses() == log0.push(BusAccess::Read(s.pc, addr)));
        self.pc = (self.pc + 1) % 4096;
        if self.temp_data != 0 {
            self.pc = page + addr as u16;
        }
        self.state = ExecState::Fetch;
        assert(*self == conditional_jump(s, addr));
    }

    /// JMP addr11: jump to the 12-bit address made of the memory bank, the
    /// opcode's top three bits and the address byte.
    pub fn op_jmp<B: Bus<Address = u16, Data = u8> + ?Sized>(
        &mut self,
        cycle: u8,
        bus: &mut B,
        master: BusMaster,
    )
        ensures
            cycle == 0 ==> final(bus).accesses() == old(bus).accesses(),
            cycle == 0 ==> *final(self) == to_second_cycle(*old(self)),
            cycle != 0 ==> exists|b: u8| *final(self) == #[trigger] long_jump(*old(self), b)
                && final(bus).accesses() == old(bus).accesses().push(BusAccess::Read(old(self).pc, b)),
    {
        if cycle == 0 {
            self.state = ExecState::Execute(self.opcode);
        } else {
            let ghost s = *self;
            let addr_byte = bus.read(master, self.pc);
            self.a11 = self.a11_pending;
            let high: u16 = if self.a11 {
                0x800
            } else {
                0
            };
            self.pc = high + (self.opcode as u16 / 32) * 256 + addr_byte as u16;
            self.state = ExecState::Fetch;
            assert(*self == long_jump(s, addr_byte));
        }
    }

    /// CALL addr11: push the address after the instruction with the PSW,
    /// then jump as JMP does.
    pub fn op_call<B: Bus<Address = u16, Data = u8> + ?Sized>(
        &mut self,
        cycle: u8,
        bus: &mut B,
        master: BusMaster,
    )
        requires
            old(self).pc < 0xFFFF,
        ensures
            cycle == 0 ==> final(bus).accesses() == old(bus).accesses(),
            cycle == 0 ==> *final(self) == to_second_cycle(*old(self)),
            cycle != 0 ==> exists|b: u8| #[trigger] long_call(*old(self), b, *final(self))
                && final(bus).accesses() == old(bus).accesses().push(BusAccess::Read(old(self).pc, b)),
    {
        if cycle == 0 {
            self.state = ExecState::Execute(self.opcode);
        } else {
            let ghost s = *self;
            let addr_byte = bus.read(master, self.pc);
            self.pc = (self.pc + 1) % 4096;
            let ghost before = *self;
            self.push_pc_psw();
            let ghost p = *self;
            self.a11 = self.a11_pending;
            let high: u16 = if self.a11 {
                0x800
            } else {
                0
            };
            self.pc = high + (self.opcode as u16 / 32) * 256 + addr_byte as u16;
            self.state = ExecState::Fetch;
            assert(before == (I8035 { pc: next_pc(s.pc), ..s }));
            assert(is_push(before, p));
            assert(long_call(s, addr_byte, *self));
        }
    }

    /// JMPP @A: jump within the page to the byte the page holds at A.
    pub fn op_jmpp<B: Bus<Address = u16, Data = u8> + ?Sized>(
        &mut self,
        cycle: u8,
        bus: &mut B,
        master: BusMaster,
    )
        ensures
            cycle == 0 ==> final(bus).accesses() == old(bus).accesses(),
            cycle == 0 ==> *final(self) == to_second_cycle(*old(self)),
            cycle != 0 ==> exists|b: u8| *final(self) == #[trigger] page_jump(*old(self), b)
                && final(bus).accesses() == old(bus).accesses().push(
                BusAccess::Read((page_of(old(self).pc) + old(self).a) as u16, b),
            ),
    {
        if cycle == 0 {
            self.state = ExecState::Execute(self.opcode);
        } else {
            let ghost s = *self;
            let page = (self.pc / 256 % 16) * 256;
            let target = bus.read(master, page + self.a as u16);
            self.pc = page + target as u16;
            self.state = ExecState::Fetch;
            assert(*self == page_jump(s, target));
        }
    }

    /// RET: pop PC, leaving the PSW's flags alone.
    pub fn op_ret(&mut self, cycle: u8)
        ensures
            cycle == 0 ==> *final(self) == to_second_cycle(*old(self)),
            cycle != 0 ==> *final(self) == to_fetch(popped(*old(self), false)),
    {
        if cycle == 0 {
            self.state = ExecState::Execute(self.opcode);
        } else {
            self.pop_pc_psw(false);
            self.state = ExecState::Fetch;
        }
    }

    /// RETR: pop PC and the PSW's upper nibble, and leave the interrupt so
    /// that another can be taken.
    pub fn op_retr(&mut self, cycle: u8)
        ensures
            cycle == 0 ==> *final(self) == to_second_cycle(*old(self)),
            cycle != 0 ==> *final(self) == (I8035 {
                in_interrupt: false,
                state: ExecState::Fetch,
                ..popped(*old(self), true)
            }),
    {
        if cycle == 0 {
            self.state = ExecState::Execute(self.opcode);
        } else {
            self.pop_pc_psw(true);
            self.in_interrupt = false;
            self.state = ExecState::Fetch;
        }
    }

    /// DJNZ Rn, addr: decrement register `n`, and jump while it is not zero.
    pub fn op_djnz<B: Bus<Address = u16, Data = u8> + ?Sized>(
        &mut self,
        n: u8,
        cycle: u8,
        bus: &mut B,
        master: BusMaster,
    )
        requires
            old(self).pc < 0xFFFF,
        ensures
            cycle == 0 ==> final(bus).accesses() == old(bus).accesses(),
            cycle == 0 ==> {
                let v = ((old(self).reg(n) + 255) % 256) as u8;
                &&& final(self).ram@ == old(self).ram@.update(old(self).reg_addr(n) as int, v)
                &&& *final(self) == (I8035 {
                    ram: final(self).ram,
                    ..decided(*old(self), v != 0)
                })
            },
            cycle != 0 ==> exists|b: u8|
                *final(self) == #[trigger] conditional_jump(*old(self), b)
                    && final(bus).accesses() == old(bus).accesses().push(BusAccess::Read(old(self).pc, b)),
    {
        if cycle == 0 {
            let val = Self::perform_dec(self.get_reg(n));
            self.set_reg(n, val);
            self.temp_data = if val != 0 {
                1
            } else {
                0
            };
            self.state = ExecState::Execute(self.opcode);
        } else {
            self.jump_if_temp(bus, master);
        }
    }

    /// JC addr: jump if the carry is set.
    pub fn op_jc<B: Bus<Address = u16, Data = u8> + ?Sized>(
        &mut self,
        cycle: u8,
        bus: &mut B,
        master: BusMaster,
    )
        requires
            old(self).pc < 0xFFFF,
        ensures
            cycle == 0 ==> final(bus).accesses() == old(bus).accesses(),
            cycle == 0 ==> *final(self) == decided(
                *old(self),
                has_flag(old(self).psw, PswFlag::CY),
            ),
            cycle != 0 ==> exists|b: u8|
                *final(self) == #[trigger] conditional_jump(*old(self), b)
                    && final(bus).accesses() == old(bus).accesses().push(BusAccess::Read(old(self).pc, b)),
    {
        if cycle == 0 {
            self.temp_data = if self.flag_set(PswFlag::CY) {
                1
            } else {
                0
            };
            self.state = ExecState::Execute(self.opcode);
        } else {
            self.jump_if_temp(bus, master);
        }
    }

    /// JNC addr: jump if the carry is clear.
    pub fn op_jnc<B: Bus<Address = u16, Data = u8> + ?Sized>(
        &mut self,
        cycle: u8,
        bus: &mut B,
        master: BusMaster,
    )
        requires
            old(self).pc < 0xFFFF,
        ensures
            cycle == 0 ==> final(bus).accesses() == old(bus).accesses(),
            cycle == 0 ==> *final(self) == decided(
                *old(self),
                !has_flag(old(self).psw, PswFlag::CY),
            ),
            cycle != 0 ==> exists|b: u8|
                *final(self) == #[trigger] conditional_jump(*old(self), b)
                    && final(bus).accesses() == old(bus).accesses().push(BusAccess::Read(old(self).pc, b)),
    {
        if cycle == 0 {
            self.temp_data = if !self.flag_set(PswFlag::CY) {
                1
            } else {
                0
            };
            self.state = ExecState::Execute(self.opcode);
        } else {
            self.jump_if_temp(bus, master);
        }
    }

    /// JZ addr: jump if A is zero.
    pub fn op_jz<B: Bus<Address = u16, Data = u8> + ?Sized>(
        &mut self,
        cycle: u8,
        bus: &mut B,
        master: BusMaster,
    )
        requires
            old(self).pc < 0xFFFF,
        ensures
            cycle == 0 ==> final(bus).accesses() == old(bus).accesses(),
            cycle == 0 ==> *final(self) == decided(*old(self), old(self).a == 0),
            cycle != 0 ==> exists|b: u8|
                *final(self) == #[trigger] conditional_jump(*old(self), b)
                    && final(bus).accesses() == old(bus).accesses().push(BusAccess::Read(old(self).pc, b)),
    {
        if cycle == 0 {
            self.temp_data = if self.a == 0 {
                1
            } else {
                0
            };
            self.state = ExecState::Execute(self.opcode);
        } else {
            self.jump_if_temp(bus, master);
        }
    }

    /// JNZ addr: jump if A is not zero.
    pub fn op_jnz<B: Bus<Address = u16, Data = u8> + ?Sized>(
        &mut self,
        cycle: u8,
        bus: &mut B,
        master: BusMaster,
    )
        requires
            old(self).pc < 0xFFFF,
        ensures
            cycle == 0 ==> final(bus).accesses() == old(bus).accesses(),
            cycle == 0 ==> *final(self) == decided(*old(self), old(self).a != 0),
            cycle != 0 ==> exists|b: u8|
                *final(self) == #[trigger] conditional_jump(*old(self), b)
                    && final(bus).accesses() == old(bus).accesses().push(BusAccess::Read(old(self).pc, b)),
    {
        if cycle == 0 {
            self.temp_data = if self.a != 0 {
                1
            } else {
                0
            };
            self.state = ExecState::Execute(self.opcode);
        } else {
            self.jump_if_temp(bus, master);
        }
    }

    /// JF0 addr: jump if flag F0 is set.
    pub fn op_jf0<B: Bus<Address = u16, Data = u8> + ?Sized>(
        &mut self,
        cycle: u8,
        bus: &mut B,
        master: BusMaster,
    )
        requires
            old(self).pc < 0xFFFF,
        ensures
            cycle == 0 ==> final(bus).accesses() == old(bus).accesses(),
            cycle == 0 ==> *final(self) == decided(
                *old(self),
                has_flag(old(self).psw, PswFlag::F0),
            ),
            cycle != 0 ==> exists|b: u8|
                *final(self) == #[trigger] conditional_jump(*old(self), b)
                    && final(bus).accesses() == old(bus).accesses().push(BusAccess::Read(old(self).pc, b)),
    {
        if cycle == 0 {
            self.temp_data = if self.flag_set(PswFlag::F0) {
                1
            } else {
                0
            };
            self.state = ExecState::Execute(self.opcode);
        } else {
            self.jump_if_temp(bus, master);
        }
    }

    /// JF1 addr: jump if flag F1 is set.
    pub fn op_jf1<B: Bus<Address = u16, Data = u8> + ?Sized>(
        &mut self,
        cycle: u8,
        bus: &mut B,
        master: BusMaster,
    )
        requires
            old(self).pc < 0xFFFF,
        ensures
            cycle == 0 ==> final(bus).accesses() == old(bus).accesses(),
            cycle == 0 ==> *final(self) == decided(*old(self), old(self).f1),
            cycle != 0 ==> exists|b: u8|
                *final(self) == #[trigger] conditional_jump(*old(self), b)
                    && final(bus).accesses() == old(bus).accesses().push(BusAccess::Read(old(self).pc, b)),
    {
        if cycle == 0 {
            self.temp_data = if self.f1 {
                1
            } else {
                0
            };
            self.state = ExecState::Execute(self.opcode);
        } else {
            self.jump_if_temp(bus, master);
        }
    }

    /// JT0 addr: jump if the T0 pin reads high.
    pub fn op_jt0<B: Bus<Address = u16, Data = u8> + ?Sized>(
        &mut self,
        cycle: u8,
        bus: &mut B,
        master: BusMaster,
    )
        requires
            old(self).pc < 0xFFFF,
        ensures
            cycle == 0 ==> final(bus).accesses() == old(bus).accesses(),
            cycle == 0 ==> exists|t: bool| *final(self) == #[trigger] decided(*old(self), t),
            cycle != 0 ==> exists|b: u8|
                *final(self) == #[trigger] conditional_jump(*old(self), b)
                    && final(bus).accesses() == old(bus).accesses().push(BusAccess::Read(old(self).pc, b)),
    {
        if cycle == 0 {
            let ghost s = *self;
            let t0 = bus.io_read(master, PORT_T0) != 0;
            self.temp_data = if t0 {
                1
            } else {
                0
            };
            self.state = ExecState::Execute(self.opcode);
            assert(*self == decided(s, t0));
        } else {
            self.jump_if_temp(bus, master);
        }
    }

    /// JNT0 addr: jump if the T0 pin reads low.
    pub fn op_jnt0<B: Bus<Address = u16, Data = u8> + ?Sized>(
        &mut self,
        cycle: u8,
        bus: &mut B,
        master: BusMaster,
    )
        requires
            old(self).pc < 0xFFFF,
        ensures
            cycle == 0 ==> final(bus).accesses() == old(bus).accesses(),
            cycle == 0 ==> exists|t: bool| *final(self) == #[trigger] decided(*old(self), t),
            cycle != 0 ==> exists|b: u8|
                *final(self) == #[trigger] conditional_jump(*old(self), b)
                    && final(bus).accesses() == old(bus).accesses().push(BusAccess::Read(old(self).pc, b)),
    {
        if cycle == 0 {
            let ghost s = *self;
            let low = bus.io_read(master, PORT_T0) == 0;
            self.temp_data = if low {
                1
            } else {
                0
            };
            self.state = ExecState::Execute(self.opcode);
            assert(*self == decided(s, low));
        } else {
            self.jump_if_temp(bus, master);
        }
    }

    /// JT1 addr: jump if the T1 pin reads high.
    pub fn op_jt1<B: Bus<Address = u16, Data = u8> + ?Sized>(
        &mut self,
        cycle: u8,
        bus: &mut B,
        master: BusMaster,
    )
        requires
            old(self).pc < 0xFFFF,
        ensures
            cycle == 0 ==> final(bus).accesses() == old(bus).accesses(),
            cycle == 0 ==> exists|t: bool| *final(self) == #[trigger] decided(*old(self), t),
            cycle != 0 ==> exists|b: u8|
                *final(self) == #[trigger] conditional_jump(*old(self), b)
                    && final(bus).accesses() == old(bus).accesses().push(BusAccess::Read(old(self).pc, b)),
    {
        if cycle == 0 {
            let ghost s = *self;
            let t1 = bus.io_read(master, PORT_T1) != 0;
            self.temp_data = if t1 {
                1
            } else {
                0
            };
            self.state = ExecState::Execute(self.opcode);
            assert(*self == decided(s, t1));
        } else {
            self.jump_if_temp(bus, master);
        }
    }

    /// JNT1 addr: jump if the T1 pin reads low.
    pub fn op_jnt1<B: Bus<Address = u16, Data = u8> + ?Sized>(
        &mut self,
        cycle: u8,
        bus: &mut B,
        master: BusMaster,
    )
        requires
            old(self).pc < 0xFFFF,
        ensures
            cycle == 0 ==> final(bus).accesses() == old(bus).accesses(),
            cycle == 0 ==> exists|t: bool| *final(self) == #[trigger] decided(*old(self), t),
            cycle != 0 ==> exists|b: u8|
                *final(self) == #[trigger] conditional_jump(*old(self), b)
                    && final(bus).accesses() == old(bus).accesses().push(BusAccess::Read(old(self).pc, b)),
    {
        if cycle == 0 {
            let ghost s = *self;
            let low = bus.io_read(master, PORT_T1) == 0;
            self.temp_data = if low {
                1
            } else {
                0
            };
            self.state = ExecState::Execute(self.opcode);
            assert(*self == decided(s, low));
        } else {
            self.jump_if_temp(bus, master);
        }
    }

    /// JTF addr: jump if the timer has overflowed, clearing the flag.
    pub fn op_jtf<B: Bus<Address = u16, Data = u8> + ?Sized>(
        &mut self,
        cycle: u8,
        bus: &mut B,
        master: BusMaster,
    )
        requires
            old(self).pc < 0xFFFF,
        ensures
            cycle == 0 ==> final(bus).accesses() == old(bus).accesses(),
            cycle == 0 ==> *final(self) == (I8035 {
                timer_overflow: false,
                ..decided(*old(self), old(self).timer_overflow)
            }),
            cycle != 0 ==> exists|b: u8|
                *final(self) == #[trigger] conditional_jump(*old(self), b)
                    && final(bus).accesses() == old(bus).accesses().push(BusAccess::Read(old(self).pc, b)),
    {
        if cycle == 0 {
            self.temp_data = if self.timer_overflow {
                1
            } else {
                0
            };
            self.timer_overflow = false;
            self.state = ExecState::Execute(self.opcode);
        } else {
            self.jump_if_temp(bus, master);
        }
    }

    /// JNI addr: jump if the interrupt line is asserted.
    pub fn op_jni<B: Bus<Address = u16, Data = u8> + ?Sized>(
        &mut self,
        cycle: u8,
        bus: &mut B,
        master: BusMaster,
    )
        requires
            old(self).pc < 0xFFFF,
        ensures
            cycle == 0 ==> exists|ints: InterruptState|
                *final(self) == #[trigger] decided(*old(self), ints.irq) && final(bus).accesses()
                    == old(bus).accesses().push(BusAccess::Poll(ints)),
            cycle != 0 ==> exists|b: u8|
                *final(self) == #[trigger] conditional_jump(*old(self), b)
                    && final(bus).accesses() == old(bus).accesses().push(BusAccess::Read(old(self).pc, b)),
    {
        if cycle == 0 {
            let ghost s = *self;
            let ints = bus.check_interrupts(master);
            self.temp_data = if ints.irq {
                1
            } else {
                0
            };
            self.state = ExecState::Execute(self.opcode);
            assert(*self == decided(s, ints.irq));
        } else {
            self.jump_if_temp(bus, master);
        }
    }

    /// JBb addr: jump if bit `bit` of A is set.
    pub fn op_jbb<B: Bus<Address = u16, Data = u8> + ?Sized>(
        &mut self,
        bit: u8,
        cycle: u8,
        bus: &mut B,
        master: BusMaster,
    )
        requires
            bit < 8,
            old(self).pc < 0xFFFF,
        ensures
            cycle == 0 ==> final(bus).accesses() == old(bus).accesses(),
            cycle == 0 ==> *final(self) == decided(*old(self), (old(self).a >> bit) & 1 != 0),
            cycle != 0 ==> exists|b: u8|
                *final(self) == #[trigger] conditional_jump(*old(self), b)
                    && final(bus).accesses() == old(bus).accesses().push(BusAccess::Read(old(self).pc, b)),
    {
        if cycle == 0 {
            self.temp_data = if (self.a >> bit) & 1 != 0 {
                1
            } else {
                0
            };
            self.state = ExecState::Execute(self.opcode);
        } else {
            self.jump_if_temp(bus, master);
        }
    }
}

} // verus!
