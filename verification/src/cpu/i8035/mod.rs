//! Intel 8035 (MCS-48) CPU core.
//!
//! An 8-bit microcontroller with a 12-bit program counter, 64 bytes of
//! internal RAM holding two register banks and an eight-level stack, a timer
//! and an event counter. Each call to `execute_cycle` runs one machine cycle;
//! two-cycle instructions finish on the second.

pub mod alu;
pub mod branch;
pub mod load_store;

use vstd::prelude::*;
use crate::bus::{Bus, BusAccess, BusMaster, InterruptState};

verus! {

/// The PSW's flag bits.
#[derive(Copy, Clone, Debug, PartialEq, Eq, Structural)]
pub enum PswFlag {
    /// Carry, bit 7.
    CY,
    /// Auxiliary carry, bit 6.
    AC,
    /// User flag 0, bit 5.
    F0,
    /// Register bank select, bit 4.
    BS,
}

/// A flag's bit in the PSW.
pub open spec fn psw_mask(flag: PswFlag) -> u8 {
    match flag {
        PswFlag::CY => 0x80,
        PswFlag::AC => 0x40,
        PswFlag::F0 => 0x20,
        PswFlag::BS => 0x10,
    }
}

/// Whether `flag` is set in `psw`.
pub open spec fn has_flag(psw: u8, flag: PswFlag) -> bool {
    psw & psw_mask(flag) != 0
}

/// `psw` with `flag` forced to `set`.
pub open spec fn with_flag(psw: u8, flag: PswFlag, set: bool) -> u8 {
    if set {
        psw | psw_mask(flag)
    } else {
        psw & !psw_mask(flag)
    }
}

/// Where the core is in its machine-cycle sequence.
#[derive(Clone, Copy, Debug, PartialEq, Eq, Structural)]
pub enum ExecState {
    /// Fetch the next opcode.
    Fetch,
    /// The second machine cycle of a two-cycle instruction.
    Execute(u8),
    /// The hardware interrupt entry sequence.
    Interrupt(u8),
    /// Halted (reserved; the standard part never stops).
    Stopped,
}

/// The Intel 8035.
pub struct I8035 {
    pub a: u8,
    pub pc: u16,
    pub psw: u8,
    pub f1: bool,
    pub t: u8,
    pub dbbb: u8,
    pub p1: u8,
    pub p2: u8,
    /// Internal RAM, sized for the largest MCS-48 part; the 8035 uses 64.
    pub ram: [u8; 256],
    pub ram_mask: u8,
    pub a11: bool,
    pub a11_pending: bool,
    pub timer_enabled: bool,
    pub counter_enabled: bool,
    pub timer_overflow: bool,
    pub t1_prev: bool,
    pub int_enabled: bool,
    pub tcnti_enabled: bool,
    pub in_interrupt: bool,
    pub irq_pending: bool,
    pub timer_irq_pending: bool,
    pub state: ExecState,
    pub opcode: u8,
    pub temp_data: u8,
}

/// A snapshot of the 8035's architectural registers.
#[derive(Debug, Clone, PartialEq, Eq)]
pub struct I8035State {
    pub a: u8,
    pub pc: u16,
    pub psw: u8,
    pub f1: bool,
    pub t: u8,
    pub dbbb: u8,
    pub p1: u8,
    pub p2: u8,
}

/// The I/O address of the T1 test pin, the counter's input.
pub const PORT_T1: u16 = 0x111;

/// `p` is `s` after pushing PC and PSW: PC's low byte at `8 + 2 * SP`, then
/// PSW[7:4] with PC[11:8], and SP one up within eight levels.
pub open spec fn is_push(s: I8035, p: I8035) -> bool {
    let sp = s.psw % 8;
    let addr = (2 * sp + 8) as u8;
    let lo = (s.pc % 256) as u8;
    let hi = ((s.pc / 256) % 16 + (s.psw / 16) * 16) as u8;
    &&& p.ram@ == s.ram@.update((addr & s.ram_mask) as int, lo).update(
        ((addr + 1) as u8 & s.ram_mask) as int,
        hi,
    )
    &&& p == (I8035 { ram: p.ram, psw: ((s.psw / 8) * 8 + (sp + 1) % 8) as u8, ..s })
}

/// `p` after popping PC (and, with `restore_psw`, PSW[7:4]): SP one down
/// within eight levels, PC from the entry there.
pub open spec fn popped(p: I8035, restore_psw: bool) -> I8035 {
    let sp = ((p.psw % 8 + 7) % 8) as u8;
    let addr = (2 * sp + 8) as u8;
    let lo = p.ram@[(addr & p.ram_mask) as int];
    let hi = p.ram@[((addr + 1) as u8 & p.ram_mask) as int];
    let psw1 = ((p.psw / 8) * 8 + sp) as u8;
    I8035 {
        psw: if restore_psw { (psw1 % 16 + (hi / 16) * 16) as u8 } else { psw1 },
        pc: ((hi % 16) * 256 + lo) as u16,
        ..p
    }
}

/// `r` is `p` after a pop.
pub open spec fn is_pop(p: I8035, r: I8035, restore_psw: bool) -> bool {
    r == popped(p, restore_psw)
}

/// `s` moved on to the second machine cycle of the opcode it holds.
pub open spec fn to_second_cycle(s: I8035) -> I8035 {
    I8035 { state: ExecState::Execute(s.opcode), ..s }
}

/// `s` back at an instruction boundary.
pub open spec fn to_fetch(s: I8035) -> I8035 {
    I8035 { state: ExecState::Fetch, ..s }
}

/// The start of a page of program memory: PC[11:8].
pub open spec fn page_of(pc: u16) -> int {
    (pc / 256 % 16) * 256
}

/// The next program counter: one on, within the 4K program space.
pub open spec fn next_pc(pc: u16) -> u16 {
    ((pc + 1) % 4096) as u16
}

/// `s` with T one up; a wrap sets the overflow flag and, with the timer
/// interrupt enabled, its request.
pub open spec fn t_incremented(s: I8035) -> I8035 {
    I8035 {
        t: ((s.t + 1) % 256) as u8,
        timer_overflow: s.timer_overflow || s.t == 255,
        timer_irq_pending: s.timer_irq_pending || (s.t == 255 && s.tcnti_enabled),
        ..s
    }
}

/// One machine cycle of the timer and counter, the T1 pin reading `t1`:
/// the timer counts every cycle, the counter each falling edge of T1.
pub open spec fn ticked(s: I8035, t1: bool) -> I8035 {
    let s1 = if s.timer_enabled { t_incremented(s) } else { s };
    if s.counter_enabled {
        let s2 = if s1.t1_prev && !t1 { t_incremented(s1) } else { s1 };
        I8035 { t1_prev: t1, ..s2 }
    } else {
        s1
    }
}

/// The interrupt check at an instruction boundary: whether one was taken,
/// and the core after it. The external interrupt (enabled, not already in
/// one, line asserted) wins over a timer overflow (enabled, pending, not
/// already in one).
pub open spec fn interrupt_check(s: I8035, irq: bool) -> (bool, I8035) {
    if s.int_enabled && !s.in_interrupt && irq {
        (true, I8035 { irq_pending: true, state: ExecState::Interrupt(0), ..s })
    } else if s.tcnti_enabled && s.timer_irq_pending && !s.in_interrupt {
        (true, I8035 { state: ExecState::Interrupt(0), ..s })
    } else {
        (false, s)
    }
}

/// One step of the interrupt entry sequence: cycle 0 pushes PC and PSW,
/// disables interrupts and marks the core in an interrupt; cycle 1 jumps to
/// 0x003 for the external interrupt or 0x007 for the timer, clearing the
/// request it served.
pub open spec fn interrupt_next(s: I8035, cycle: u8, r: I8035) -> bool {
    if cycle == 0 {
        exists|p: I8035|
            #[trigger] is_push(s, p) && r == (I8035 {
                int_enabled: false,
                in_interrupt: true,
                state: ExecState::Interrupt(1),
                ..p
            })
    } else if cycle == 1 {
        r == (I8035 {
            pc: if s.irq_pending {
                0x003
            } else if s.timer_irq_pending {
                0x007
            } else {
                s.pc
            },
            irq_pending: false,
            timer_irq_pending: s.timer_irq_pending && s.irq_pending,
            state: ExecState::Fetch,
            ..s
        })
    } else {
        r == to_fetch(s)
    }
}

/// One machine cycle from `s`, given the interrupt line `irq`, the byte
/// `b` the bus gave at PC and the T1 pin `t1`: the interrupt check and
/// fetch at a boundary (every opcode then running as a one-cycle NOP), or
/// the instruction's second cycle, or a step of the interrupt sequence;
/// then the timer and counter. A stopped core does nothing.
pub open spec fn cycle_next(s: I8035, irq: bool, b: u8, t1: bool, r: I8035) -> bool {
    match s.state {
        ExecState::Fetch => {
            let (taken, h) = interrupt_check(s, irq);
            if taken {
                r == ticked(h, t1)
            } else {
                r == ticked(I8035 { opcode: b, pc: next_pc(s.pc), state: ExecState::Fetch, ..s }, t1)
            }
        },
        ExecState::Execute(op) => r == ticked(to_fetch(s), t1),
        ExecState::Interrupt(c) => exists|m: I8035| #[trigger] interrupt_next(s, c, m) && r == ticked(m, t1),
        ExecState::Stopped => r == s,
    }
}

/// Interrupt lines all low, with no vector.
pub open spec fn quiet_lines() -> InterruptState {
    InterruptState { nmi: false, irq: false, firq: false, irq_vector: 0 }
}

/// The bus transactions of a machine cycle from `s`, given the interrupt
/// lines `ints` and the byte `b` the bus gave: at an instruction boundary
/// one look at the interrupt lines, showing `ints`, then, when no interrupt
/// is taken, the opcode fetch at PC; none in any other cycle.
pub open spec fn cycle_accesses(s: I8035, ints: InterruptState, b: u8) -> Seq<BusAccess<u16, u8>> {
    if s.state == ExecState::Fetch {
        if interrupt_check(s, ints.irq).0 {
            seq![BusAccess::Poll(ints)]
        } else {
            seq![BusAccess::Poll(ints), BusAccess::Read(s.pc, b)]
        }
    } else {
        seq![]
    }
}

impl I8035 {
    /// The RAM address of the active bank's register `n`: bank 0 at 0x00,
    /// bank 1 (BS set) at 0x18.
    pub open spec fn reg_addr(&self, n: u8) -> u8 {
        ((if has_flag(self.psw, PswFlag::BS) { 0x18u8 } else { 0u8 }) + n % 8) as u8
            & self.ram_mask
    }

    /// The RAM byte at `addr`, masked to the part's RAM.
    pub open spec fn ram_at(&self, addr: u8) -> u8 {
        self.ram@[(addr & self.ram_mask) as int]
    }

    /// Register `n` of the active bank.
    pub open spec fn reg(&self, n: u8) -> u8 {
        self.ram@[self.reg_addr(n) as int]
    }

    /// This core with RAM byte `addr` (masked) set to `val`.
    pub open spec fn ram_written(&self, addr: u8, val: u8) -> Seq<u8> {
        self.ram@.update((addr & self.ram_mask) as int, val)
    }

    /// The power-on state.
    pub open spec fn is_power_on(&self) -> bool {
        &&& self.a == 0 && self.pc == 0 && self.psw == 0 && !self.f1 && self.t == 0
        &&& self.dbbb == 0xFF && self.p1 == 0xFF && self.p2 == 0xFF
        &&& forall|k: int| 0 <= k < 256 ==> self.ram@[k] == 0
        &&& self.ram_mask == 0x3F
        &&& !self.a11 && !self.a11_pending
        &&& !self.timer_enabled && !self.counter_enabled && !self.timer_overflow && !self.t1_prev
        &&& !self.int_enabled && !self.tcnti_enabled && !self.in_interrupt
        &&& !self.irq_pending && !self.timer_irq_pending
        &&& self.state == ExecState::Fetch
        &&& self.opcode == 0 && self.temp_data == 0
    }

    /// A core in its power-on state: everything zero but the three output
    /// latches (all ones), 64 bytes of RAM, and about to fetch.
    pub fn new() -> (r: Self)
        ensures
            r.is_power_on(),
    {
        I8035 {
            a: 0,
            pc: 0,
            psw: 0,
            f1: false,
            t: 0,
            dbbb: 0xFF,
            p1: 0xFF,
            p2: 0xFF,
            ram: [0u8; 256],
            ram_mask: 0x3F,
            a11: false,
            a11_pending: false,
            timer_enabled: false,
            counter_enabled: false,
            timer_overflow: false,
            t1_prev: false,
            int_enabled: false,
            tcnti_enabled: false,
            in_interrupt: false,
            irq_pending: false,
            timer_irq_pending: false,
            state: ExecState::Fetch,
            opcode: 0,
            temp_data: 0,
        }
    }

    /// Set or clear a PSW flag.
    pub fn set_flag(&mut self, flag: PswFlag, set: bool)
        ensures
            *final(self) == (I8035 { psw: with_flag(old(self).psw, flag, set), ..*old(self) }),
    {
        let m: u8 = match flag {
            PswFlag::CY => 0x80,
            PswFlag::AC => 0x40,
            PswFlag::F0 => 0x20,
            PswFlag::BS => 0x10,
        };
        if set {
            self.psw = self.psw | m;
        } else {
            self.psw = self.psw & !m;
        }
    }

    /// Whether a PSW flag is set.
    pub fn flag_set(&self, flag: PswFlag) -> (r: bool)
        ensures
            r == has_flag(self.psw, flag),
    {
        let m: u8 = match flag {
            PswFlag::CY => 0x80,
            PswFlag::AC => 0x40,
            PswFlag::F0 => 0x20,
            PswFlag::BS => 0x10,
        };
        self.psw & m != 0
    }

    /// The RAM base of the active register bank.
    pub fn reg_bank_offset(&self) -> (r: u8)
        ensures
            r == if has_flag(self.psw, PswFlag::BS) { 0x18u8 } else { 0u8 },
    {
        if self.flag_set(PswFlag::BS) {
            0x18
        } else {
            0x00
        }
    }

    /// Register `n` (0-7) of the active bank.
    pub fn get_reg(&self, n: u8) -> (r: u8)
        ensures
            r == self.reg(n),
    {
        let addr = self.reg_bank_offset() + n % 8;
        self.ram[(addr & self.ram_mask) as usize]
    }

    /// Set register `n` (0-7) of the active bank.
    pub fn set_reg(&mut self, n: u8, val: u8)
        ensures
            final(self).ram@ == old(self).ram@.update(old(self).reg_addr(n) as int, val),
            *final(self) == (I8035 { ram: final(self).ram, ..*old(self) }),
    {
        let addr = self.reg_bank_offset() + n % 8;
        self.ram[(addr & self.ram_mask) as usize] = val;
    }

    /// Read internal RAM at `addr`, masked to the part's RAM.
    pub fn read_ram(&self, addr: u8) -> (r: u8)
        ensures
            r == self.ram_at(addr),
    {
        self.ram[(addr & self.ram_mask) as usize]
    }

    /// Write internal RAM at `addr`, masked to the part's RAM.
    pub fn write_ram(&mut self, addr: u8, val: u8)
        ensures
            final(self).ram@ == old(self).ram_written(addr, val),
            *final(self) == (I8035 { ram: final(self).ram, ..*old(self) }),
    {
        self.ram[(addr & self.ram_mask) as usize] = val;
    }

    /// The PSW's stack pointer, bits 2:0.
    pub open spec fn sp(&self) -> u8 {
        self.psw % 8
    }

    /// Push PC and the PSW's upper nibble onto the internal stack at
    /// `8 + 2 * SP`: PC's low byte, then PSW[7:4] with PC[11:8]. SP moves up
    /// one, wrapping within eight levels.
    pub fn push_pc_psw(&mut self)
        ensures
            is_push(*old(self), *final(self)),
    {
        let sp = self.psw % 8;
        let addr = 2 * sp + 8;
        let lo = (self.pc % 256) as u8;
        let hi = ((self.pc / 256) % 16) as u8 + (self.psw / 16) * 16;
        self.write_ram(addr, lo);
        self.write_ram(addr + 1, hi);
        let new_sp = (sp + 1) % 8;
        self.psw = (self.psw / 8) * 8 + new_sp;
    }

    /// Pop PC from the internal stack: SP moves down one, and PC comes from
    /// the entry there. `restore_psw` (RETR) also restores the PSW's upper
    /// nibble from it; RET leaves the PSW's flags alone.
    pub fn pop_pc_psw(&mut self, restore_psw: bool)
        ensures
            is_pop(*old(self), *final(self), restore_psw),
    {
        let sp = (self.psw % 8 + 7) % 8;
        self.psw = (self.psw / 8) * 8 + sp;
        let addr = 2 * sp + 8;
        let lo = self.read_ram(addr);
        let hi = self.read_ram(addr + 1);
        self.pc = ((hi % 16) as u16) * 256 + lo as u16;
        if restore_psw {
            self.psw = self.psw % 16 + (hi / 16) * 16;
        }
    }

    /// Increment the timer register; on a wrap, set the overflow flag and,
    /// with the timer interrupt enabled, its request.
    pub fn increment_t(&mut self)
        ensures
            *final(self) == t_incremented(*old(self)),
    {
        if self.t == 255 {
            self.t = 0;
            self.timer_overflow = true;
            if self.tcnti_enabled {
                self.timer_irq_pending = true;
            }
        } else {
            self.t = self.t + 1;
        }
    }

    /// Advance the timer and the counter by one machine cycle: the timer
    /// counts every cycle, the counter each falling edge of T1.
    pub fn tick_timer_counter<B: Bus<Address = u16, Data = u8> + ?Sized>(
        &mut self,
        bus: &mut B,
        master: BusMaster,
    )
        ensures
            exists|t1: bool| *final(self) == #[trigger] ticked(*old(self), t1),
            !old(self).counter_enabled ==> *final(self) == ticked(*old(self), false),
            final(bus).accesses() == old(bus).accesses(),
    {
        let ghost s = *self;
        if self.timer_enabled {
            self.increment_t();
        }
        if self.counter_enabled {
            let t1 = bus.io_read(master, PORT_T1) != 0;
            if self.t1_prev && !t1 {
                self.increment_t();
            }
            self.t1_prev = t1;
            assert(*self == ticked(s, t1));
        } else {
            assert(*self == ticked(s, false));
        }
    }

    /// Execute one machine cycle: at an instruction boundary take a pending
    /// interrupt or fetch and run the next opcode; otherwise run the second
    /// cycle of a two-cycle instruction or the interrupt sequence. The timer
    /// and counter tick on every cycle but a stopped one.
    pub fn execute_cycle<B: Bus<Address = u16, Data = u8> + ?Sized>(
        &mut self,
        bus: &mut B,
        master: BusMaster,
    )
        requires
            old(self).pc < 0xFFFF,
        ensures
            exists|ints: InterruptState, b: u8, t1: bool|
                #[trigger] cycle_next(*old(self), ints.irq, b, t1, *final(self))
                    && final(bus).accesses() == old(bus).accesses() + cycle_accesses(
                    *old(self),
                    ints,
                    b,
                ),
            final(self).pc <= 0x0FFF || final(self).pc == old(self).pc,
    {
        let ghost s = *self;
        let ghost log0 = bus.accesses();
        match self.state {
            ExecState::Fetch => {
                let ints = bus.check_interrupts(master);
                if self.handle_interrupts(ints) {
                    let ghost h = *self;
                    self.tick_timer_counter(bus, master);
                    proof {
                        let t1 = choose|t1: bool| *self == ticked(h, t1);
                        assert(cycle_next(s, ints.irq, 0, t1, *self));
                        assert(bus.accesses() =~= log0 + cycle_accesses(s, ints, 0));
                    }
                    return;
                }
                let b = bus.read(master, self.pc);
                self.opcode = b;
                self.pc = (self.pc + 1) % 4096;
                let op = self.opcode;
                self.execute_instruction(op, 0);
                let ghost m = *self;
                self.tick_timer_counter(bus, master);
                proof {
                    let t1 = choose|t1: bool| *self == ticked(m, t1);
                    assert(cycle_next(s, ints.irq, b, t1, *self));
                    assert(bus.accesses() =~= log0 + cycle_accesses(s, ints, b));
                }
            },
            ExecState::Execute(op) => {
                self.execute_instruction(op, 1);
                let ghost m = *self;
                self.tick_timer_counter(bus, master);
                proof {
                    let t1 = choose|t1: bool| *self == ticked(m, t1);
                    assert(cycle_next(s, quiet_lines().irq, 0, t1, *self));
                    assert(bus.accesses() =~= log0 + cycle_accesses(s, quiet_lines(), 0));
                }
            },
            ExecState::Interrupt(cycle) => {
                self.execute_interrupt(cycle);
                let ghost m = *self;
                self.tick_timer_counter(bus, master);
                proof {
                    let t1 = choose|t1: bool| *self == ticked(m, t1);
                    assert(interrupt_next(s, cycle, m));
                    assert(cycle_next(s, quiet_lines().irq, 0, t1, *self));
                    assert(bus.accesses() =~= log0 + cycle_accesses(s, quiet_lines(), 0));
                }
            },
            ExecState::Stopped => {
                assert(cycle_next(s, quiet_lines().irq, 0, false, *self));
                assert(bus.accesses() =~= log0 + cycle_accesses(s, quiet_lines(), 0));
            },
        }
    }

    /// One machine cycle as a bus master, then whether the core sits at an
    /// instruction boundary (about to fetch).
    pub fn tick_with_bus<B: Bus<Address = u16, Data = u8> + ?Sized>(
        &mut self,
        bus: &mut B,
        master: BusMaster,
    ) -> (boundary: bool)
        requires
            old(self).pc < 0xFFFF,
        ensures
            exists|ints: InterruptState, b: u8, t1: bool|
                #[trigger] cycle_next(*old(self), ints.irq, b, t1, *final(self))
                    && final(bus).accesses() == old(bus).accesses() + cycle_accesses(
                    *old(self),
                    ints,
                    b,
                ),
            boundary == (final(self).state == ExecState::Fetch),
    {
        self.execute_cycle(bus, master);
        match self.state {
            ExecState::Fetch => true,
            _ => false,
        }
    }

    /// Run cycle `cycle` of `opcode`. NOP, and every opcode not yet wired
    /// in, take one cycle and do nothing.
    pub fn execute_instruction(&mut self, opcode: u8, cycle: u8)
        ensures
            *final(self) == (I8035 { state: ExecState::Fetch, ..*old(self) }),
    {
        match opcode {
            0x00 => {
                self.state = ExecState::Fetch;
            },
            _ => {
                self.state = ExecState::Fetch;
            },
        }
    }

    /// Check for interrupts at an instruction boundary. The external
    /// interrupt (enabled, not already in one, line asserted) wins over a
    /// timer overflow (enabled, pending, not already in one); either starts
    /// the entry sequence. Returns whether one was taken.
    pub fn handle_interrupts(&mut self, ints: InterruptState) -> (taken: bool)
        ensures
            (taken, *final(self)) == interrupt_check(*old(self), ints.irq),
    {
        if self.int_enabled && !self.in_interrupt && ints.irq {
            self.irq_pending = true;
            self.state = ExecState::Interrupt(0);
            return true;
        }
        if self.tcnti_enabled && self.timer_irq_pending && !self.in_interrupt {
            self.state = ExecState::Interrupt(0);
            return true;
        }
        false
    }

    /// The interrupt entry sequence. Cycle 0 pushes PC and PSW, disables
    /// interrupts and marks the core in an interrupt; cycle 1 jumps to 0x003
    /// for the external interrupt or 0x007 for the timer, clearing the
    /// request it served.
    pub fn execute_interrupt(&mut self, cycle: u8)
        ensures
            interrupt_next(*old(self), cycle, *final(self)),
    {
        match cycle {
            0 => {
                let ghost s = *self;
                self.push_pc_psw();
                let ghost p = *self;
                self.int_enabled = false;
                self.in_interrupt = true;
                self.state = ExecState::Interrupt(1);
                assert(is_push(s, p));
            },
            1 => {
                if self.irq_pending {
                    self.irq_pending = false;
                    self.pc = 0x003;
                } else if self.timer_irq_pending {
                    self.timer_irq_pending = false;
                    self.pc = 0x007;
                }
                self.state = ExecState::Fetch;
            },
            _ => self.state = ExecState::Fetch,
        }
    }

    /// Reset: PC and PSW to zero, the memory bank, timer, counter and
    /// interrupt state cleared, about to fetch. A, RAM and the port latches
    /// keep what they held.
    pub fn reset(&mut self)
        ensures
            *final(self) == (I8035 {
                pc: 0,
                psw: 0,
                a11: false,
                a11_pending: false,
                timer_enabled: false,
                counter_enabled: false,
                timer_overflow: false,
                int_enabled: false,
                tcnti_enabled: false,
                in_interrupt: false,
                irq_pending: false,
                timer_irq_pending: false,
                state: ExecState::Fetch,
                ..*old(self)
            }),
    {
        self.pc = 0;
        self.psw = 0;
        self.a11 = false;
        self.a11_pending = false;
        self.timer_enabled = false;
        self.counter_enabled = false;
        self.timer_overflow = false;
        self.int_enabled = false;
        self.tcnti_enabled = false;
        self.in_interrupt = false;
        self.irq_pending = false;
        self.timer_irq_pending = false;
        self.state = ExecState::Fetch;
    }

    /// Whether the core is stopped.
    pub fn is_sleeping(&self) -> (r: bool)
        ensures
            r == (self.state == ExecState::Stopped),
    {
        match self.state {
            ExecState::Stopped => true,
            _ => false,
        }
    }

    /// The architectural registers.
    pub fn snapshot(&self) -> (r: I8035State)
        ensures
            r == (I8035State {
                a: self.a,
                pc: self.pc,
                psw: self.psw,
                f1: self.f1,
                t: self.t,
                dbbb: self.dbbb,
                p1: self.p1,
                p2: self.p2,
            }),
    {
        I8035State {
            a: self.a,
            pc: self.pc,
            psw: self.psw,
            f1: self.f1,
            t: self.t,
            dbbb: self.dbbb,
            p1: self.p1,
            p2: self.p2,
        }
    }
}

impl Default for I8035 {
    /// A core in its power-on state.
    fn default() -> (r: Self)
        ensures
            r.is_power_on(),
    {
        I8035::new()
    }
}

/// A pop gives back what the push before it saved: PC, and the whole PSW,
/// whether the return restores the flags (RETR) or not (RET), on every bank
/// and stack level of the 8035's RAM.
pub proof fn law_pop_undoes_push(s: I8035, p: I8035, r: I8035, restore_psw: bool)
    requires
        s.ram_mask == 0x3F,
        s.pc <= 0x0FFF,
        is_push(s, p),
        is_pop(p, r, restore_psw),
    ensures
        r.pc == s.pc,
        r.psw == s.psw,
        r.ram == p.ram,
{
    let sp = s.psw % 8;
    let a = (2 * sp + 8) as u8;
    assert(a & 0x3F == a) by (bit_vector)
        requires
            a <= 22,
    ;
    assert(((a + 1) as u8) & 0x3F == (a + 1) as u8) by (bit_vector)
        requires
            a <= 22,
    ;
}


/// Interrupts do not nest: while the core is in an interrupt routine no
/// interrupt, external or timer, is taken and the boundary check leaves the
/// core as it was, whatever the line and the pending requests; outside one,
/// a timer overflow with its interrupt enabled is taken when no external
/// interrupt is.
pub proof fn law_interrupts_do_not_nest(s: I8035, irq: bool)
    ensures
        s.in_interrupt ==> interrupt_check(s, irq) == (false, s),
        (!s.in_interrupt && s.tcnti_enabled && s.timer_irq_pending) ==> interrupt_check(s, irq).0,
        (!s.in_interrupt && s.int_enabled && irq) ==> interrupt_check(s, irq).0
            && interrupt_check(s, irq).1.irq_pending,
{
}

} // verus!
