//! The bus a CPU core is stepped against.

use vstd::prelude::*;

verus! {

/// Who is driving the bus.
#[derive(Clone, Copy, Debug, PartialEq, Eq, Structural)]
pub enum BusMaster {
    /// A CPU, by index.
    Cpu(u8),
    /// A DMA controller such as a blitter.
    Dma,
}

/// The interrupt lines a bus presents to one master.
#[derive(Clone, Copy, Debug, Default, PartialEq, Eq)]
pub struct InterruptState {
    /// Non-maskable interrupt line (edge-triggered by the CPU).
    pub nmi: bool,
    /// Maskable interrupt request line (level-triggered).
    pub irq: bool,
    /// Fast interrupt request line.
    pub firq: bool,
    /// Vector supplied with an IRQ by CPUs that take one from the bus.
    pub irq_vector: u8,
}

/// One bus transaction a master made, as the contracts see the bus.
#[derive(Clone, Copy, Debug, PartialEq, Eq)]
pub enum BusAccess<A, D> {
    /// A read of `D` at `A`.
    Read(A, D),
    /// A write of `D` to `A`.
    Write(A, D),
    /// A look at the interrupt lines, and what they showed.
    Poll(InterruptState),
}

/// The record `before` with the access `a` added, if a step made one.
pub open spec fn logged<A, D>(before: Seq<BusAccess<A, D>>, a: Option<BusAccess<A, D>>) -> Seq<
    BusAccess<A, D>,
> {
    match a {
        Some(x) => before.push(x),
        None => before,
    }
}

/// A bus a CPU reads and writes through.
///
/// Implemented by each machine. The cores in this crate make no assumption
/// about what a read returns: every read is a value from outside, and their
/// contracts say what holds whatever came back. What they do claim of an
/// implementation is bookkeeping: `accesses` is the record of the memory
/// reads and writes and the interrupt polls made through it, which `read`,
/// `write` and `check_interrupts` extend by one entry each and the I/O
/// ports leave alone.
pub trait Bus {
    /// The address type: `u16` for the 8-bit cores, `u32` for the 8088.
    type Address;
    /// The data type: `u8` for every core here.
    type Data;

    /// The memory reads and writes and interrupt polls made through this
    /// bus so far, oldest first: a record for contracts to speak of, which a
    /// verified implementation defines over its own ghost state. The default
    /// is there for implementations written outside Verus, which cannot
    /// define a spec function; such an implementation is not checked against
    /// the contracts below, and with the default it could not meet them.
    closed spec fn accesses(&self) -> Seq<BusAccess<Self::Address, Self::Data>> {
        arbitrary()
    }

    /// Read one unit of data.
    fn read(&mut self, master: BusMaster, addr: Self::Address) -> (r: Self::Data)
        ensures
            final(self).accesses() == old(self).accesses().push(BusAccess::Read(addr, r)),
    ;

    /// Write one unit of data.
    fn write(&mut self, master: BusMaster, addr: Self::Address, data: Self::Data)
        ensures
            final(self).accesses() == old(self).accesses().push(BusAccess::Write(addr, data)),
    ;

    /// Whether `master` is held off the bus this cycle.
    fn is_halted_for(&self, master: BusMaster) -> bool;

    /// The interrupt lines as `target` sees them now.
    fn check_interrupts(&mut self, target: BusMaster) -> (r: InterruptState)
        ensures
            final(self).accesses() == old(self).accesses().push(BusAccess::Poll(r)),
    ;

    /// Read an I/O port. A bus with no I/O space floats high. Port I/O is
    /// not a memory access and leaves the record alone.
    fn io_read(&mut self, master: BusMaster, port: u16) -> (r: u8)
        ensures
            final(self).accesses() == old(self).accesses(),
        default_ensures
            r == 0xFF,
    {
        0xFF
    }

    /// Write an I/O port. A bus with no I/O space ignores it. Port I/O is
    /// not a memory access and leaves the record alone.
    fn io_write(&mut self, master: BusMaster, port: u16, data: u8)
        ensures
            final(self).accesses() == old(self).accesses(),
    {
    }
}

} // verus!
