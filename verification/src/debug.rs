//! Types a debugger front end reads from a machine.

use vstd::prelude::*;

verus! {

/// A single CPU register for display in the debug panel.
pub struct DebugRegister {
    /// Register name (e.g., "A", "PC", "SP").
    pub name: &'static str,
    /// Register value (all register widths fit in u64).
    pub value: u64,
    /// Display width in bits (8 or 16).
    pub width: u8,
}

/// Result of disassembling one instruction at a given address.
pub struct DebugDisassembly {
    /// Address of the instruction.
    pub addr: u16,
    /// Raw instruction bytes.
    pub bytes: Vec<u8>,
    /// Formatted instruction text.
    pub text: String,
    /// Total byte length of the instruction.
    pub byte_len: u8,
}

/// Trait for machines that support interactive debugging.
pub trait Debuggable {
    /// Advance exactly one CPU cycle. Returns true if an instruction boundary
    /// was crossed.
    fn debug_tick(&mut self) -> bool;

    /// Read the current program counter.
    fn debug_pc(&self) -> u16;

    /// Get CPU registers for display.
    fn debug_registers(&self) -> Vec<DebugRegister>;

    /// Read a byte from the address space without side effects, or `None` for
    /// an unmapped address.
    fn debug_read(&self, addr: u16) -> Option<u8>;

    /// Write a byte to the address space (for the memory editor).
    fn debug_write(&mut self, addr: u16, data: u8);

    /// Disassemble `count` instructions starting at `addr`.
    fn debug_disassemble(&self, addr: u16, count: usize) -> Vec<DebugDisassembly>;

    /// Number of CPUs in this machine.
    fn debug_cpu_count(&self) -> (r: usize)
        default_ensures
            r == 1,
    {
        1
    }

    /// Select which CPU to inspect (0-based index).
    fn debug_select_cpu(&mut self, index: usize) {
    }

    /// Human-readable name of the currently selected CPU.
    fn debug_cpu_name(&self) -> (r: &str)
        default_ensures
            r@ == "CPU"@,
    {
        proof {
            reveal_strlit("CPU");
        }
        "CPU"
    }
}

} // verus!
