//! Component traits.

use vstd::prelude::*;
use crate::bus::{Bus, BusMaster};

verus! {

/// Extension for components that act as bus masters (CPUs, DMA controllers).
pub trait BusMasterComponent {
    /// The bus the component is stepped against.
    type Bus: Bus + ?Sized;

    /// Execute one cycle with bus access. Returns true at an instruction
    /// boundary.
    fn tick_with_bus(&mut self, bus: &mut Self::Bus, master_id: BusMaster) -> bool;
}

} // verus!
