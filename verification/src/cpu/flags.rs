//! Helpers shared by every CPU core.

use vstd::prelude::*;

verus! {

/// Detect a rising edge on a level-sensitive line.
///
/// Returns true when `current` is high and the previously sampled level was
/// low, and records `current` as the new previous level.
pub fn detect_rising_edge(current: bool, previous: &mut bool) -> (edge: bool)
    ensures
        edge == (current && !*old(previous)),
        *final(previous) == current,
{
    let edge = current && !*previous;
    *previous = current;
    edge
}

} // verus!
