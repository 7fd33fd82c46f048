//! The automaton's update rule: standard Life survival and birth.

use vstd::prelude::*;

verus! {

/// The next state of one cell: a live cell with 2 or 3 live neighbors
/// survives, else dies; a dead cell with exactly 3 live neighbors is born,
/// else stays dead.
pub open spec fn next_state(alive: bool, live_neighbors: int) -> bool {
    if alive {
        live_neighbors == 2 || live_neighbors == 3
    } else {
        live_neighbors == 3
    }
}

/// Applies the update rule to one cell, given its state and its live-neighbor
/// count.
pub fn step_cell(alive: bool, live_neighbors: u8) -> (next: bool)
    ensures
        next == next_state(alive, live_neighbors as int),
{
    if alive {
        live_neighbors == 2 || live_neighbors == 3
    } else {
        live_neighbors == 3
    }
}

} // verus!
