//! Core of a 32-state cellular automaton engine: the fixed display palette,
//! the packed five-cell neighborhood addressing scheme, the precomputed
//! transition table, the simulation grid, and the step scheduler that
//! advances the grid through table lookups.

use vstd::prelude::*;

pub mod grid;
pub mod neighbor;
pub mod palette;
pub mod pattern;
pub mod render;
pub mod rule;
pub mod scheduler;
pub mod table;

verus! {

/// Number of distinct cell states.
pub const STATE_COUNT: u8 = 32;

/// A cell state is a five-bit code.
pub open spec fn valid_state(s: u8) -> bool {
    s < STATE_COUNT
}

} // verus!
