//! The six cell states, their display colors, and the point-edit cycle.

use rand::Rng;
use vstd::prelude::*;

verus! {

/// One cell of the grid. Equality is by tag; a cell carries no other data.
#[derive(Debug, Clone, Copy, PartialEq, Eq, Structural)]
pub enum Cell {
    Living,
    Metal,
    Fluid,
    Dead,
    Burning,
    Sick,
}

/// The successor of a state in the fixed single-cell edit cycle
/// `Living -> Sick -> Fluid -> Metal -> Burning -> Dead -> Living`.
pub open spec fn cycled(c: Cell) -> Cell {
    match c {
        Cell::Living => Cell::Sick,
        Cell::Sick => Cell::Fluid,
        Cell::Fluid => Cell::Metal,
        Cell::Metal => Cell::Burning,
        Cell::Burning => Cell::Dead,
        Cell::Dead => Cell::Living,
    }
}

/// Applying the single-cell edit cycle six times returns any state to itself.
pub proof fn lemma_cycle_closure(c: Cell)
    ensures
        cycled(cycled(cycled(cycled(cycled(cycled(c)))))) == c,
{
}

/// Relies on rand's `Rng::gen_range` over `0..6`: the sample lies in the
/// half-open range, so the result is always below six.
#[verifier::external_body]
fn sample_index() -> (r: u8)
    ensures
        r < 6,
{
    let mut rng = rand::thread_rng();
    rng.gen_range(0u8..6u8)
}

impl Cell {
    /// A uniformly random state, one of the six variants.
    pub fn random() -> Cell {
        match sample_index() {
            0 => Cell::Living,
            1 => Cell::Sick,
            2 => Cell::Fluid,
            3 => Cell::Metal,
            4 => Cell::Burning,
            _ => Cell::Dead,
        }
    }

    /// The display color of a state, as an opaque RGB triple. The engine
    /// attaches no meaning to it.
    pub fn get_color(self) -> (rgb: (u8, u8, u8))
        ensures
            rgb == (match self {
                Cell::Living => (0xEFu8, 0xE9u8, 0xF4u8),
                Cell::Sick => (0x57u8, 0xA7u8, 0x73u8),
                Cell::Fluid => (0x08u8, 0xb2u8, 0xe3u8),
                Cell::Metal => (0x48u8, 0x4Du8, 0x6Du8),
                Cell::Burning => (0xEEu8, 0x63u8, 0x52u8),
                Cell::Dead => (0x44u8, 0x44u8, 0x44u8),
            }),
    {
        match self {
            Cell::Living => (0xEF, 0xE9, 0xF4),
            Cell::Sick => (0x57, 0xA7, 0x73),
            Cell::Fluid => (0x08, 0xb2, 0xe3),
            Cell::Metal => (0x48, 0x4D, 0x6D),
            Cell::Burning => (0xEE, 0x63, 0x52),
            Cell::Dead => (0x44, 0x44, 0x44),
        }
    }

    /// The next state in the single-cell edit cycle.
    pub fn cycle(self) -> (r: Cell)
        ensures
            r == cycled(self),
    {
        match self {
            Cell::Living => Cell::Sick,
            Cell::Sick => Cell::Fluid,
            Cell::Fluid => Cell::Metal,
            Cell::Metal => Cell::Burning,
            Cell::Burning => Cell::Dead,
            Cell::Dead => Cell::Living,
        }
    }
}

} // verus!
