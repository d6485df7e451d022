//! The per-state transition rule cascade and the cause-of-death bookkeeping.
//!
//! Each cascade is evaluated top to bottom; the first matching branch wins
//! and an unmatched cell keeps its state. Under the stated ordering the
//! Living branch `burning >= 3 -> Dead` can never fire, because the branch
//! `burning >= 1 -> Burning` is tested first; the ordering is kept as the
//! rules state it, so the fire counter never moves.

use vstd::prelude::*;
use crate::cell::Cell;
use crate::census::{Census, ind, nbr_count};

verus! {

/// Why a cell died during a generation step.
#[derive(Debug, Clone, Copy, PartialEq, Eq, Structural)]
pub enum Cause {
    Fire,
    Sickness,
    Drowning,
}

/// The state an interior cell takes in the next generation, given its
/// current state and its six neighbor counts.
pub open spec fn next_state(
    c: Cell,
    living: int,
    sick: int,
    fluid: int,
    metal: int,
    burning: int,
    dead: int,
) -> Cell {
    match c {
        Cell::Living => if fluid == 3 || fluid == 4 {
            Cell::Living
        } else if burning >= 1 {
            Cell::Burning
        } else if burning >= 3 {
            Cell::Dead
        } else if sick == 1 || sick == 2 {
            if metal < 2 {
                Cell::Sick
            } else {
                Cell::Living
            }
        } else if sick == 3 || sick == 4 {
            Cell::Metal
        } else if sick >= 5 {
            Cell::Dead
        } else if fluid >= 5 {
            Cell::Dead
        } else if dead >= 5 {
            if metal < 2 {
                Cell::Sick
            } else {
                Cell::Living
            }
        } else if living >= 4 {
            Cell::Dead
        } else {
            Cell::Living
        },
        Cell::Sick => if fluid >= 1 {
            Cell::Living
        } else {
            Cell::Dead
        },
        Cell::Fluid => if living == 3 || living == 4 {
            Cell::Living
        } else if burning >= 4 {
            Cell::Dead
        } else {
            Cell::Fluid
        },
        Cell::Metal => if (fluid != 3 && fluid != 4) && (burning == 2 || burning == 3) {
            Cell::Fluid
        } else if fluid >= 1 {
            Cell::Living
        } else if sick == 1 || sick == 2 {
            Cell::Living
        } else {
            Cell::Metal
        },
        Cell::Burning => if 1 <= fluid && fluid <= 3 {
            Cell::Living
        } else if fluid >= 2 {
            Cell::Fluid
        } else {
            Cell::Dead
        },
        Cell::Dead => if fluid == 4 && burning == 4 {
            Cell::Living
        } else if living == 2 && sick == 0 && fluid == 0 && metal == 0 && burning == 0 {
            Cell::Living
        } else {
            Cell::Dead
        },
    }
}

/// Which death counter, if any, the cell's transition charges.
pub open spec fn death_cause(
    c: Cell,
    living: int,
    sick: int,
    fluid: int,
    metal: int,
    burning: int,
    dead: int,
) -> Option<Cause> {
    match c {
        Cell::Living => if fluid == 3 || fluid == 4 {
            None
        } else if burning >= 1 {
            None
        } else if burning >= 3 {
            Some(Cause::Fire)
        } else if sick == 1 || sick == 2 {
            None
        } else if sick == 3 || sick == 4 {
            None
        } else if sick >= 5 {
            Some(Cause::Sickness)
        } else if fluid >= 5 {
            Some(Cause::Drowning)
        } else {
            None
        },
        Cell::Sick => if fluid >= 1 {
            None
        } else {
            Some(Cause::Sickness)
        },
        _ => None,
    }
}

/// Some branch of the cascade for state `c` matches the given counts.
/// The Living cascade is gated: with 3 or 4 fluid neighbors no branch is
/// even tested. Sick and Burning cells always match a branch, because each
/// cascade ends in an unconditional one.
pub open spec fn some_rule_matches(
    c: Cell,
    living: int,
    sick: int,
    fluid: int,
    metal: int,
    burning: int,
    dead: int,
) -> bool {
    match c {
        Cell::Living => (fluid != 3 && fluid != 4) && (burning >= 1 || (1 <= sick && sick <= 4)
            || sick >= 5 || fluid >= 5 || dead >= 5 || living >= 4),
        Cell::Sick => true,
        Cell::Fluid => (living == 3 || living == 4) || burning >= 4,
        Cell::Metal => ((fluid != 3 && fluid != 4) && (burning == 2 || burning == 3)) || fluid >= 1
            || (sick == 1 || sick == 2),
        Cell::Burning => true,
        Cell::Dead => (fluid == 4 && burning == 4) || (living == 2 && sick == 0 && fluid == 0
            && metal == 0 && burning == 0),
    }
}

/// Default-retain: when no branch of a state's cascade matches, the cell
/// keeps its state and no death counter moves.
pub proof fn lemma_default_retain(
    c: Cell,
    living: int,
    sick: int,
    fluid: int,
    metal: int,
    burning: int,
    dead: int,
)
    requires
        !some_rule_matches(c, living, sick, fluid, metal, burning, dead),
    ensures
        next_state(c, living, sick, fluid, metal, burning, dead) == c,
        death_cause(c, living, sick, fluid, metal, burning, dead) is None,
{
}

/// What one generation step does to one interior cell.
pub struct Outcome {
    pub next: Cell,
    pub cause: Option<Cause>,
}

/// Run the cascade for a cell in state `c` with neighbor tallies `cen`.
pub fn apply_rules(c: Cell, cen: &Census) -> (r: Outcome)
    ensures
        r.next == next_state(
            c,
            cen.living as int,
            cen.sick as int,
            cen.fluid as int,
            cen.metal as int,
            cen.burning as int,
            cen.dead as int,
        ),
        r.cause == death_cause(
            c,
            cen.living as int,
            cen.sick as int,
            cen.fluid as int,
            cen.metal as int,
            cen.burning as int,
            cen.dead as int,
        ),
{
    match c {
        Cell::Living => {
            if cen.fluid == 3 || cen.fluid == 4 {
                Outcome { next: Cell::Living, cause: None }
            } else if cen.burning >= 1 {
                Outcome { next: Cell::Burning, cause: None }
            } else if cen.burning >= 3 {
                Outcome { next: Cell::Dead, cause: Some(Cause::Fire) }
            } else if cen.sick == 1 || cen.sick == 2 {
                if cen.metal < 2 {
                    Outcome { next: Cell::Sick, cause: None }
                } else {
                    Outcome { next: Cell::Living, cause: None }
                }
            } else if cen.sick == 3 || cen.sick == 4 {
                Outcome { next: Cell::Metal, cause: None }
            } else if cen.sick >= 5 {
                Outcome { next: Cell::Dead, cause: Some(Cause::Sickness) }
            } else if cen.fluid >= 5 {
                Outcome { next: Cell::Dead, cause: Some(Cause::Drowning) }
            } else if cen.dead >= 5 {
                if cen.metal < 2 {
                    Outcome { next: Cell::Sick, cause: None }
                } else {
                    Outcome { next: Cell::Living, cause: None }
                }
            } else if cen.living >= 4 {
                Outcome { next: Cell::Dead, cause: None }
            } else {
                Outcome { next: Cell::Living, cause: None }
            }
        },
        Cell::Sick => {
            if cen.fluid >= 1 {
                Outcome { next: Cell::Living, cause: None }
            } else {
                Outcome { next: Cell::Dead, cause: Some(Cause::Sickness) }
            }
        },
        Cell::Fluid => {
            if cen.living == 3 || cen.living == 4 {
                Outcome { next: Cell::Living, cause: None }
            } else if cen.burning >= 4 {
                Outcome { next: Cell::Dead, cause: None }
            } else {
                Outcome { next: Cell::Fluid, cause: None }
            }
        },
        Cell::Metal => {
            if (cen.fluid != 3 && cen.fluid != 4) && (cen.burning == 2 || cen.burning == 3) {
                Outcome { next: Cell::Fluid, cause: None }
            } else if cen.fluid >= 1 {
                Outcome { next: Cell::Living, cause: None }
            } else if cen.sick == 1 || cen.sick == 2 {
                Outcome { next: Cell::Living, cause: None }
            } else {
                Outcome { next: Cell::Metal, cause: None }
            }
        },
        Cell::Burning => {
            if 1 <= cen.fluid && cen.fluid <= 3 {
                Outcome { next: Cell::Living, cause: None }
            } else if cen.fluid >= 2 {
                Outcome { next: Cell::Fluid, cause: None }
            } else {
                Outcome { next: Cell::Dead, cause: None }
            }
        },
        Cell::Dead => {
            if cen.fluid == 4 && cen.burning == 4 {
                Outcome { next: Cell::Living, cause: None }
            } else if cen.living == 2 && cen.sick == 0 && cen.fluid == 0 && cen.metal == 0
                && cen.burning == 0 {
                Outcome { next: Cell::Living, cause: None }
            } else {
                Outcome { next: Cell::Dead, cause: None }
            }
        },
    }
}

/// The next state of the interior cell `(x, y)`, computed from the previous
/// generation `g` alone.
pub open spec fn next_of(g: Seq<Seq<Cell>>, x: int, y: int) -> Cell {
    next_state(
        g[x][y],
        nbr_count(g, x, y, Cell::Living),
        nbr_count(g, x, y, Cell::Sick),
        nbr_count(g, x, y, Cell::Fluid),
        nbr_count(g, x, y, Cell::Metal),
        nbr_count(g, x, y, Cell::Burning),
        nbr_count(g, x, y, Cell::Dead),
    )
}

/// The death counter, if any, charged by the interior cell `(x, y)`.
pub open spec fn cause_of(g: Seq<Seq<Cell>>, x: int, y: int) -> Option<Cause> {
    death_cause(
        g[x][y],
        nbr_count(g, x, y, Cell::Living),
        nbr_count(g, x, y, Cell::Sick),
        nbr_count(g, x, y, Cell::Fluid),
        nbr_count(g, x, y, Cell::Metal),
        nbr_count(g, x, y, Cell::Burning),
        nbr_count(g, x, y, Cell::Dead),
    )
}

/// Deaths with cause `c` among the cells `(x, 1)` to `(x, y_end - 1)` of
/// column `x`.
pub open spec fn row_deaths(g: Seq<Seq<Cell>>, x: int, y_end: int, c: Cause) -> int
    decreases y_end,
{
    if y_end <= 1 {
        0
    } else {
        row_deaths(g, x, y_end - 1, c) + ind(cause_of(g, x, y_end - 1) == Some(c))
    }
}

/// Deaths with cause `c` over the full interior rows of columns 1 to
/// `x_end - 1`, in a grid of height `h`.
pub open spec fn col_deaths(g: Seq<Seq<Cell>>, x_end: int, h: int, c: Cause) -> int
    decreases x_end,
{
    if x_end <= 1 {
        0
    } else {
        col_deaths(g, x_end - 1, h, c) + row_deaths(g, x_end - 1, h - 1, c)
    }
}

/// Deaths with cause `c` over the whole interior of a grid of height `h`.
pub open spec fn grid_deaths(g: Seq<Seq<Cell>>, h: int, c: Cause) -> int {
    col_deaths(g, g.len() - 1, h, c)
}

/// A row's death tally lies between 0 and the number of cells counted.
pub proof fn lemma_row_deaths_bounds(g: Seq<Seq<Cell>>, x: int, y_end: int, c: Cause)
    requires
        y_end >= 1,
    ensures
        0 <= row_deaths(g, x, y_end, c) <= y_end - 1,
    decreases y_end,
{
    if y_end > 1 {
        lemma_row_deaths_bounds(g, x, y_end - 1, c);
    }
}

/// A column-prefix death tally lies between 0 and the number of interior
/// cells counted.
pub proof fn lemma_col_deaths_bounds(g: Seq<Seq<Cell>>, x_end: int, h: int, c: Cause)
    requires
        x_end >= 1,
        h >= 3,
    ensures
        0 <= col_deaths(g, x_end, h, c) <= (x_end - 1) * (h - 2),
    decreases x_end,
{
    if x_end > 1 {
        lemma_col_deaths_bounds(g, x_end - 1, h, c);
        lemma_row_deaths_bounds(g, x_end - 1, h - 1, c);
        assert((x_end - 2) * (h - 2) + (h - 2) == (x_end - 1) * (h - 2)) by (nonlinear_arith);
    }
}

} // verus!
