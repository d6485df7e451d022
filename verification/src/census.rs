//! Neighbor census: for one interior cell, the tally of each state among
//! its eight Moore neighbors.

use vstd::prelude::*;
use crate::cell::Cell;

verus! {

/// 1 when the condition holds, 0 otherwise.
pub open spec fn ind(b: bool) -> int {
    if b {
        1
    } else {
        0
    }
}

/// The mathematical grid: a sequence of columns, each a sequence of cells.
pub open spec fn grid_view(v: Seq<Vec<Cell>>) -> Seq<Seq<Cell>> {
    Seq::new(v.len(), |i: int| v[i]@)
}

/// A well-formed grid of `w` columns and `h` rows, each dimension at least 3
/// so an interior exists.
pub open spec fn grid_wf(g: Seq<Seq<Cell>>, w: int, h: int) -> bool {
    &&& g.len() == w
    &&& w >= 3
    &&& h >= 3
    &&& forall|i: int| 0 <= i < w ==> #[trigger] g[i].len() == h
}

/// `(x, y)` lies strictly inside the border ring of a `w` by `h` grid.
pub open spec fn interior(x: int, y: int, w: int, h: int) -> bool {
    1 <= x < w - 1 && 1 <= y < h - 1
}

/// The eight Moore neighbors of `(x, y)`, read row by row, the cell itself
/// excluded.
pub open spec fn neighbors_of(g: Seq<Seq<Cell>>, x: int, y: int) -> Seq<Cell> {
    seq![
        g[x - 1][y - 1],
        g[x - 1][y],
        g[x - 1][y + 1],
        g[x][y - 1],
        g[x][y + 1],
        g[x + 1][y - 1],
        g[x + 1][y],
        g[x + 1][y + 1],
    ]
}

/// How many of the first `k` cells of `ns` hold state `s`.
pub open spec fn count_pre(ns: Seq<Cell>, k: int, s: Cell) -> int
    decreases k,
{
    if k <= 0 {
        0
    } else {
        count_pre(ns, k - 1, s) + ind(ns[k - 1] == s)
    }
}

/// How many of the eight Moore neighbors of `(x, y)` hold state `s`.
pub open spec fn nbr_count(g: Seq<Seq<Cell>>, x: int, y: int, s: Cell) -> int {
    count_pre(neighbors_of(g, x, y), 8, s)
}

/// The six neighbor tallies of one interior cell.
#[derive(Debug, Clone, Copy, PartialEq, Eq, Structural)]
pub struct Census {
    pub living: u8,
    pub sick: u8,
    pub fluid: u8,
    pub metal: u8,
    pub burning: u8,
    pub dead: u8,
}

/// Any cell holds exactly one of the six states, so its six indicators
/// sum to one.
proof fn lemma_one_state(c: Cell)
    ensures
        ind(c == Cell::Living) + ind(c == Cell::Sick) + ind(c == Cell::Fluid) + ind(
            c == Cell::Metal,
        ) + ind(c == Cell::Burning) + ind(c == Cell::Dead) == 1,
{
}

/// Over any prefix of a cell sequence, the six per-state tallies sum to the
/// prefix length.
pub proof fn lemma_count_pre_total(ns: Seq<Cell>, k: int)
    requires
        0 <= k,
    ensures
        count_pre(ns, k, Cell::Living) + count_pre(ns, k, Cell::Sick) + count_pre(
            ns,
            k,
            Cell::Fluid,
        ) + count_pre(ns, k, Cell::Metal) + count_pre(ns, k, Cell::Burning) + count_pre(
            ns,
            k,
            Cell::Dead,
        ) == k,
    decreases k,
{
    if k > 0 {
        lemma_count_pre_total(ns, k - 1);
        lemma_one_state(ns[k - 1]);
    }
}

/// Indexing the mathematical grid reads the same column the vector holds.
pub proof fn lemma_grid_view_index(v: Seq<Vec<Cell>>, i: int)
    requires
        0 <= i < v.len(),
    ensures
        grid_view(v)[i] == v[i]@,
{
}

/// Census totality: over any interior cell of a well-formed grid, the six
/// neighbor counts sum to exactly eight.
pub proof fn lemma_census_total(g: Seq<Seq<Cell>>, x: int, y: int, w: int, h: int)
    requires
        grid_wf(g, w, h),
        interior(x, y, w, h),
    ensures
        nbr_count(g, x, y, Cell::Living) + nbr_count(g, x, y, Cell::Sick) + nbr_count(
            g,
            x,
            y,
            Cell::Fluid,
        ) + nbr_count(g, x, y, Cell::Metal) + nbr_count(g, x, y, Cell::Burning) + nbr_count(
            g,
            x,
            y,
            Cell::Dead,
        ) == 8,
{
    lemma_count_pre_total(neighbors_of(g, x, y), 8);
}

/// Count the eight neighbors of the interior cell `(x, y)` by state,
/// reading the given grid only.
pub fn census_at(contents: &Vec<Vec<Cell>>, x: usize, y: usize, w: usize, h: usize) -> (c: Census)
    requires
        grid_wf(grid_view(contents@), w as int, h as int),
        interior(x as int, y as int, w as int, h as int),
    ensures
        c.living as int == nbr_count(grid_view(contents@), x as int, y as int, Cell::Living),
        c.sick as int == nbr_count(grid_view(contents@), x as int, y as int, Cell::Sick),
        c.fluid as int == nbr_count(grid_view(contents@), x as int, y as int, Cell::Fluid),
        c.metal as int == nbr_count(grid_view(contents@), x as int, y as int, Cell::Metal),
        c.burning as int == nbr_count(grid_view(contents@), x as int, y as int, Cell::Burning),
        c.dead as int == nbr_count(grid_view(contents@), x as int, y as int, Cell::Dead),
        c.living + c.sick + c.fluid + c.metal + c.burning + c.dead == 8,
{
    proof {
        let g = grid_view(contents@);
        assert(contents@.len() == w);
        lemma_grid_view_index(contents@, x as int - 1);
        lemma_grid_view_index(contents@, x as int);
        lemma_grid_view_index(contents@, x as int + 1);
        assert(g[x as int - 1].len() == h);
        assert(g[x as int].len() == h);
        assert(g[x as int + 1].len() == h);
    }
    let mut nbrs: Vec<Cell> = Vec::new();
    nbrs.push(contents[x - 1][y - 1]);
    nbrs.push(contents[x - 1][y]);
    nbrs.push(contents[x - 1][y + 1]);
    nbrs.push(contents[x][y - 1]);
    nbrs.push(contents[x][y + 1]);
    nbrs.push(contents[x + 1][y - 1]);
    nbrs.push(contents[x + 1][y]);
    nbrs.push(contents[x + 1][y + 1]);
    let ghost ns = nbrs@;
    proof {
        assert(ns =~= neighbors_of(grid_view(contents@), x as int, y as int));
    }
    let mut c = Census { living: 0, sick: 0, fluid: 0, metal: 0, burning: 0, dead: 0 };
    let mut k: usize = 0;
    while k < 8
        invariant
            k <= 8,
            nbrs@ == ns,
            nbrs@.len() == 8,
            c.living as int == count_pre(ns, k as int, Cell::Living),
            c.sick as int == count_pre(ns, k as int, Cell::Sick),
            c.fluid as int == count_pre(ns, k as int, Cell::Fluid),
            c.metal as int == count_pre(ns, k as int, Cell::Metal),
            c.burning as int == count_pre(ns, k as int, Cell::Burning),
            c.dead as int == count_pre(ns, k as int, Cell::Dead),
            c.living + c.sick + c.fluid + c.metal + c.burning + c.dead == k,
        decreases 8 - k,
    {
        match nbrs[k] {
            Cell::Living => {
                c.living = c.living + 1;
            },
            Cell::Sick => {
                c.sick = c.sick + 1;
            },
            Cell::Fluid => {
                c.fluid = c.fluid + 1;
            },
            Cell::Metal => {
                c.metal = c.metal + 1;
            },
            Cell::Burning => {
                c.burning = c.burning + 1;
            },
            Cell::Dead => {
                c.dead = c.dead + 1;
            },
        }
        k = k + 1;
    }
    c
}

} // verus!
