//! The grid: a fixed rectangle of cells with three cause-of-death counters,
//! the generation step, and the out-of-band point edits.

use vstd::prelude::*;
use crate::cell::{Cell, cycled};
use crate::census::{census_at, grid_view, grid_wf, interior, lemma_grid_view_index};
use crate::rules::{
    Cause, apply_rules, cause_of, col_deaths, grid_deaths, lemma_col_deaths_bounds,
    lemma_row_deaths_bounds, next_of, row_deaths,
};

verus! {

/// A rectangular grid of cells with running cause-of-death counters.
/// The counters only ever grow, and only a generation step moves them.
pub struct World {
    pub contents: Vec<Vec<Cell>>,
    pub deaths_fire: usize,
    pub deaths_sick: usize,
    pub deaths_drown: usize,
}

/// `(i, j)` lies in the 3 by 3 block centered on `(x, y)`.
pub open spec fn in_block(i: int, j: int, x: int, y: int) -> bool {
    -1 <= i - x <= 1 && -1 <= j - y <= 1
}

impl World {
    /// The grid as a sequence of columns of cells.
    pub open spec fn cells(self) -> Seq<Seq<Cell>> {
        grid_view(self.contents@)
    }

    /// The number of columns.
    pub open spec fn width(self) -> int {
        self.cells().len() as int
    }

    /// The number of cells in each column.
    pub open spec fn height(self) -> int {
        self.cells()[0].len() as int
    }

    /// The grid is rectangular with both dimensions at least 3, so the
    /// border ring encloses a non-empty interior.
    pub open spec fn wf(self) -> bool {
        grid_wf(self.cells(), self.width(), self.height())
    }

    /// A fresh all-Dead grid with zeroed counters.
    pub fn new(width: usize, height: usize) -> (w: World)
        requires
            3 <= width,
            3 <= height,
        ensures
            w.wf(),
            w.width() == width,
            w.height() == height,
            forall|i: int, j: int|
                0 <= i < width && 0 <= j < height ==> #[trigger] w.cells()[i][j] == Cell::Dead,
            w.deaths_fire == 0,
            w.deaths_sick == 0,
            w.deaths_drown == 0,
    {
        let mut contents: Vec<Vec<Cell>> = Vec::new();
        let mut i: usize = 0;
        while i < width
            invariant
                i <= width,
                contents@.len() == i,
                forall|k: int| 0 <= k < i ==> (#[trigger] contents@[k]@).len() == height,
                forall|k: int, j: int|
                    0 <= k < i && 0 <= j < height ==> #[trigger] contents@[k]@[j] == Cell::Dead,
            decreases width - i,
        {
            let mut row: Vec<Cell> = Vec::new();
            let mut j: usize = 0;
            while j < height
                invariant
                    j <= height,
                    row@.len() == j,
                    forall|k: int| 0 <= k < j ==> #[trigger] row@[k] == Cell::Dead,
                decreases height - j,
            {
                row.push(Cell::Dead);
                j = j + 1;
            }
            contents.push(row);
            i = i + 1;
        }
        let w = World { contents, deaths_fire: 0, deaths_sick: 0, deaths_drown: 0 };
        proof {
            assert forall|i2: int, j2: int| 0 <= i2 < width && 0 <= j2 < height implies #[trigger] w.cells()[i2][j2]
                == Cell::Dead by {
                lemma_grid_view_index(w.contents@, i2);
            }
            assert forall|i2: int| 0 <= i2 < width implies #[trigger] w.cells()[i2].len()
                == height by {
                lemma_grid_view_index(w.contents@, i2);
            }
        }
        w
    }

    /// A fresh grid with every cell drawn uniformly at random and zeroed
    /// counters.
    pub fn random(width: usize, height: usize) -> (w: World)
        requires
            3 <= width,
            3 <= height,
        ensures
            w.wf(),
            w.width() == width,
            w.height() == height,
            w.deaths_fire == 0,
            w.deaths_sick == 0,
            w.deaths_drown == 0,
    {
        let mut contents: Vec<Vec<Cell>> = Vec::new();
        let mut i: usize = 0;
        while i < width
            invariant
                i <= width,
                contents@.len() == i,
                forall|k: int| 0 <= k < i ==> (#[trigger] contents@[k]@).len() == height,
            decreases width - i,
        {
            let mut row: Vec<Cell> = Vec::new();
            let mut j: usize = 0;
            while j < height
                invariant
                    j <= height,
                    row@.len() == j,
                decreases height - j,
            {
                row.push(Cell::random());
                j = j + 1;
            }
            contents.push(row);
            i = i + 1;
        }
        let w = World { contents, deaths_fire: 0, deaths_sick: 0, deaths_drown: 0 };
        proof {
            assert forall|i2: int| 0 <= i2 < width implies #[trigger] w.cells()[i2].len()
                == height by {
                lemma_grid_view_index(w.contents@, i2);
            }
        }
        w
    }

    /// Read-only access to the cell array, for rendering.
    pub fn unwrap(&self) -> (r: &Vec<Vec<Cell>>)
        ensures
            r@ == self.contents@,
    {
        &self.contents
    }

    /// One generation: every interior cell is rewritten from the previous
    /// generation's census alone, the border ring is left as it is, and the
    /// death counters grow by the interior's death tallies.
    #[verifier::loop_isolation(false)]
    pub fn step(&mut self)
        requires
            old(self).wf(),
            old(self).deaths_fire + (old(self).width() - 2) * (old(self).height() - 2)
                <= usize::MAX,
            old(self).deaths_sick + (old(self).width() - 2) * (old(self).height() - 2)
                <= usize::MAX,
            old(self).deaths_drown + (old(self).width() - 2) * (old(self).height() - 2)
                <= usize::MAX,
        ensures
            final(self).wf(),
            final(self).width() == old(self).width(),
            final(self).height() == old(self).height(),
            forall|x: int, y: int|
                0 <= x < old(self).width() && 0 <= y < old(self).height()
                    ==> #[trigger] final(self).cells()[x][y] == (if interior(
                    x,
                    y,
                    old(self).width(),
                    old(self).height(),
                ) {
                    next_of(old(self).cells(), x, y)
                } else {
                    old(self).cells()[x][y]
                }),
            final(self).deaths_fire == old(self).deaths_fire + grid_deaths(
                old(self).cells(),
                old(self).height(),
                Cause::Fire,
            ),
            final(self).deaths_sick == old(self).deaths_sick + grid_deaths(
                old(self).cells(),
                old(self).height(),
                Cause::Sickness,
            ),
            final(self).deaths_drown == old(self).deaths_drown + grid_deaths(
                old(self).cells(),
                old(self).height(),
                Cause::Drowning,
            ),
            final(self).deaths_fire >= old(self).deaths_fire,
            final(self).deaths_sick >= old(self).deaths_sick,
            final(self).deaths_drown >= old(self).deaths_drown,
    {
        let w = self.contents.len();
        proof {
            lemma_grid_view_index(self.contents@, 0);
        }
        let h = self.contents[0].len();
        let ghost g = self.cells();
        let mut buffer: Vec<Vec<Cell>> = Vec::new();
        let mut i: usize = 0;
        while i < w
            invariant
                i <= w,
                buffer@.len() == i,
                self == old(self),
                forall|k: int| 0 <= k < i ==> #[trigger] buffer@[k]@ == g[k],
            decreases w - i,
        {
            proof {
                lemma_grid_view_index(self.contents@, i as int);
            }
            let mut row: Vec<Cell> = Vec::new();
            let mut j: usize = 0;
            while j < h
                invariant
                    j <= h,
                    i < w,
                    self == old(self),
                    row@.len() == j,
                    forall|k: int| 0 <= k < j ==> #[trigger] row@[k] == g[i as int][k],
                decreases h - j,
            {
                row.push(self.contents[i][j]);
                j = j + 1;
            }
            proof {
                assert(row@ =~= g[i as int]);
            }
            buffer.push(row);
            i = i + 1;
        }
        let mut x: usize = 1;
        while x < w - 1
            invariant
                1 <= x <= w - 1,
                self.contents@ == old(self).contents@,
                buffer@.len() == w,
                forall|k: int| 0 <= k < w ==> (#[trigger] buffer@[k]@).len() == h,
                forall|i2: int, j2: int|
                    0 <= i2 < w && 0 <= j2 < h ==> #[trigger] buffer@[i2]@[j2] == (if interior(
                        i2,
                        j2,
                        w as int,
                        h as int,
                    ) && i2 < x {
                        next_of(g, i2, j2)
                    } else {
                        g[i2][j2]
                    }),
                self.deaths_fire == old(self).deaths_fire + col_deaths(
                    g,
                    x as int,
                    h as int,
                    Cause::Fire,
                ),
                self.deaths_sick == old(self).deaths_sick + col_deaths(
                    g,
                    x as int,
                    h as int,
                    Cause::Sickness,
                ),
                self.deaths_drown == old(self).deaths_drown + col_deaths(
                    g,
                    x as int,
                    h as int,
                    Cause::Drowning,
                ),
            decreases w - 1 - x,
        {
            let mut y: usize = 1;
            while y < h - 1
                invariant
                    1 <= x < w - 1,
                    1 <= y <= h - 1,
                    self.contents@ == old(self).contents@,
                    buffer@.len() == w,
                    forall|k: int| 0 <= k < w ==> (#[trigger] buffer@[k]@).len() == h,
                    forall|i2: int, j2: int|
                        0 <= i2 < w && 0 <= j2 < h ==> #[trigger] buffer@[i2]@[j2] == (if interior(
                            i2,
                            j2,
                            w as int,
                            h as int,
                        ) && (i2 < x || (i2 == x && j2 < y)) {
                            next_of(g, i2, j2)
                        } else {
                            g[i2][j2]
                        }),
                    self.deaths_fire == old(self).deaths_fire + col_deaths(
                        g,
                        x as int,
                        h as int,
                        Cause::Fire,
                    ) + row_deaths(g, x as int, y as int, Cause::Fire),
                    self.deaths_sick == old(self).deaths_sick + col_deaths(
                        g,
                        x as int,
                        h as int,
                        Cause::Sickness,
                    ) + row_deaths(g, x as int, y as int, Cause::Sickness),
                    self.deaths_drown == old(self).deaths_drown + col_deaths(
                        g,
                        x as int,
                        h as int,
                        Cause::Drowning,
                    ) + row_deaths(g, x as int, y as int, Cause::Drowning),
                decreases h - 1 - y,
            {
                let cen = census_at(&self.contents, x, y, w, h);
                proof {
                    lemma_grid_view_index(self.contents@, x as int);
                }
                let cur = self.contents[x][y];
                let out = apply_rules(cur, &cen);
                proof {
                    assert(cur == g[x as int][y as int]);
                    assert(out.next == next_of(g, x as int, y as int));
                    assert(out.cause == cause_of(g, x as int, y as int));
                    lemma_partial_deaths_bound(g, x as int, y as int, w as int, h as int);
                }
                buffer[x][y] = out.next;
                match out.cause {
                    Option::Some(Cause::Fire) => {
                        self.deaths_fire = self.deaths_fire + 1;
                    },
                    Option::Some(Cause::Sickness) => {
                        self.deaths_sick = self.deaths_sick + 1;
                    },
                    Option::Some(Cause::Drowning) => {
                        self.deaths_drown = self.deaths_drown + 1;
                    },
                    Option::None => {},
                }
                y = y + 1;
            }
            x = x + 1;
        }
        self.contents = buffer;
        proof {
            assert forall|i2: int| 0 <= i2 < w implies #[trigger] self.cells()[i2].len() == h by {
                lemma_grid_view_index(self.contents@, i2);
            }
            assert forall|i2: int, j2: int| 0 <= i2 < w && 0 <= j2 < h implies #[trigger] self.cells()[i2][j2]
                == (if interior(i2, j2, w as int, h as int) {
                next_of(g, i2, j2)
            } else {
                g[i2][j2]
            }) by {
                lemma_grid_view_index(self.contents@, i2);
            }
            lemma_col_deaths_bounds(g, w as int - 1, h as int, Cause::Fire);
            lemma_col_deaths_bounds(g, w as int - 1, h as int, Cause::Sickness);
            lemma_col_deaths_bounds(g, w as int - 1, h as int, Cause::Drowning);
        }
    }

    /// Replace the cell at `(x, y)` with the next state in the edit cycle.
    /// An out-of-range coordinate is silently ignored. The transition
    /// cascade is not involved and no counter moves.
    pub fn cycle_cell(&mut self, x: usize, y: usize)
        requires
            old(self).wf(),
        ensures
            final(self).wf(),
            final(self).width() == old(self).width(),
            final(self).height() == old(self).height(),
            final(self).deaths_fire == old(self).deaths_fire,
            final(self).deaths_sick == old(self).deaths_sick,
            final(self).deaths_drown == old(self).deaths_drown,
            forall|i: int, j: int|
                0 <= i < old(self).width() && 0 <= j < old(self).height() && !(i == x && j == y)
                    ==> #[trigger] final(self).cells()[i][j] == old(self).cells()[i][j],
            x < old(self).width() && y < old(self).height() ==> final(self).cells()[x as int][y as int]
                == cycled(old(self).cells()[x as int][y as int]),
            !(x < old(self).width() && y < old(self).height()) ==> final(self).cells() == old(
                self,
            ).cells(),
    {
        let w = self.contents.len();
        proof {
            lemma_grid_view_index(self.contents@, 0);
        }
        let h = self.contents[0].len();
        if x < w && y < h {
            proof {
                lemma_grid_view_index(self.contents@, x as int);
            }
            let cur = self.contents[x][y];
            self.contents[x][y] = cur.cycle();
            proof {
                assert forall|i2: int| 0 <= i2 < w implies #[trigger] self.cells()[i2].len()
                    == h by {
                    lemma_grid_view_index(self.contents@, i2);
                    lemma_grid_view_index(old(self).contents@, i2);
                }
                assert forall|i2: int, j2: int|
                    0 <= i2 < w && 0 <= j2 < h && !(i2 == x && j2 == y) implies #[trigger] self.cells()[i2][j2]
                    == old(self).cells()[i2][j2] by {
                    lemma_grid_view_index(self.contents@, i2);
                    lemma_grid_view_index(old(self).contents@, i2);
                }
                lemma_grid_view_index(self.contents@, x as int);
            }
        }
    }

    /// Reseed every in-range cell of the 3 by 3 block centered on `(x, y)`
    /// with an independent uniformly random state; block cells outside the
    /// grid are silently skipped. Cells outside the block and the counters
    /// are untouched.
    #[verifier::loop_isolation(false)]
    pub fn reseed_area(&mut self, x: usize, y: usize)
        requires
            old(self).wf(),
        ensures
            final(self).wf(),
            final(self).width() == old(self).width(),
            final(self).height() == old(self).height(),
            final(self).deaths_fire == old(self).deaths_fire,
            final(self).deaths_sick == old(self).deaths_sick,
            final(self).deaths_drown == old(self).deaths_drown,
            forall|i: int, j: int|
                0 <= i < old(self).width() && 0 <= j < old(self).height() && !in_block(
                    i,
                    j,
                    x as int,
                    y as int,
                ) ==> #[trigger] final(self).cells()[i][j] == old(self).cells()[i][j],
    {
        let w = self.contents.len();
        proof {
            lemma_grid_view_index(self.contents@, 0);
        }
        let h = self.contents[0].len();
        proof {
            assert forall|k: int| 0 <= k < w implies (#[trigger] self.contents@[k]@).len() == h by {
                lemma_grid_view_index(self.contents@, k);
            }
        }
        let mut i: usize = 0;
        while i < w
            invariant
                i <= w,
                self.contents@.len() == w,
                forall|k: int| 0 <= k < w ==> (#[trigger] self.contents@[k]@).len() == h,
                self.deaths_fire == old(self).deaths_fire,
                self.deaths_sick == old(self).deaths_sick,
                self.deaths_drown == old(self).deaths_drown,
                forall|i2: int, j2: int|
                    0 <= i2 < w && 0 <= j2 < h && !in_block(i2, j2, x as int, y as int)
                        ==> #[trigger] self.contents@[i2]@[j2] == old(self).contents@[i2]@[j2],
            decreases w - i,
        {
            let near_col = (i <= x && x - i <= 1) || (i > x && i - x <= 1);
            if near_col {
                let mut j: usize = 0;
                while j < h
                    invariant
                        j <= h,
                        i < w,
                        self.contents@.len() == w,
                        forall|k: int| 0 <= k < w ==> (#[trigger] self.contents@[k]@).len() == h,
                        self.deaths_fire == old(self).deaths_fire,
                        self.deaths_sick == old(self).deaths_sick,
                        self.deaths_drown == old(self).deaths_drown,
                        forall|i2: int, j2: int|
                            0 <= i2 < w && 0 <= j2 < h && !in_block(i2, j2, x as int, y as int)
                                ==> #[trigger] self.contents@[i2]@[j2]
                                == old(self).contents@[i2]@[j2],
                    decreases h - j,
                {
                    let near_row = (j <= y && y - j <= 1) || (j > y && j - y <= 1);
                    if near_row {
                        self.contents[i][j] = Cell::random();
                    }
                    j = j + 1;
                }
            }
            i = i + 1;
        }
        proof {
            assert forall|i2: int| 0 <= i2 < w implies #[trigger] self.cells()[i2].len() == h by {
                lemma_grid_view_index(self.contents@, i2);
            }
            assert forall|i2: int, j2: int|
                0 <= i2 < w && 0 <= j2 < h && !in_block(i2, j2, x as int, y as int) implies #[trigger] self.cells()[i2][j2]
                == old(self).cells()[i2][j2] by {
                lemma_grid_view_index(self.contents@, i2);
                lemma_grid_view_index(old(self).contents@, i2);
            }
        }
    }
}

/// Determinism: the cascade holds no hidden randomness, so two grids with
/// identical cell contents — border included, counters free to differ — step
/// to identical next-generation interior cells and charge identical death
/// tallies.
pub proof fn lemma_step_deterministic(w1: World, w2: World)
    requires
        w1.wf(),
        w1.cells() == w2.cells(),
    ensures
        w2.wf(),
        w2.width() == w1.width(),
        w2.height() == w1.height(),
        forall|x: int, y: int|
            interior(x, y, w1.width(), w1.height()) ==> #[trigger] next_of(w1.cells(), x, y)
                == next_of(w2.cells(), x, y),
        forall|c: Cause| #[trigger] grid_deaths(w1.cells(), w1.height(), c) == grid_deaths(
            w2.cells(),
            w2.height(),
            c,
        ),
{
}

/// The running death tallies of a partly scanned interior stay strictly
/// under the interior's cell count, so one more increment cannot overflow.
proof fn lemma_partial_deaths_bound(g: Seq<Seq<Cell>>, x: int, y: int, w: int, h: int)
    requires
        1 <= x <= w - 2,
        1 <= y <= h - 2,
        w >= 3,
        h >= 3,
    ensures
        col_deaths(g, x, h, Cause::Fire) + row_deaths(g, x, y, Cause::Fire) + 1 <= (w - 2) * (h
            - 2),
        col_deaths(g, x, h, Cause::Sickness) + row_deaths(g, x, y, Cause::Sickness) + 1 <= (w - 2)
            * (h - 2),
        col_deaths(g, x, h, Cause::Drowning) + row_deaths(g, x, y, Cause::Drowning) + 1 <= (w - 2)
            * (h - 2),
{
    lemma_col_deaths_bounds(g, x, h, Cause::Fire);
    lemma_col_deaths_bounds(g, x, h, Cause::Sickness);
    lemma_col_deaths_bounds(g, x, h, Cause::Drowning);
    lemma_row_deaths_bounds(g, x, y, Cause::Fire);
    lemma_row_deaths_bounds(g, x, y, Cause::Sickness);
    lemma_row_deaths_bounds(g, x, y, Cause::Drowning);
    assert((x - 1) * (h - 2) + (h - 2) <= (w - 2) * (h - 2)) by (nonlinear_arith)
        requires
            1 <= x <= w - 2,
            h >= 3,
    ;
}

} // verus!
