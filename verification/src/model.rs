//! The mathematical model: a grid as a row-major sequence of cells, the
//! neighbourhood on the torus, and the transition rule.

use vstd::prelude::*;

verus! {

/// The largest side of a grid. The number of cells of a grid of this side
/// still fits in a `u32`.
pub const MAX_SIDE: usize = 65535;

/// The number of living cells among `cells`.
pub open spec fn count_living(cells: Seq<bool>) -> nat
    decreases cells.len(),
{
    if cells.len() == 0 {
        0
    } else {
        count_living(cells.drop_last()) + if cells.last() { 1nat } else { 0nat }
    }
}

/// The number of dead cells among the first `at` of `cells`.
pub open spec fn dead_before(cells: Seq<bool>, at: int) -> int {
    at - count_living(cells.take(at))
}

/// The transition rule: a living cell stays alive with two or three living
/// neighbours, a dead cell comes alive with exactly three.
pub open spec fn survives(living: bool, neighbours: nat) -> bool {
    if living {
        neighbours == 2 || neighbours == 3
    } else {
        neighbours == 3
    }
}

/// A square grid of cells. The cell at `(x, y)` stands at index
/// `x * side + y` of `cells`.
pub struct Grid {
    pub side: nat,
    pub cells: Seq<bool>,
}

impl Grid {
    /// The grid has at least one cell, is no larger than the engine allows,
    /// and holds exactly side times side cells.
    pub open spec fn wf(self) -> bool {
        &&& 1 <= self.side <= MAX_SIDE
        &&& self.cells.len() == self.side * self.side
    }

    /// `(x, y)` is a coordinate of the grid.
    pub open spec fn holds(self, x: int, y: int) -> bool {
        0 <= x < self.side && 0 <= y < self.side
    }

    /// The index of the cell at `(x, y)`.
    pub open spec fn position(self, x: int, y: int) -> int {
        x * self.side + y
    }

    /// Whether the cell at `(x, y)` is living.
    pub open spec fn living(self, x: int, y: int) -> bool {
        self.cells[self.position(x, y)]
    }

    /// The number of living cells of the grid.
    pub open spec fn population(self) -> nat {
        count_living(self.cells)
    }

    /// 1 if the cell at offset `(dx, dy)` from `(x, y)` on the torus is a
    /// living cell other than `(x, y)` itself, else 0.
    pub open spec fn lives_beside(self, x: int, y: int, dx: int, dy: int) -> nat {
        let nx = (x + dx) % (self.side as int);
        let ny = (y + dy) % (self.side as int);
        if (nx != x || ny != y) && self.living(nx, ny) {
            1
        } else {
            0
        }
    }

    /// The number of living neighbours of `(x, y)`: the eight offsets around
    /// it, each wrapped around the edges, not counting an offset that leads
    /// back to `(x, y)`.
    pub open spec fn living_neighbours(self, x: int, y: int) -> nat {
        self.lives_beside(x, y, -1, -1) + self.lives_beside(x, y, -1, 0) + self.lives_beside(
            x,
            y,
            -1,
            1,
        ) + self.lives_beside(x, y, 0, -1) + self.lives_beside(x, y, 0, 1) + self.lives_beside(
            x,
            y,
            1,
            -1,
        ) + self.lives_beside(x, y, 1, 0) + self.lives_beside(x, y, 1, 1)
    }

    /// Whether the cell at `(x, y)` is living in the next generation.
    pub open spec fn next_living(self, x: int, y: int) -> bool {
        survives(self.living(x, y), self.living_neighbours(x, y))
    }

    /// The next generation: every cell decided from this grid alone.
    pub open spec fn next(self) -> Grid {
        Grid {
            side: self.side,
            cells: Seq::new(
                self.cells.len(),
                |i: int| self.next_living(i / (self.side as int), i % (self.side as int)),
            ),
        }
    }

    /// The grid with the cell at `(x, y)` flipped.
    pub open spec fn toggled(self, x: int, y: int) -> Grid {
        Grid {
            side: self.side,
            cells: self.cells.update(self.position(x, y), !self.living(x, y)),
        }
    }
}

} // verus!
