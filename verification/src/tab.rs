//! The grid as it is stored: a side and the cells in row-major order.

use vstd::prelude::*;
use crate::counting::{
    lemma_count_bounded, lemma_count_none, lemma_count_push, lemma_dead_before_grows,
    lemma_dead_before_next, lemma_grid_position, lemma_population_fits,
};
use crate::error::{EngineError, ShapeFault};
use crate::model::{Grid, MAX_SIDE, count_living, dead_before};

verus! {

/// One cell of the grid. A cell has no identity beyond its place.
#[derive(Clone, Copy, Debug, PartialEq, Eq, Structural)]
pub struct Cell {
    pub living: bool,
}

/// A square grid of cells.
#[derive(Debug, PartialEq, Eq)]
pub struct Tab {
    side: usize,
    cells: Vec<bool>,
}

impl View for Tab {
    type V = Grid;

    closed spec fn view(&self) -> Grid {
        Grid { side: self.side as nat, cells: self.cells@ }
    }
}

impl Tab {
    /// The invariant of a stored grid: that of its model.
    pub open spec fn wf(&self) -> bool {
        self@.wf()
    }

    /// A grid of the given side with every cell dead. The side must lie
    /// between 1 and [`MAX_SIDE`].
    pub fn new(side: usize) -> (made: Result<Tab, EngineError>)
        ensures
            made is Ok <==> 1 <= side <= MAX_SIDE,
            made matches Ok(tab) ==> {
                &&& tab.wf()
                &&& tab@.side == side
                &&& tab@.cells == Seq::new((side * side) as nat, |i: int| false)
                &&& tab@.population() == 0
            },
            made matches Err(e) ==> e == EngineError::InvalidConfiguration,
    {
        if side == 0 || side > MAX_SIDE {
            return Err(EngineError::InvalidConfiguration);
        }
        assert(side * side <= 65535 * 65535) by (nonlinear_arith)
            requires
                0 <= side <= 65535,
        ;
        let total: usize = side * side;
        let mut cells: Vec<bool> = Vec::new();
        while cells.len() < total
            invariant
                cells.len() <= total,
                forall|i: int| 0 <= i < cells.len() ==> !cells[i],
            decreases total - cells.len(),
        {
            cells.push(false);
        }
        proof {
            lemma_count_none(cells@);
            assert(cells@ =~= Seq::new((side * side) as nat, |i: int| false));
        }
        Ok(Tab { side, cells })
    }

    /// The grid of the given side that holds the given cells in row-major
    /// order. The side must lie between 1 and [`MAX_SIDE`], and there must be
    /// side times side cells.
    pub fn from_cells(side: usize, cells: Vec<bool>) -> (made: Result<Tab, EngineError>)
        ensures
            made is Ok <==> (Grid { side: side as nat, cells: cells@ }).wf(),
            made matches Ok(tab) ==> tab@ == (Grid { side: side as nat, cells: cells@ }),
            made matches Err(e) ==> e == EngineError::MalformedState(
                if 1 <= side <= MAX_SIDE {
                    ShapeFault::CellCount
                } else {
                    ShapeFault::Dimension
                },
            ),
    {
        if side == 0 || side > MAX_SIDE {
            return Err(EngineError::MalformedState(ShapeFault::Dimension));
        }
        assert(side * side <= 65535 * 65535) by (nonlinear_arith)
            requires
                0 <= side <= 65535,
        ;
        if cells.len() != side * side {
            return Err(EngineError::MalformedState(ShapeFault::CellCount));
        }
        Ok(Tab { side, cells })
    }

    /// The grid of the given side over cells that are known to be side times
    /// side many.
    pub(crate) fn assemble(side: usize, cells: Vec<bool>) -> (tab: Tab)
        requires
            (Grid { side: side as nat, cells: cells@ }).wf(),
        ensures
            tab@ == (Grid { side: side as nat, cells: cells@ }),
    {
        Tab { side, cells }
    }

    /// The side of the grid.
    pub fn side(&self) -> (side: usize)
        ensures
            side == self@.side,
    {
        self.side
    }

    /// The cells in row-major order.
    pub fn cells(&self) -> (cells: &Vec<bool>)
        ensures
            cells@ == self@.cells,
    {
        &self.cells
    }

    /// Whether the cell at `(x, y)` is living.
    pub fn is_living(&self, x: usize, y: usize) -> (living: bool)
        requires
            self.wf(),
            self@.holds(x as int, y as int),
        ensures
            living == self@.living(x as int, y as int),
    {
        proof {
            lemma_grid_position(self@, x as int, y as int);
        }
        self.cells[x * self.side + y]
    }

    /// The cell at `(x, y)`, or `OutOfRange` where the grid has no such cell.
    pub fn cell(&self, x: usize, y: usize) -> (found: Result<Cell, EngineError>)
        requires
            self.wf(),
        ensures
            found is Ok <==> self@.holds(x as int, y as int),
            found matches Ok(cell) ==> cell.living == self@.living(x as int, y as int),
            found matches Err(e) ==> e == EngineError::OutOfRange,
    {
        if x >= self.side || y >= self.side {
            return Err(EngineError::OutOfRange);
        }
        Ok(Cell { living: self.is_living(x, y) })
    }

    /// Makes the cell at `(x, y)` living or dead and leaves every other cell
    /// as it was.
    pub fn set_living(&mut self, x: usize, y: usize, living: bool)
        requires
            old(self).wf(),
            old(self)@.holds(x as int, y as int),
        ensures
            final(self)@ == (Grid {
                side: old(self)@.side,
                cells: old(self)@.cells.update(old(self)@.position(x as int, y as int), living),
            }),
    {
        proof {
            lemma_grid_position(self@, x as int, y as int);
        }
        self.cells.set(x * self.side + y, living);
    }

    /// Makes living the dead cell that has exactly `rank` dead cells before it
    /// in row-major order, and returns its position. There must be more than
    /// `rank` dead cells.
    pub fn revive_by_rank(&mut self, rank: usize) -> (at: usize)
        requires
            old(self).wf(),
            rank < old(self)@.cells.len() - old(self)@.population(),
        ensures
            at < old(self)@.cells.len(),
            !old(self)@.cells[at as int],
            dead_before(old(self)@.cells, at as int) == rank,
            final(self)@ == (Grid {
                side: old(self)@.side,
                cells: old(self)@.cells.update(at as int, true),
            }),
    {
        let ghost cells = self.cells@;
        let mut at: usize = 0;
        let mut ahead: usize = rank;
        proof {
            lemma_population_fits(self@);
            lemma_count_bounded(cells);
            lemma_dead_before_next(cells, 0);
        }
        while self.cells[at] || ahead > 0
            invariant
                *self == *old(self),
                cells == self.cells@,
                cells.len() == self.cells.len(),
                at < cells.len(),
                rank < cells.len() - count_living(cells),
                ahead + dead_before(cells, at as int) == rank,
            decreases cells.len() - at,
        {
            proof {
                lemma_dead_before_next(cells, at as int);
                lemma_dead_before_grows(cells, at + 1, cells.len() as int);
            }
            if !self.cells[at] {
                ahead = ahead - 1;
            }
            at = at + 1;
        }
        self.cells.set(at, true);
        at
    }

    /// The number of living cells, counted cell by cell.
    pub fn living_count(&self) -> (count: u32)
        requires
            self.wf(),
        ensures
            count == self@.population(),
    {
        proof {
            lemma_population_fits(self@);
        }
        let mut count: u32 = 0;
        let mut i: usize = 0;
        while i < self.cells.len()
            invariant
                i <= self.cells.len(),
                self.cells.len() <= u32::MAX,
                count == count_living(self.cells@.take(i as int)),
                count <= i,
            decreases self.cells.len() - i,
        {
            proof {
                lemma_count_push(self.cells@.take(i as int), self.cells@[i as int]);
                assert(self.cells@.take(i as int).push(self.cells@[i as int]) =~= self.cells@.take(
                    i + 1,
                ));
            }
            if self.cells[i] {
                count = count + 1;
            }
            i = i + 1;
        }
        proof {
            assert(self.cells@.take(i as int) =~= self.cells@);
        }
        count
    }
}

impl Clone for Tab {
    /// A grid with the same side and the same cells.
    fn clone(&self) -> (copy: Tab)
        ensures
            copy@ == self@,
    {
        let mut cells: Vec<bool> = Vec::new();
        let mut i: usize = 0;
        while i < self.cells.len()
            invariant
                i <= self.cells.len(),
                cells@ == self.cells@.take(i as int),
            decreases self.cells.len() - i,
        {
            cells.push(self.cells[i]);
            proof {
                assert(cells@ =~= self.cells@.take(i + 1));
            }
            i = i + 1;
        }
        proof {
            assert(self.cells@.take(i as int) =~= self.cells@);
        }
        Tab { side: self.side, cells }
    }
}

} // verus!
