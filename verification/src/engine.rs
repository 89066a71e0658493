//! The mathematical model of a session: the current grid, the snapshot taken
//! when the grid was populated, the counters, and what each operation makes
//! of them.

use vstd::prelude::*;
use crate::model::Grid;
use crate::screen::Screen;

verus! {

/// How a grid is populated at random.
#[derive(Clone, Copy, Debug, PartialEq, Eq, Structural)]
pub enum FillMode {
    /// Every cell is living with this probability, in hundredths: a value
    /// from 1 to 99.
    Density(u32),
    /// Exactly this many cells are living: a value from 1 to the number of
    /// cells.
    FixedCount(u32),
}

impl FillMode {
    /// The configuration lies in its domain for a grid of the given side.
    pub open spec fn fits(self, side: nat) -> bool {
        match self {
            FillMode::Density(percent) => 1 <= percent <= 99,
            FillMode::FixedCount(count) => 1 <= count <= side * side,
        }
    }
}

/// The first generation of a population.
pub const FIRST_GENERATION: u64 = 1;

/// The state of a session.
pub struct Engine {
    /// The current grid.
    pub grid: Grid,
    /// The grid as it was when it was populated.
    pub initial: Grid,
    /// The number of the current generation.
    pub generation: nat,
    /// The number of living cells that the session reports.
    pub living_count: nat,
    /// The number of living cells counted when the grid was populated.
    pub initial_count: nat,
    /// How the grid was populated.
    pub fill: FillMode,
    /// The screen that the session shows.
    pub screen: Screen,
}

impl Engine {
    /// Both grids are well formed and of one side, each count is the number
    /// of living cells of its grid, and the fill configuration is in its
    /// domain.
    pub open spec fn wf(self) -> bool {
        &&& self.grid.wf()
        &&& self.initial.wf()
        &&& self.initial.side == self.grid.side
        &&& self.living_count == self.grid.population()
        &&& self.initial_count == self.initial.population()
        &&& self.fill.fits(self.grid.side)
    }

    /// The state after the grid has moved to its next generation, the
    /// generation counter left as it is.
    pub open spec fn evolved(self) -> Engine {
        Engine { grid: self.grid.next(), living_count: self.grid.next().population(), ..self }
    }

    /// The state one generation later.
    pub open spec fn stepped(self) -> Engine {
        Engine { generation: self.generation + 1, ..self.evolved() }
    }

    /// The state the given number of generations later.
    pub open spec fn advanced(self, steps: nat) -> Engine
        decreases steps,
    {
        if steps == 0 {
            self
        } else {
            self.stepped().advanced((steps - 1) as nat)
        }
    }

    /// The state with the cell at `(x, y)` flipped.
    pub open spec fn toggled(self, x: int, y: int) -> Engine {
        Engine {
            grid: self.grid.toggled(x, y),
            living_count: self.grid.toggled(x, y).population(),
            ..self
        }
    }

    /// The state brought back to its initial snapshot, on the simulation
    /// screen.
    pub open spec fn rewound(self) -> Engine {
        Engine {
            grid: self.initial,
            generation: FIRST_GENERATION as nat,
            living_count: self.initial_count,
            screen: Screen::Simul,
            ..self
        }
    }

    /// The state after the given grid has become the population.
    pub open spec fn populated(self, grid: Grid, fill: FillMode) -> Engine {
        Engine {
            grid,
            initial: grid,
            generation: FIRST_GENERATION as nat,
            living_count: grid.population(),
            initial_count: grid.population(),
            fill,
            ..self
        }
    }
}

/// Advancing by one generation more is advancing and then stepping once.
pub proof fn lemma_advanced_once_more(start: Engine, steps: nat)
    ensures
        start.advanced(steps + 1) == start.advanced(steps).stepped(),
    decreases steps,
{
    if steps == 0 {
        assert(start.advanced(1) == start.stepped().advanced(0));
    } else {
        lemma_advanced_once_more(start.stepped(), (steps - 1) as nat);
        assert(start.advanced(steps + 1) == start.stepped().advanced(steps));
    }
}

} // verus!
