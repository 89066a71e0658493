//! The record of a session: its state as plain values, as it is saved and
//! loaded.

use vstd::prelude::*;
use crate::engine::{Engine, FillMode};
use crate::error::ShapeFault;
use crate::model::{Grid, MAX_SIDE, count_living};
use crate::screen::Screen;

verus! {

/// Every field of the state of a session, the grids in row-major order.
#[derive(Debug, PartialEq, Eq)]
pub struct Record {
    pub side: usize,
    pub cells: Vec<bool>,
    pub initial_cells: Vec<bool>,
    pub generation: u64,
    pub living_count: u32,
    pub initial_count: u32,
    pub fill: FillMode,
}

impl Record {
    /// The state that the record describes; a loaded session shows the
    /// simulation screen.
    pub open spec fn engine(self) -> Engine {
        Engine {
            grid: Grid { side: self.side as nat, cells: self.cells@ },
            initial: Grid { side: self.side as nat, cells: self.initial_cells@ },
            generation: self.generation as nat,
            living_count: self.living_count as nat,
            initial_count: self.initial_count as nat,
            fill: self.fill,
            screen: Screen::Simul,
        }
    }

    /// The first shape constraint that the record breaks, if it breaks any.
    pub open spec fn fault(self) -> Option<ShapeFault> {
        if !(1 <= self.side <= MAX_SIDE) {
            Some(ShapeFault::Dimension)
        } else if self.cells@.len() != self.side * self.side {
            Some(ShapeFault::CellCount)
        } else if self.initial_cells@.len() != self.side * self.side {
            Some(ShapeFault::SnapshotCount)
        } else if self.living_count != count_living(self.cells@) || self.initial_count
            != count_living(self.initial_cells@) {
            Some(ShapeFault::LivingCount)
        } else if !self.fill.fits(self.side as nat) {
            Some(ShapeFault::Fill)
        } else {
            None
        }
    }
}

} // verus!
