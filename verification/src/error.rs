//! The ways in which an operation of the engine can fail.

use vstd::prelude::*;

verus! {

/// The shape constraint that a stored state breaks.
#[derive(Clone, Copy, Debug, PartialEq, Eq, Structural)]
pub enum ShapeFault {
    /// The side of the grid is zero or larger than the engine allows.
    Dimension,
    /// The current grid does not hold side times side cells.
    CellCount,
    /// The initial snapshot does not hold side times side cells.
    SnapshotCount,
    /// The stored number of living cells differs from the number of living
    /// cells in the stored grid.
    LivingCount,
    /// The stored fill configuration lies outside its domain.
    Fill,
}

/// Why an operation was refused. A refused operation leaves the state as it
/// was.
#[derive(Clone, Copy, Debug, PartialEq, Eq, Structural)]
pub enum EngineError {
    /// A coordinate lies outside the grid.
    OutOfRange,
    /// A stored state does not have the shape of a state of the engine.
    MalformedState(ShapeFault),
    /// A density, a cell count or a side lies outside its domain.
    InvalidConfiguration,
}

} // verus!
