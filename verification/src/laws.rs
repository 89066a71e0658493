//! What holds of the engine whatever the grid: the statements that relate
//! several operations, proved over the model.

use vstd::prelude::*;
use crate::counting::{
    lemma_count_none, lemma_count_update, lemma_dead_before_grows, lemma_dead_before_next,
    lemma_grid_position, lemma_position_splits,
};
use crate::engine::{Engine, FillMode, FIRST_GENERATION};
use crate::model::{dead_before, survives, Grid};
use crate::record::Record;
use crate::screen::Screen;

verus! {

/// In the next generation the cell at `(x, y)` is what the transition rule
/// makes of the cell and its living neighbours in this generation.
pub proof fn law_next_follows_rule(grid: Grid, x: int, y: int)
    requires
        grid.wf(),
        grid.holds(x, y),
    ensures
        grid.next().wf(),
        grid.next().living(x, y) == survives(grid.living(x, y), grid.living_neighbours(x, y)),
{
    lemma_grid_position(grid, x, y);
    lemma_position_splits(grid.side as int, x, y);
}

/// A living cell without a living neighbour dies; a living cell with four
/// or more living neighbours dies; a dead cell with exactly three living
/// neighbours comes alive.
pub proof fn law_death_and_birth(grid: Grid, x: int, y: int)
    requires
        grid.wf(),
        grid.holds(x, y),
    ensures
        grid.living(x, y) && grid.living_neighbours(x, y) == 0 ==> !grid.next().living(x, y),
        grid.living(x, y) && grid.living_neighbours(x, y) >= 4 ==> !grid.next().living(x, y),
        !grid.living(x, y) && grid.living_neighbours(x, y) == 3 ==> grid.next().living(x, y),
{
    law_next_follows_rule(grid, x, y);
}

/// A cell never has more than eight living neighbours.
pub proof fn law_at_most_eight_neighbours(grid: Grid, x: int, y: int)
    ensures
        grid.living_neighbours(x, y) <= 8,
{
}

/// On a grid of a single cell the cell has no neighbour but itself, so its
/// count of living neighbours is zero and the next generation is empty.
pub proof fn law_single_cell_is_alone(grid: Grid)
    requires
        grid.wf(),
        grid.side == 1,
    ensures
        grid.living_neighbours(0, 0) == 0,
        !grid.next().living(0, 0),
        grid.next().population() == 0,
{
    assert((0 + (-1)) % 1 == 0 && (0 + 0) % 1 == 0 && (0 + 1) % 1 == 0);
    assert(grid.lives_beside(0, 0, -1, -1) == 0);
    assert(grid.lives_beside(0, 0, -1, 0) == 0);
    assert(grid.lives_beside(0, 0, -1, 1) == 0);
    assert(grid.lives_beside(0, 0, 0, -1) == 0);
    assert(grid.lives_beside(0, 0, 0, 1) == 0);
    assert(grid.lives_beside(0, 0, 1, -1) == 0);
    assert(grid.lives_beside(0, 0, 1, 0) == 0);
    assert(grid.lives_beside(0, 0, 1, 1) == 0);
    law_next_follows_rule(grid, 0, 0);
    lemma_count_none(grid.next().cells);
}

/// A step is a function of the grid alone: two sessions with the same grid
/// have the same grid and the same count of living cells after a step.
pub proof fn law_step_depends_on_grid_alone(one: Engine, other: Engine)
    requires
        one.grid == other.grid,
    ensures
        one.stepped().grid == other.stepped().grid,
        one.stepped().living_count == other.stepped().living_count,
{
}

/// Every operation keeps the session well formed: after a step, a toggle
/// inside the grid, a rewind or a population, the count of living cells is
/// the number of living cells of the grid.
pub proof fn law_count_follows_grid(session: Engine, x: int, y: int, grid: Grid, fill: FillMode)
    requires
        session.wf(),
    ensures
        session.stepped().wf(),
        session.grid.holds(x, y) ==> session.toggled(x, y).wf(),
        session.rewound().wf(),
        grid.wf() && grid.side == session.grid.side && fill.fits(grid.side)
            ==> session.populated(grid, fill).wf(),
{
    if session.grid.holds(x, y) {
        lemma_grid_position(session.grid, x, y);
    }
}

/// A toggle inside the grid moves the count of living cells by exactly one:
/// up where the cell was dead, down where it was living.
pub proof fn law_toggle_moves_count_by_one(session: Engine, x: int, y: int)
    requires
        session.wf(),
        session.grid.holds(x, y),
    ensures
        session.grid.living(x, y) ==> session.toggled(x, y).living_count == session.living_count
            - 1,
        !session.grid.living(x, y) ==> session.toggled(x, y).living_count
            == session.living_count + 1,
        session.toggled(x, y).toggled(x, y).grid == session.grid,
{
    lemma_grid_position(session.grid, x, y);
    lemma_count_update(
        session.grid.cells,
        session.grid.position(x, y),
        !session.grid.living(x, y),
    );
    assert(session.toggled(x, y).toggled(x, y).grid.cells =~= session.grid.cells);
}

/// A rank names one dead cell: two dead cells with the same number of dead
/// cells before them are the same cell.
pub proof fn law_rank_names_one_cell(cells: Seq<bool>, one: int, other: int)
    requires
        0 <= one < cells.len(),
        0 <= other < cells.len(),
        !cells[one],
        !cells[other],
        dead_before(cells, one) == dead_before(cells, other),
    ensures
        one == other,
{
    if one < other {
        lemma_dead_before_next(cells, one);
        lemma_dead_before_grows(cells, one + 1, other);
    } else if other < one {
        lemma_dead_before_next(cells, other);
        lemma_dead_before_grows(cells, other + 1, one);
    }
}

/// Steps leave the initial snapshot alone: after any number of steps a
/// rewind gives the grid and the count taken at the last population, at the
/// first generation.
pub proof fn law_rewind_undoes_steps(session: Engine, steps: nat)
    ensures
        session.advanced(steps).rewound() == session.rewound(),
        session.advanced(steps).rewound().grid == session.initial,
        session.advanced(steps).rewound().living_count == session.initial_count,
        session.advanced(steps).rewound().generation == FIRST_GENERATION,
        session.advanced(steps).generation == session.generation + steps,
    decreases steps,
{
    if steps > 0 {
        law_rewind_undoes_steps(session.stepped(), (steps - 1) as nat);
    }
}

/// A rewind right after a population changes nothing but the screen.
pub proof fn law_rewind_after_population(session: Engine, grid: Grid, fill: FillMode)
    ensures
        session.populated(grid, fill).rewound() == (Engine {
            screen: Screen::Simul,
            ..session.populated(grid, fill)
        }),
{
}

/// A record breaks no shape constraint exactly when the state that it
/// describes is well formed.
pub proof fn law_sound_record_is_well_formed(record: Record)
    ensures
        record.fault() is None <==> record.engine().wf(),
{
}

/// Saving and loading gives the session back: the record of a well-formed
/// session breaks no shape constraint, and the state that it describes has
/// the grid, the snapshot, the generation, the counts and the fill
/// configuration of the session.
pub proof fn law_record_round_trip(session: Engine, record: Record)
    requires
        session.wf(),
        record.engine() == (Engine { screen: Screen::Simul, ..session }),
    ensures
        record.fault() is None,
        record.engine().grid == session.grid,
        record.engine().initial == session.initial,
        record.engine().generation == session.generation,
        record.engine().living_count == session.living_count,
        record.engine().initial_count == session.initial_count,
        record.engine().fill == session.fill,
{
}

} // verus!
