//! A pattern whose fate is known on every grid: the blinker.

use vstd::prelude::*;
use crate::counting::{
    lemma_index_is_position, lemma_position_in_bounds, lemma_position_splits, lemma_wrap_back,
    lemma_wrap_forth, lemma_wrap_stay,
};
use crate::model::{Grid, MAX_SIDE};

verus! {

/// The grid of the given side on which exactly the cells `(1, 0)`, `(1, 1)`
/// and `(1, 2)` are living.
pub open spec fn blinker_row(side: nat) -> Grid {
    Grid {
        side,
        cells: Seq::new(side * side, |i: int| i / (side as int) == 1 && i % (side as int) <= 2),
    }
}

/// The grid of the given side on which exactly the cells `(0, 1)`, `(1, 1)`
/// and `(2, 1)` are living.
pub open spec fn blinker_column(side: nat) -> Grid {
    Grid {
        side,
        cells: Seq::new(side * side, |i: int| i % (side as int) == 1 && i / (side as int) <= 2),
    }
}

/// The coordinate `step` places after `i` on a circle of `side` places, for a
/// step of one place back, none, or one place forth.
spec fn wrapped(side: int, i: int, step: int) -> int {
    if step == -1 {
        if i == 0 {
            side - 1
        } else {
            i - 1
        }
    } else if step == 1 {
        if i == side - 1 {
            0
        } else {
            i + 1
        }
    } else {
        i
    }
}

/// Which cells of the two blinker grids are living, and what one offset
/// around a cell adds to its count of living neighbours on each.
proof fn lemma_blinker_beside(side: nat, x: int, y: int, dx: int, dy: int)
    requires
        5 <= side <= MAX_SIDE,
        0 <= x < side,
        0 <= y < side,
        -1 <= dx <= 1,
        -1 <= dy <= 1,
    ensures
        blinker_row(side).living(x, y) == (x == 1 && y <= 2),
        blinker_column(side).living(x, y) == (y == 1 && x <= 2),
        ({
            let nx = wrapped(side as int, x, dx);
            let ny = wrapped(side as int, y, dy);
            &&& blinker_row(side).lives_beside(x, y, dx, dy) == if (nx != x || ny != y) && nx == 1
                && ny <= 2 {
                1nat
            } else {
                0nat
            }
            &&& blinker_column(side).lives_beside(x, y, dx, dy) == if (nx != x || ny != y) && ny
                == 1 && nx <= 2 {
                1nat
            } else {
                0nat
            }
        }),
{
    let n = side as int;
    let nx = wrapped(n, x, dx);
    let ny = wrapped(n, y, dy);
    lemma_wrap_back(n, x);
    lemma_wrap_forth(n, x);
    lemma_wrap_stay(n, x);
    lemma_wrap_back(n, y);
    lemma_wrap_forth(n, y);
    lemma_wrap_stay(n, y);
    assert((x + dx) % n == nx);
    assert((y + dy) % n == ny);
    lemma_position_in_bounds(n, x, y);
    lemma_position_splits(n, x, y);
    lemma_position_in_bounds(n, nx, ny);
    lemma_position_splits(n, nx, ny);
}

/// The count of living neighbours of a cell on each of the two blinker
/// grids, and with it the cell in the next generation.
proof fn lemma_blinker_next(side: nat, x: int, y: int)
    requires
        5 <= side <= MAX_SIDE,
        0 <= x < side,
        0 <= y < side,
    ensures
        blinker_row(side).next_living(x, y) == (y == 1 && x <= 2),
        blinker_column(side).next_living(x, y) == (x == 1 && y <= 2),
{
    lemma_blinker_beside(side, x, y, -1, -1);
    lemma_blinker_beside(side, x, y, -1, 0);
    lemma_blinker_beside(side, x, y, -1, 1);
    lemma_blinker_beside(side, x, y, 0, -1);
    lemma_blinker_beside(side, x, y, 0, 1);
    lemma_blinker_beside(side, x, y, 1, -1);
    lemma_blinker_beside(side, x, y, 1, 0);
    lemma_blinker_beside(side, x, y, 1, 1);
}

/// On every grid of side five or more the blinker oscillates with period
/// two: the row of three living cells becomes a column of three, and the
/// column becomes the row again.
pub proof fn law_blinker_has_period_two(side: nat)
    requires
        5 <= side <= MAX_SIDE,
    ensures
        blinker_row(side).wf(),
        blinker_row(side).next() == blinker_column(side),
        blinker_column(side).next() == blinker_row(side),
        blinker_row(side).next().next() == blinker_row(side),
{
    let n = side as int;
    let row = blinker_row(side);
    let column = blinker_column(side);
    assert forall|i: int| 0 <= i < side * side implies row.next().cells[i] == column.cells[i]
        && column.next().cells[i] == row.cells[i] by {
        lemma_index_is_position(n, i);
        lemma_blinker_next(side, i / n, i % n);
    }
    assert(row.next().cells =~= column.cells);
    assert(column.next().cells =~= row.cells);
}

} // verus!
