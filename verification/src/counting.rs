//! Facts about positions in a row-major grid and about counting living
//! cells, on which the proofs of the engine rest.

use vstd::prelude::*;
use vstd::arithmetic::div_mod::{lemma_fundamental_div_mod_converse, lemma_mod_add_multiples_vanish, lemma_small_mod};
use crate::model::{count_living, dead_before, Grid};

verus! {

/// A coordinate inside the grid has its position inside the row-major
/// sequence.
pub proof fn lemma_position_in_bounds(side: int, x: int, y: int)
    requires
        0 <= x < side,
        0 <= y < side,
    ensures
        0 <= x * side + y < side * side,
        x * side + y < (x + 1) * side,
{
    assert(x * side >= 0) by (nonlinear_arith)
        requires
            0 <= x,
            0 <= side,
    ;
    assert((x + 1) * side == x * side + side) by (nonlinear_arith);
    assert((x + 1) * side <= side * side) by (nonlinear_arith)
        requires
            x + 1 <= side,
            0 <= side,
    ;
}

/// A position gives its coordinate back by division and remainder.
pub proof fn lemma_position_splits(side: int, x: int, y: int)
    requires
        0 <= x < side,
        0 <= y < side,
    ensures
        (x * side + y) / side == x,
        (x * side + y) % side == y,
{
    assert(x * side + y == side * x + y) by (nonlinear_arith);
    lemma_fundamental_div_mod_converse(x * side + y, side, x, y);
}

/// An index of the row-major sequence is the position of the coordinate that
/// division and remainder give.
pub proof fn lemma_index_is_position(side: int, i: int)
    requires
        0 < side,
        0 <= i < side * side,
    ensures
        0 <= i / side < side,
        0 <= i % side < side,
        (i / side) * side + i % side == i,
{
    vstd::arithmetic::div_mod::lemma_fundamental_div_mod(i, side);
    vstd::arithmetic::div_mod::lemma_mod_bound(i, side);
    let q = i / side;
    assert(side * q == q * side) by (nonlinear_arith);
    assert(q >= 0) by (nonlinear_arith)
        requires
            q * side + i % side == i,
            0 <= i % side < side,
            0 <= i,
            0 < side,
    ;
    assert(q < side) by (nonlinear_arith)
        requires
            q * side + i % side == i,
            0 <= i % side < side,
            i < side * side,
            0 < side,
    ;
}

/// The coordinate one step before `i` on a circle of `side` places.
pub proof fn lemma_wrap_back(side: int, i: int)
    requires
        0 <= i < side,
    ensures
        (i - 1) % side == if i == 0 { side - 1 } else { i - 1 },
{
    if i == 0 {
        lemma_mod_add_multiples_vanish(-1, side);
        lemma_small_mod((side - 1) as nat, side as nat);
    } else {
        lemma_small_mod((i - 1) as nat, side as nat);
    }
}

/// The coordinate one step after `i` on a circle of `side` places.
pub proof fn lemma_wrap_forth(side: int, i: int)
    requires
        0 <= i < side,
    ensures
        (i + 1) % side == if i == side - 1 { 0 } else { i + 1 },
{
    if i == side - 1 {
        lemma_mod_add_multiples_vanish(0, side);
        lemma_small_mod(0, side as nat);
    } else {
        lemma_small_mod((i + 1) as nat, side as nat);
    }
}

/// A coordinate inside the circle wraps to itself.
pub proof fn lemma_wrap_stay(side: int, i: int)
    requires
        0 <= i < side,
    ensures
        i % side == i,
{
    lemma_small_mod(i as nat, side as nat);
}

/// Counting one more cell adds one exactly when that cell is living.
pub proof fn lemma_count_push(cells: Seq<bool>, living: bool)
    ensures
        count_living(cells.push(living)) == count_living(cells) + if living { 1nat } else { 0nat },
{
    assert(cells.push(living).drop_last() =~= cells);
}

/// No more cells are living than there are cells.
pub proof fn lemma_count_bounded(cells: Seq<bool>)
    ensures
        count_living(cells) <= cells.len(),
    decreases cells.len(),
{
    if cells.len() > 0 {
        lemma_count_bounded(cells.drop_last());
    }
}

/// The count of a sequence is the count of a prefix plus the count of the
/// rest.
pub proof fn lemma_count_split(cells: Seq<bool>, at: int)
    requires
        0 <= at <= cells.len(),
    ensures
        count_living(cells) == count_living(cells.take(at)) + count_living(cells.skip(at)),
    decreases cells.len(),
{
    if at == cells.len() {
        assert(cells.take(at) =~= cells);
        assert(cells.skip(at) =~= Seq::<bool>::empty());
    } else {
        lemma_count_split(cells.drop_last(), at);
        assert(cells.drop_last().take(at) =~= cells.take(at));
        assert(cells.skip(at).drop_last() =~= cells.drop_last().skip(at));
    }
}

/// The count from a cell on is that cell plus the count after it.
pub proof fn lemma_count_peel(cells: Seq<bool>, at: int)
    requires
        0 <= at < cells.len(),
    ensures
        count_living(cells.skip(at)) == count_living(cells.skip(at + 1)) + if cells[at] {
            1nat
        } else {
            0nat
        },
{
    let rest = cells.skip(at);
    lemma_count_split(rest, 1);
    assert(rest.skip(1) =~= cells.skip(at + 1));
    assert(rest.take(1).drop_last() =~= Seq::<bool>::empty());
    assert(rest.take(1).last() == cells[at]);
    assert(count_living(rest.take(1)) == count_living(rest.take(1).drop_last()) + if cells[at] {
        1nat
    } else {
        0nat
    });
}

/// Changing one cell changes the count by that cell alone.
pub proof fn lemma_count_update(cells: Seq<bool>, at: int, living: bool)
    requires
        0 <= at < cells.len(),
    ensures
        count_living(cells.update(at, living)) + (if cells[at] { 1nat } else { 0nat })
            == count_living(cells) + if living { 1nat } else { 0nat },
    decreases cells.len(),
{
    if at == cells.len() - 1 {
        assert(cells.update(at, living).drop_last() =~= cells.drop_last());
    } else {
        lemma_count_update(cells.drop_last(), at, living);
        assert(cells.update(at, living).drop_last() =~= cells.drop_last().update(at, living));
    }
}

/// Passing one more cell passes one more dead cell exactly when that cell is
/// dead.
pub proof fn lemma_dead_before_next(cells: Seq<bool>, at: int)
    requires
        0 <= at < cells.len(),
    ensures
        dead_before(cells, at + 1) == dead_before(cells, at) + if cells[at] { 0int } else { 1int },
        dead_before(cells, 0) == 0,
        dead_before(cells, cells.len() as int) == cells.len() - count_living(cells),
{
    lemma_count_push(cells.take(at), cells[at]);
    assert(cells.take(at).push(cells[at]) =~= cells.take(at + 1));
    assert(cells.take(cells.len() as int) =~= cells);
    assert(cells.take(0) =~= Seq::<bool>::empty());
}

/// The dead cells before a place are no more than the dead cells before a
/// later place.
pub proof fn lemma_dead_before_grows(cells: Seq<bool>, from: int, to: int)
    requires
        0 <= from <= to <= cells.len(),
    ensures
        dead_before(cells, from) <= dead_before(cells, to),
    decreases to - from,
{
    if from < to {
        lemma_dead_before_next(cells, to - 1);
        lemma_dead_before_grows(cells, from, to - 1);
    }
}

/// Where no cell is living the count is zero.
pub proof fn lemma_count_none(cells: Seq<bool>)
    requires
        forall|i: int| 0 <= i < cells.len() ==> !cells[i],
    ensures
        count_living(cells) == 0,
    decreases cells.len(),
{
    if cells.len() > 0 {
        lemma_count_none(cells.drop_last());
    }
}

/// In a well-formed grid the position of a coordinate is an index of the
/// cells, and every index fits in a `u32`.
pub proof fn lemma_grid_position(grid: Grid, x: int, y: int)
    requires
        grid.wf(),
        grid.holds(x, y),
    ensures
        0 <= x * grid.side <= grid.position(x, y) < grid.cells.len() <= u32::MAX,
{
    lemma_position_in_bounds(grid.side as int, x, y);
    lemma_population_fits(grid);
    assert(x * grid.side >= 0) by (nonlinear_arith)
        requires
            0 <= x,
            0 <= grid.side,
    ;
}

/// A well-formed grid has no more living cells than a `u32` holds.
pub proof fn lemma_population_fits(grid: Grid)
    requires
        grid.wf(),
    ensures
        grid.population() <= grid.side * grid.side <= u32::MAX,
{
    lemma_count_bounded(grid.cells);
    let side = grid.side as int;
    assert(side * side <= 65535 * 65535) by (nonlinear_arith)
        requires
            0 <= side <= 65535,
    ;
}

} // verus!
