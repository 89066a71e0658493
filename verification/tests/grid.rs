use conway_life::error::{EngineError, ShapeFault};
use conway_life::model::MAX_SIDE;
use conway_life::tab::{Cell, Tab};

fn pattern(side: usize, living: &[(usize, usize)]) -> Tab {
    let mut cells = vec![false; side * side];
    for &(x, y) in living {
        cells[x * side + y] = true;
    }
    Tab::from_cells(side, cells).unwrap()
}

#[test]
fn new_grid_is_dead_everywhere() {
    let tab = Tab::new(4).unwrap();
    assert_eq!(tab.side(), 4);
    assert_eq!(tab.cells(), &vec![false; 16]);
    assert_eq!(tab.living_count(), 0);
}

#[test]
fn new_grid_of_one_cell() {
    let tab = Tab::new(1).unwrap();
    assert_eq!(tab.side(), 1);
    assert_eq!(tab.cells(), &vec![false]);
}

#[test]
fn new_grid_refuses_side_zero() {
    assert_eq!(Tab::new(0), Err(EngineError::InvalidConfiguration));
}

#[test]
fn new_grid_refuses_side_beyond_limit() {
    assert_eq!(MAX_SIDE, 65535);
    assert_eq!(Tab::new(MAX_SIDE + 1), Err(EngineError::InvalidConfiguration));
}

#[test]
fn from_cells_keeps_row_major_order() {
    let tab = Tab::from_cells(2, vec![true, false, false, true]).unwrap();
    assert_eq!(tab.cell(0, 0), Ok(Cell { living: true }));
    assert_eq!(tab.cell(0, 1), Ok(Cell { living: false }));
    assert_eq!(tab.cell(1, 0), Ok(Cell { living: false }));
    assert_eq!(tab.cell(1, 1), Ok(Cell { living: true }));
    assert_eq!(tab.cells(), &vec![true, false, false, true]);
}

#[test]
fn from_cells_refuses_wrong_dimension() {
    assert_eq!(
        Tab::from_cells(0, vec![]),
        Err(EngineError::MalformedState(ShapeFault::Dimension))
    );
    assert_eq!(
        Tab::from_cells(MAX_SIDE + 1, vec![true]),
        Err(EngineError::MalformedState(ShapeFault::Dimension))
    );
}

#[test]
fn from_cells_refuses_wrong_cell_count() {
    assert_eq!(
        Tab::from_cells(2, vec![true, false, true]),
        Err(EngineError::MalformedState(ShapeFault::CellCount))
    );
    assert_eq!(
        Tab::from_cells(2, vec![false; 5]),
        Err(EngineError::MalformedState(ShapeFault::CellCount))
    );
}

#[test]
fn cell_outside_the_grid_is_out_of_range() {
    let tab = Tab::new(3).unwrap();
    assert_eq!(tab.cell(3, 0), Err(EngineError::OutOfRange));
    assert_eq!(tab.cell(0, 3), Err(EngineError::OutOfRange));
    assert_eq!(tab.cell(usize::MAX, usize::MAX), Err(EngineError::OutOfRange));
    assert_eq!(tab.cell(2, 2), Ok(Cell { living: false }));
}

#[test]
fn is_living_reads_the_cell() {
    let tab = pattern(3, &[(1, 2)]);
    assert!(tab.is_living(1, 2));
    assert!(!tab.is_living(2, 1));
}

#[test]
fn set_living_changes_one_cell() {
    let mut tab = Tab::new(3).unwrap();
    tab.set_living(2, 1, true);
    assert_eq!(tab, pattern(3, &[(2, 1)]));
    tab.set_living(2, 1, true);
    assert_eq!(tab, pattern(3, &[(2, 1)]));
    tab.set_living(2, 1, false);
    assert_eq!(tab, Tab::new(3).unwrap());
}

#[test]
fn living_count_counts_every_living_cell() {
    assert_eq!(pattern(4, &[(0, 0), (1, 3), (3, 3)]).living_count(), 3);
    assert_eq!(Tab::from_cells(3, vec![true; 9]).unwrap().living_count(), 9);
}

#[test]
fn revive_by_rank_takes_the_dead_cell_of_that_rank() {
    // dead cells stand at positions 1, 3 and 4
    let mut tab = Tab::from_cells(3, vec![true, false, true, false, false, true, true, true, true])
        .unwrap();
    assert_eq!(tab.revive_by_rank(1), 3);
    assert_eq!(
        tab.cells(),
        &vec![true, false, true, true, false, true, true, true, true]
    );
    assert_eq!(tab.revive_by_rank(1), 4);
    assert_eq!(tab.revive_by_rank(0), 1);
    assert_eq!(tab.living_count(), 9);
}

#[test]
fn revive_by_rank_zero_takes_the_first_dead_cell() {
    let mut tab = Tab::new(2).unwrap();
    assert_eq!(tab.revive_by_rank(0), 0);
    assert_eq!(tab.revive_by_rank(2), 3);
    assert_eq!(tab.cells(), &vec![true, false, false, true]);
}

#[test]
fn clone_of_a_grid_is_equal_and_independent() {
    let tab = pattern(3, &[(0, 1), (2, 2)]);
    let mut copy = tab.clone();
    assert_eq!(copy, tab);
    copy.set_living(1, 1, true);
    assert_eq!(tab, pattern(3, &[(0, 1), (2, 2)]));
    assert_eq!(copy, pattern(3, &[(0, 1), (1, 1), (2, 2)]));
}
