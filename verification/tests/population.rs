use conway_life::conway::{Conway, DEFAULT_DENSITY, DEFAULT_SIDE};
use conway_life::engine::{FillMode, FIRST_GENERATION};
use conway_life::error::EngineError;
use conway_life::screen::Screen;
use conway_life::tab::Tab;

fn empty(side: usize) -> Conway {
    Conway::from_grid(Tab::new(side).unwrap(), FillMode::Density(25)).unwrap()
}

fn literal_count(tab: &Tab) -> u32 {
    tab.cells().iter().filter(|living| **living).count() as u32
}

#[test]
fn from_grid_takes_the_grid_as_population() {
    let grid = Tab::from_cells(2, vec![true, false, true, true]).unwrap();
    let session = Conway::from_grid(grid.clone(), FillMode::FixedCount(4)).unwrap();
    assert_eq!(session.cells_tab(), &grid);
    assert_eq!(session.initial_tab(), &grid);
    assert_eq!(session.generation(), 1);
    assert_eq!(FIRST_GENERATION, 1);
    assert_eq!(session.number_of_living_cells(), 3);
    assert_eq!(session.nb_init_cells(), 3);
    assert_eq!(session.filling_method(), FillMode::FixedCount(4));
    assert_eq!(session.screen(), Screen::Simul);
}

#[test]
fn from_grid_refuses_a_fill_outside_its_domain() {
    let grid = Tab::new(3).unwrap();
    for fill in [
        FillMode::Density(0),
        FillMode::Density(100),
        FillMode::Density(u32::MAX),
        FillMode::FixedCount(0),
        FillMode::FixedCount(10),
    ] {
        assert_eq!(
            Conway::from_grid(grid.clone(), fill),
            Err(EngineError::InvalidConfiguration)
        );
    }
    for fill in [
        FillMode::Density(1),
        FillMode::Density(99),
        FillMode::FixedCount(1),
        FillMode::FixedCount(9),
    ] {
        assert!(Conway::from_grid(grid.clone(), fill).is_ok());
    }
}

#[test]
fn count_fill_gives_exactly_the_count() {
    let mut session = empty(10);
    for target in [1u32, 2, 17, 50, 99, 100] {
        assert_eq!(session.build_cells_with_number_of_cells(target), Ok(()));
        assert_eq!(literal_count(session.cells_tab()), target);
        assert_eq!(session.number_of_living_cells(), target);
        assert_eq!(session.nb_init_cells(), target);
        assert_eq!(session.initial_tab(), session.cells_tab());
        assert_eq!(session.generation(), 1);
        assert_eq!(session.filling_method(), FillMode::FixedCount(target));
        assert_eq!(session.cells_tab().side(), 10);
    }
}

#[test]
fn count_fill_repeated_gives_the_count_each_time() {
    let mut session = empty(6);
    for _ in 0..25 {
        session.build_cells_with_number_of_cells(20).unwrap();
        assert_eq!(literal_count(session.cells_tab()), 20);
        assert_eq!(session.number_of_living_cells(), 20);
    }
}

#[test]
fn count_fill_of_every_cell_fills_the_grid() {
    let mut session = empty(7);
    session.build_cells_with_number_of_cells(49).unwrap();
    assert_eq!(session.cells_tab(), &Tab::from_cells(7, vec![true; 49]).unwrap());
}

#[test]
fn count_fill_on_a_single_cell() {
    let mut session = empty(1);
    session.build_cells_with_number_of_cells(1).unwrap();
    assert_eq!(session.cells_tab().cells(), &vec![true]);
    assert_eq!(session.number_of_living_cells(), 1);
}

#[test]
fn count_fill_starts_from_an_empty_grid() {
    let grid = Tab::from_cells(3, vec![true; 9]).unwrap();
    let mut session = Conway::from_grid(grid, FillMode::FixedCount(9)).unwrap();
    session.build_cells_with_number_of_cells(2).unwrap();
    assert_eq!(literal_count(session.cells_tab()), 2);
}

#[test]
fn count_fill_resets_the_generation() {
    let mut session = empty(5);
    session.step_to_generation(9);
    session.build_cells_with_number_of_cells(5).unwrap();
    assert_eq!(session.generation(), 1);
}

#[test]
fn count_fill_refuses_zero_and_too_many() {
    let mut session = empty(4);
    session.toggle_cell(1, 1).unwrap();
    session.step();
    let before = session.clone();
    assert_eq!(
        session.build_cells_with_number_of_cells(0),
        Err(EngineError::InvalidConfiguration)
    );
    assert_eq!(
        session.build_cells_with_number_of_cells(17),
        Err(EngineError::InvalidConfiguration)
    );
    assert_eq!(
        session.build_cells_with_number_of_cells(u32::MAX),
        Err(EngineError::InvalidConfiguration)
    );
    assert_eq!(session, before);
    assert_eq!(session.build_cells_with_number_of_cells(16), Ok(()));
}

#[test]
fn density_fill_sets_snapshot_and_counts() {
    let mut session = empty(12);
    session.step_to_generation(4);
    for density in [1u32, 25, 50, 99] {
        assert_eq!(session.build_cells_with_density(density), Ok(()));
        assert_eq!(session.number_of_living_cells(), literal_count(session.cells_tab()));
        assert_eq!(session.nb_init_cells(), session.number_of_living_cells());
        assert_eq!(session.initial_tab(), session.cells_tab());
        assert_eq!(session.generation(), 1);
        assert_eq!(session.filling_method(), FillMode::Density(density));
        assert_eq!(session.cells_tab().side(), 12);
        assert_eq!(session.cells_tab().cells().len(), 144);
    }
}

#[test]
fn density_fill_follows_the_density() {
    // 2500 cells: a count this far from the mean has a chance below one in 10^30
    let mut session = empty(50);
    session.build_cells_with_density(10).unwrap();
    let sparse = session.number_of_living_cells();
    assert!(sparse > 50 && sparse < 650, "{sparse}");
    session.build_cells_with_density(90).unwrap();
    let dense = session.number_of_living_cells();
    assert!(dense > 1850 && dense < 2450, "{dense}");
}

#[test]
fn density_fill_refuses_a_density_outside_its_domain() {
    let mut session = empty(4);
    session.toggle_cell(2, 2).unwrap();
    let before = session.clone();
    for density in [0u32, 100, 101, u32::MAX] {
        assert_eq!(
            session.build_cells_with_density(density),
            Err(EngineError::InvalidConfiguration)
        );
        assert_eq!(session, before);
    }
}

#[test]
fn populating_keeps_the_screen() {
    let mut session = empty(4);
    session.show(Screen::Init);
    session.build_cells_with_density(30).unwrap();
    assert_eq!(session.screen(), Screen::Init);
    session.build_cells_with_number_of_cells(3).unwrap();
    assert_eq!(session.screen(), Screen::Init);
}

#[test]
fn reset_restores_a_random_population() {
    let mut session = empty(9);
    session.build_cells_with_number_of_cells(30).unwrap();
    let populated = session.cells_tab().clone();
    for _ in 0..5 {
        session.step();
    }
    session.reinitialiser();
    assert_eq!(session.cells_tab(), &populated);
    assert_eq!(session.number_of_living_cells(), 30);
    assert_eq!(session.generation(), 1);
}

#[test]
fn default_session_is_populated_by_density() {
    let session = Conway::default();
    assert_eq!(DEFAULT_SIDE, 50);
    assert_eq!(DEFAULT_DENSITY, 25);
    assert_eq!(session.cells_tab().side(), 50);
    assert_eq!(session.cells_tab().cells().len(), 2500);
    assert_eq!(session.number_of_living_cells(), literal_count(session.cells_tab()));
    assert_eq!(session.nb_init_cells(), session.number_of_living_cells());
    assert_eq!(session.initial_tab(), session.cells_tab());
    assert_eq!(session.generation(), 1);
    assert_eq!(session.filling_method(), FillMode::Density(25));
    assert_eq!(session.screen(), Screen::Conway);
    let living = session.number_of_living_cells();
    assert!(living > 300 && living < 1000, "{living}");
}

#[test]
fn populate_takes_a_grid_as_the_new_population() {
    let mut session = empty(4);
    session.toggle_cell(0, 0).unwrap();
    session.step_to_generation(3);
    session.show(Screen::Example);
    let grid = Tab::from_cells(2, vec![true, true, false, true]).unwrap();
    assert_eq!(session.populate(grid.clone(), FillMode::FixedCount(3)), Ok(()));
    assert_eq!(session.cells_tab(), &grid);
    assert_eq!(session.initial_tab(), &grid);
    assert_eq!(session.number_of_living_cells(), 3);
    assert_eq!(session.nb_init_cells(), 3);
    assert_eq!(session.generation(), 1);
    assert_eq!(session.filling_method(), FillMode::FixedCount(3));
    assert_eq!(session.screen(), Screen::Example);
}

#[test]
fn populate_refuses_a_fill_outside_its_domain() {
    let mut session = empty(4);
    session.toggle_cell(1, 2).unwrap();
    let before = session.clone();
    let grid = Tab::from_cells(2, vec![true, true, false, true]).unwrap();
    assert_eq!(
        session.populate(grid.clone(), FillMode::FixedCount(5)),
        Err(EngineError::InvalidConfiguration)
    );
    assert_eq!(
        session.populate(grid, FillMode::Density(0)),
        Err(EngineError::InvalidConfiguration)
    );
    assert_eq!(session, before);
}
