//! The session: a grid, its initial snapshot and its counters, and the
//! operations that keep them in step.

use vstd::prelude::*;
use crate::counting::{
    lemma_count_bounded, lemma_count_peel, lemma_count_push, lemma_count_update,
    lemma_grid_position, lemma_population_fits, lemma_position_splits, lemma_wrap_back,
    lemma_wrap_forth, lemma_wrap_stay,
};
use crate::engine::{lemma_advanced_once_more, Engine, FillMode, FIRST_GENERATION};
use crate::error::{EngineError, ShapeFault};
use crate::frames::{frame_path, frame_path_text, FRAME_COUNT};
use crate::model::{count_living, MAX_SIDE};
use crate::random::{random_below, random_ratio};
use crate::record::Record;
use crate::screen::Screen;
use crate::tab::Tab;

verus! {

/// A session of the game.
#[derive(Debug, PartialEq, Eq)]
pub struct Conway {
    cells_tab: Tab,
    initial_tab: Tab,
    generation: u64,
    number_of_living_cells: u32,
    nb_init_cells: u32,
    filling: FillMode,
    screen: Screen,
}

impl View for Conway {
    type V = Engine;

    closed spec fn view(&self) -> Engine {
        Engine {
            grid: self.cells_tab@,
            initial: self.initial_tab@,
            generation: self.generation as nat,
            living_count: self.number_of_living_cells as nat,
            initial_count: self.nb_init_cells as nat,
            fill: self.filling,
            screen: self.screen,
        }
    }
}

impl Conway {
    /// The invariant of a session: that of its model.
    pub open spec fn wf(&self) -> bool {
        self@.wf()
    }

    /// Whether the fill configuration lies in its domain for a grid of the
    /// given side.
    fn fill_fits(fill: FillMode, side: usize) -> (fits: bool)
        requires
            1 <= side <= MAX_SIDE,
        ensures
            fits == fill.fits(side as nat),
    {
        assert(side * side <= 65535 * 65535) by (nonlinear_arith)
            requires
                0 <= side <= 65535,
        ;
        match fill {
            FillMode::Density(percent) => 1 <= percent && percent <= 99,
            FillMode::FixedCount(count) => 1 <= count && count as usize <= side * side,
        }
    }

    /// The session whose population is the given grid: the grid is its own
    /// initial snapshot, the generation is the first, both counts are the
    /// number of living cells of the grid, and the simulation screen shows.
    /// The fill configuration must lie in its domain for the side of the grid.
    pub fn from_grid(grid: Tab, fill: FillMode) -> (made: Result<Conway, EngineError>)
        requires
            grid.wf(),
        ensures
            made is Ok <==> fill.fits(grid@.side),
            made matches Ok(session) ==> {
                &&& session.wf()
                &&& session@ == (Engine {
                    grid: grid@,
                    initial: grid@,
                    generation: FIRST_GENERATION as nat,
                    living_count: grid@.population(),
                    initial_count: grid@.population(),
                    fill,
                    screen: Screen::Simul,
                })
            },
            made matches Err(e) ==> e == EngineError::InvalidConfiguration,
    {
        if !Self::fill_fits(fill, grid.side()) {
            return Err(EngineError::InvalidConfiguration);
        }
        let living = grid.living_count();
        let initial_tab = grid.clone();
        Ok(
            Conway {
                cells_tab: grid,
                initial_tab,
                generation: FIRST_GENERATION,
                number_of_living_cells: living,
                nb_init_cells: living,
                filling: fill,
                screen: Screen::Simul,
            },
        )
    }

    /// Makes the given grid the population of the session: the grid becomes
    /// the current grid and the initial snapshot, both counts become its
    /// number of living cells, and the generation is the first again. The
    /// fill configuration must lie in its domain for the side of the grid;
    /// where it does not, nothing changes.
    pub fn populate(&mut self, cells_tab: Tab, fill: FillMode) -> (populated: Result<
        (),
        EngineError,
    >)
        requires
            old(self).wf(),
            cells_tab.wf(),
        ensures
            populated is Ok <==> fill.fits(cells_tab@.side),
            populated is Ok ==> final(self)@ == old(self)@.populated(cells_tab@, fill),
            populated matches Err(e) ==> e == EngineError::InvalidConfiguration && final(self)@
                == old(self)@,
            final(self).wf(),
    {
        if !Self::fill_fits(fill, cells_tab.side()) {
            return Err(EngineError::InvalidConfiguration);
        }
        let count_cells = cells_tab.living_count();
        self.initial_tab = cells_tab.clone();
        self.cells_tab = cells_tab;
        self.nb_init_cells = count_cells;
        self.number_of_living_cells = count_cells;
        self.generation = FIRST_GENERATION;
        self.filling = fill;
        Ok(())
    }

    /// A grid of the given side in which every cell was drawn living with a
    /// chance of `density` in a hundred, each cell on its own.
    fn draw_cells(side: usize, density: u32) -> (cells_tab: Tab)
        requires
            1 <= side <= MAX_SIDE,
            1 <= density <= 99,
        ensures
            cells_tab.wf(),
            cells_tab@.side == side,
    {
        assert(side * side <= 65535 * 65535) by (nonlinear_arith)
            requires
                0 <= side <= 65535,
        ;
        let total: usize = side * side;
        let mut cells: Vec<bool> = Vec::new();
        while cells.len() < total
            invariant
                cells.len() <= total,
                1 <= density <= 99,
            decreases total - cells.len(),
        {
            cells.push(random_ratio(density, 100));
        }
        Tab::assemble(side, cells)
    }

    /// Populates the grid anew: every cell is living with a chance of
    /// `density` in a hundred, each cell drawn on its own. The new grid
    /// becomes the initial snapshot, the counts are the number of cells drawn
    /// living, and the generation is the first again. The density must lie
    /// between 1 and 99.
    pub fn build_cells_with_density(&mut self, density: u32) -> (built: Result<(), EngineError>)
        requires
            old(self).wf(),
        ensures
            built is Ok <==> 1 <= density <= 99,
            built is Ok ==> {
                &&& final(self)@ == old(self)@.populated(
                    final(self)@.grid,
                    FillMode::Density(density),
                )
                &&& final(self)@.grid.side == old(self)@.grid.side
            },
            built matches Err(e) ==> e == EngineError::InvalidConfiguration && final(self)@ == old(
                self,
            )@,
            final(self).wf(),
    {
        if density == 0 || density >= 100 {
            return Err(EngineError::InvalidConfiguration);
        }
        let cells_tab = Self::draw_cells(self.cells_tab.side(), density);
        self.populate(cells_tab, FillMode::Density(density))
    }

    /// Populates the grid anew with exactly `target_count` living cells.
    /// Each placement draws a cell of the grid with equal chances and makes it
    /// living if it is dead; where the drawn cell is living already, the
    /// placement draws once more, now among the dead cells alone, so that
    /// every placement ends and every dead cell stays equally likely. The new
    /// grid becomes the initial snapshot, the counts are `target_count`, and
    /// the generation is the first again. The count must lie between 1 and
    /// the number of cells.
    pub fn build_cells_with_number_of_cells(&mut self, target_count: u32) -> (built: Result<
        (),
        EngineError,
    >)
        requires
            old(self).wf(),
        ensures
            built is Ok <==> 1 <= target_count <= old(self)@.grid.side * old(self)@.grid.side,
            built is Ok ==> {
                &&& final(self)@ == old(self)@.populated(
                    final(self)@.grid,
                    FillMode::FixedCount(target_count),
                )
                &&& final(self)@.grid.side == old(self)@.grid.side
                &&& final(self)@.grid.population() == target_count
            },
            built matches Err(e) ==> e == EngineError::InvalidConfiguration && final(self)@ == old(
                self,
            )@,
            final(self).wf(),
    {
        let side = self.cells_tab.side();
        proof {
            lemma_population_fits(self.cells_tab@);
        }
        let total: usize = side * side;
        if target_count == 0 || target_count as usize > total {
            return Err(EngineError::InvalidConfiguration);
        }
        let mut cells_tab = match Tab::new(side) {
            Ok(tab) => tab,
            Err(e) => {
                return Err(e);
            },
        };
        let mut count_cells: u32 = 0;
        while count_cells < target_count
            invariant
                cells_tab.wf(),
                cells_tab@.side == side,
                total == side * side,
                count_cells == cells_tab@.population(),
                count_cells <= target_count <= total,
            decreases target_count - count_cells,
        {
            let ghost before = cells_tab@;
            let x = random_below(side);
            let y = random_below(side);
            if !cells_tab.is_living(x, y) {
                proof {
                    lemma_grid_position(before, x as int, y as int);
                    lemma_count_update(before.cells, before.position(x as int, y as int), true);
                }
                cells_tab.set_living(x, y, true);
            } else {
                let rank = random_below(total - count_cells as usize);
                let at = cells_tab.revive_by_rank(rank);
                proof {
                    lemma_count_update(before.cells, at as int, true);
                }
            }
            count_cells = count_cells + 1;
        }
        self.populate(cells_tab, FillMode::FixedCount(target_count))
    }

    /// Flips the cell at `(x, y)` and moves the count of living cells by one
    /// with it. Where the grid has no such cell nothing changes and the call
    /// fails with `OutOfRange`.
    pub fn toggle_cell(&mut self, x: usize, y: usize) -> (toggled: Result<(), EngineError>)
        requires
            old(self).wf(),
        ensures
            toggled is Ok <==> old(self)@.grid.holds(x as int, y as int),
            toggled is Ok ==> final(self)@ == old(self)@.toggled(x as int, y as int),
            toggled matches Err(e) ==> e == EngineError::OutOfRange && final(self)@ == old(self)@,
            final(self).wf(),
    {
        let side = self.cells_tab.side();
        if x >= side || y >= side {
            return Err(EngineError::OutOfRange);
        }
        let ghost before = self.cells_tab@;
        let was_living = self.cells_tab.is_living(x, y);
        proof {
            lemma_population_fits(before);
            lemma_grid_position(before, x as int, y as int);
            lemma_count_update(before.cells, before.position(x as int, y as int), !was_living);
            lemma_count_bounded(
                before.cells.update(before.position(x as int, y as int), !was_living),
            );
        }
        if was_living {
            self.number_of_living_cells = self.number_of_living_cells - 1;
            self.cells_tab.set_living(x, y, false);
        } else {
            self.number_of_living_cells = self.number_of_living_cells + 1;
            self.cells_tab.set_living(x, y, true);
        }
        proof {
            lemma_population_fits(self.cells_tab@);
        }
        Ok(())
    }

    /// Brings the grid back to its initial snapshot: the generation is the
    /// first again, the count of living cells is the one taken with the
    /// snapshot, and the simulation screen shows.
    pub fn reinitialiser(&mut self)
        requires
            old(self).wf(),
        ensures
            final(self)@ == old(self)@.rewound(),
            final(self).wf(),
    {
        self.cells_tab = self.initial_tab.clone();
        self.generation = FIRST_GENERATION;
        self.screen = Screen::Simul;
        self.number_of_living_cells = self.nb_init_cells;
    }

    /// Advances the session by exactly one generation: the grid moves to its
    /// next generation and the generation counter goes up by one. The
    /// counter must have room for one more.
    pub fn step(&mut self)
        requires
            old(self).wf(),
            old(self)@.generation < u64::MAX,
        ensures
            final(self)@ == old(self)@.stepped(),
            final(self).wf(),
    {
        self.update_cells();
        self.generation = self.generation + 1;
    }

    /// Advances the session until its generation is `target_generation`.
    /// A target behind the current generation changes nothing: the session
    /// only moves forward.
    pub fn step_to_generation(&mut self, target_generation: u64)
        requires
            old(self).wf(),
        ensures
            target_generation >= old(self)@.generation ==> final(self)@ == old(self)@.advanced(
                (target_generation - old(self)@.generation) as nat,
            ),
            target_generation < old(self)@.generation ==> final(self)@ == old(self)@,
            final(self).wf(),
    {
        let ghost start = self@;
        while self.generation < target_generation
            invariant
                self.wf(),
                start.generation <= self@.generation,
                target_generation >= start.generation ==> self@.generation <= target_generation,
                self@ == start.advanced((self@.generation - start.generation) as nat),
                target_generation < start.generation ==> self@ == start,
            decreases target_generation - self.generation,
        {
            proof {
                lemma_advanced_once_more(start, (self@.generation - start.generation) as nat);
            }
            self.step();
        }
    }

    /// The current grid.
    pub fn cells_tab(&self) -> (grid: &Tab)
        ensures
            grid@ == self@.grid,
    {
        &self.cells_tab
    }

    /// The grid as it was when it was populated.
    pub fn initial_tab(&self) -> (grid: &Tab)
        ensures
            grid@ == self@.initial,
    {
        &self.initial_tab
    }

    /// The number of the current generation.
    pub fn generation(&self) -> (generation: u64)
        ensures
            generation == self@.generation,
    {
        self.generation
    }

    /// The number of living cells of the current grid.
    pub fn number_of_living_cells(&self) -> (count: u32)
        ensures
            count == self@.living_count,
    {
        self.number_of_living_cells
    }

    /// The number of living cells counted when the grid was populated.
    pub fn nb_init_cells(&self) -> (count: u32)
        ensures
            count == self@.initial_count,
    {
        self.nb_init_cells
    }

    /// How the grid was populated.
    pub fn filling_method(&self) -> (fill: FillMode)
        ensures
            fill == self@.fill,
    {
        self.filling
    }

    /// The screen that the session shows.
    pub fn screen(&self) -> (screen: Screen)
        ensures
            screen == self@.screen,
    {
        self.screen
    }

    /// Shows the given screen and leaves the rest of the session as it is.
    pub fn show(&mut self, screen: Screen)
        ensures
            final(self)@ == (Engine { screen, ..old(self)@ }),
    {
        self.screen = screen;
    }

    /// The window title for the screen that the session shows.
    pub fn title(&self) -> (title: String)
        ensures
            title@ == self@.screen.title_text(),
    {
        self.screen.title()
    }

    /// The paths of the frames of the animation on the welcome screen, in
    /// their order.
    pub fn create_frames(&self) -> (paths: Vec<String>)
        ensures
            paths.len() == FRAME_COUNT,
            forall|i: int| 0 <= i < FRAME_COUNT ==> (#[trigger] paths[i])@ == frame_path_text(i as nat),
    {
        let mut paths: Vec<String> = Vec::new();
        let mut i: usize = 0;
        while i < FRAME_COUNT
            invariant
                i <= FRAME_COUNT,
                paths.len() == i,
                forall|j: int| 0 <= j < i ==> (#[trigger] paths[j])@ == frame_path_text(j as nat),
            decreases FRAME_COUNT - i,
        {
            paths.push(frame_path(i));
            i = i + 1;
        }
        paths
    }

    /// The state of the session as a record of plain values.
    pub fn to_record(&self) -> (record: Record)
        requires
            self.wf(),
        ensures
            record.engine() == (Engine { screen: Screen::Simul, ..self@ }),
    {
        Record {
            side: self.cells_tab.side(),
            cells: self.cells_tab.cells().clone(),
            initial_cells: self.initial_tab.cells().clone(),
            generation: self.generation,
            living_count: self.number_of_living_cells,
            initial_count: self.nb_init_cells,
            fill: self.filling,
        }
    }

    /// The session that a record describes, on the simulation screen. A
    /// record that breaks a shape constraint is refused with `MalformedState`
    /// and the first constraint that it breaks.
    pub fn from_record(record: Record) -> (loaded: Result<Conway, EngineError>)
        ensures
            loaded is Ok <==> record.fault() is None,
            loaded matches Ok(session) ==> session.wf() && session@ == record.engine(),
            loaded matches Err(e) ==> Some(e) == match record.fault() {
                Some(fault) => Some(EngineError::MalformedState(fault)),
                None => None,
            },
    {
        let side = record.side;
        let cells_tab = match Tab::from_cells(side, record.cells) {
            Ok(tab) => tab,
            Err(e) => {
                return Err(e);
            },
        };
        let initial_tab = match Tab::from_cells(side, record.initial_cells) {
            Ok(tab) => tab,
            Err(_) => {
                return Err(EngineError::MalformedState(ShapeFault::SnapshotCount));
            },
        };
        if cells_tab.living_count() != record.living_count || initial_tab.living_count()
            != record.initial_count {
            return Err(EngineError::MalformedState(ShapeFault::LivingCount));
        }
        if !Self::fill_fits(record.fill, side) {
            return Err(EngineError::MalformedState(ShapeFault::Fill));
        }
        Ok(
            Conway {
                cells_tab,
                initial_tab,
                generation: record.generation,
                number_of_living_cells: record.living_count,
                nb_init_cells: record.initial_count,
                filling: record.fill,
                screen: Screen::Simul,
            },
        )
    }

    /// 1 if `(nx, ny)` is a living cell other than `(x, y)`, else 0.
    fn lives_at(&self, x: usize, y: usize, nx: usize, ny: usize) -> (one: usize)
        requires
            self.wf(),
            self@.grid.holds(nx as int, ny as int),
        ensures
            one == if (nx != x || ny != y) && self@.grid.living(nx as int, ny as int) {
                1nat
            } else {
                0nat
            },
    {
        if (nx != x || ny != y) && self.cells_tab.is_living(nx, ny) {
            1
        } else {
            0
        }
    }

    /// The number of living neighbours of the cell at `(x, y)`, the grid
    /// taken as a torus.
    pub fn check_neighbours(&self, x: usize, y: usize) -> (living_neighbours: usize)
        requires
            self.wf(),
            self@.grid.holds(x as int, y as int),
        ensures
            living_neighbours == self@.grid.living_neighbours(x as int, y as int),
            living_neighbours <= 8,
    {
        let side = self.cells_tab.side();
        let north = if x == 0 { side - 1 } else { x - 1 };
        let south = if x == side - 1 { 0 } else { x + 1 };
        let west = if y == 0 { side - 1 } else { y - 1 };
        let east = if y == side - 1 { 0 } else { y + 1 };
        let ghost grid = self@.grid;
        let ghost n = side as int;
        proof {
            lemma_wrap_back(n, x as int);
            lemma_wrap_forth(n, x as int);
            lemma_wrap_stay(n, x as int);
            lemma_wrap_back(n, y as int);
            lemma_wrap_forth(n, y as int);
            lemma_wrap_stay(n, y as int);
            assert((x + (-1)) % n == north && (x + 0) % n == x && (x + 1) % n == south);
            assert((y + (-1)) % n == west && (y + 0) % n == y && (y + 1) % n == east);
        }
        let north_west = self.lives_at(x, y, north, west);
        assert(north_west == grid.lives_beside(x as int, y as int, -1, -1));
        let north_mid = self.lives_at(x, y, north, y);
        assert(north_mid == grid.lives_beside(x as int, y as int, -1, 0));
        let north_east = self.lives_at(x, y, north, east);
        assert(north_east == grid.lives_beside(x as int, y as int, -1, 1));
        let mid_west = self.lives_at(x, y, x, west);
        assert(mid_west == grid.lives_beside(x as int, y as int, 0, -1));
        let mid_east = self.lives_at(x, y, x, east);
        assert(mid_east == grid.lives_beside(x as int, y as int, 0, 1));
        let south_west = self.lives_at(x, y, south, west);
        assert(south_west == grid.lives_beside(x as int, y as int, 1, -1));
        let south_mid = self.lives_at(x, y, south, y);
        assert(south_mid == grid.lives_beside(x as int, y as int, 1, 0));
        let south_east = self.lives_at(x, y, south, east);
        assert(south_east == grid.lives_beside(x as int, y as int, 1, 1));
        north_west + north_mid + north_east + mid_west + mid_east + south_west + south_mid
            + south_east
    }

    /// Moves the grid to its next generation. Every cell is decided from the
    /// grid as it was before the call, and the count of living cells follows
    /// each birth and each death.
    pub fn update_cells(&mut self)
        requires
            old(self).wf(),
        ensures
            final(self)@ == old(self)@.evolved(),
            final(self).wf(),
    {
        let side = self.cells_tab.side();
        let ghost before = self.cells_tab@;
        proof {
            lemma_population_fits(before);
        }
        let mut next_cells: Vec<bool> = Vec::new();
        let mut living: u32 = self.number_of_living_cells;
        let mut x: usize = 0;
        proof {
            assert(before.cells.skip(0) =~= before.cells);
        }
        while x < side
            invariant
                *self == *old(self),
                self.wf(),
                before == self.cells_tab@,
                side == before.side,
                before.cells.len() <= u32::MAX,
                x <= side,
                next_cells.len() == x * side,
                forall|i: int|
                    0 <= i < next_cells.len() ==> next_cells[i] == before.next().cells[i],
                living == count_living(before.cells.skip(next_cells.len() as int)) + count_living(
                    next_cells@,
                ),
            decreases side - x,
        {
            let mut y: usize = 0;
            while y < side
                invariant
                    *self == *old(self),
                    self.wf(),
                    before == self.cells_tab@,
                    side == before.side,
                    before.cells.len() <= u32::MAX,
                    x < side,
                    y <= side,
                    next_cells.len() == x * side + y,
                    forall|i: int|
                        0 <= i < next_cells.len() ==> next_cells[i] == before.next().cells[i],
                    living == count_living(before.cells.skip(next_cells.len() as int))
                        + count_living(next_cells@),
                decreases side - y,
            {
                let ghost at = next_cells.len() as int;
                proof {
                    lemma_grid_position(before, x as int, y as int);
                    lemma_position_splits(side as int, x as int, y as int);
                    lemma_count_peel(before.cells, at);
                    lemma_count_bounded(before.cells.skip(at + 1));
                    lemma_count_bounded(next_cells@);
                }
                let living_neighbours = self.check_neighbours(x, y);
                let was_living = self.cells_tab.is_living(x, y);
                let stays_living = if was_living {
                    if living_neighbours == 2 || living_neighbours == 3 {
                        true
                    } else {
                        living = living - 1;
                        false
                    }
                } else {
                    if living_neighbours == 3 {
                        living = living + 1;
                        true
                    } else {
                        false
                    }
                };
                proof {
                    lemma_count_push(next_cells@, stays_living);
                }
                next_cells.push(stays_living);
                y = y + 1;
            }
            proof {
                assert(x * side + side == (x + 1) * side) by (nonlinear_arith);
            }
            x = x + 1;
        }
        proof {
            assert(next_cells@ =~= before.next().cells);
            assert(before.cells.skip(next_cells.len() as int) =~= Seq::<bool>::empty());
        }
        self.cells_tab = Tab::assemble(side, next_cells);
        self.number_of_living_cells = living;
    }
}

impl Clone for Conway {
    /// A session in the same state.
    fn clone(&self) -> (copy: Conway)
        ensures
            copy@ == self@,
    {
        Conway {
            cells_tab: self.cells_tab.clone(),
            initial_tab: self.initial_tab.clone(),
            generation: self.generation,
            number_of_living_cells: self.number_of_living_cells,
            nb_init_cells: self.nb_init_cells,
            filling: self.filling,
            screen: self.screen,
        }
    }
}

/// The side of the grid of a session made by `default`.
pub const DEFAULT_SIDE: usize = 50;

/// The density, in hundredths, that `default` populates its grid with.
pub const DEFAULT_DENSITY: u32 = 25;

impl Default for Conway {
    /// A session on the welcome screen with a grid of [`DEFAULT_SIDE`],
    /// populated at random with [`DEFAULT_DENSITY`].
    fn default() -> (session: Conway)
        ensures
            session.wf(),
            session@.grid.side == DEFAULT_SIDE,
            session@ == (Engine {
                grid: session@.grid,
                initial: session@.grid,
                generation: FIRST_GENERATION as nat,
                living_count: session@.grid.population(),
                initial_count: session@.grid.population(),
                fill: FillMode::Density(DEFAULT_DENSITY),
                screen: Screen::Conway,
            }),
    {
        let cells_tab = Self::draw_cells(DEFAULT_SIDE, DEFAULT_DENSITY);
        let count_cells = cells_tab.living_count();
        let initial_tab = cells_tab.clone();
        Conway {
            cells_tab,
            initial_tab,
            generation: FIRST_GENERATION,
            number_of_living_cells: count_cells,
            nb_init_cells: count_cells,
            filling: FillMode::Density(DEFAULT_DENSITY),
            screen: Screen::Conway,
        }
    }
}

} // verus!
