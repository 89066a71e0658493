//! The miniature of a grid: a square picture in two colours, every cell a
//! square of pixels.

use vstd::prelude::*;
use vstd::arithmetic::div_mod::lemma_multiply_divide_lt;
use crate::canvas::{blank_canvas, canvas_samples, canvas_size, into_samples, put_pixel};
use crate::conway::Conway;
use crate::counting::{lemma_position_in_bounds, lemma_position_splits};
use crate::error::EngineError;
use crate::model::Grid;

verus! {

/// The colour of a cell as red, green and blue: black for a living cell,
/// white for a dead one.
pub open spec fn colour_of(living: bool) -> (u8, u8, u8) {
    if living {
        (0u8, 0u8, 0u8)
    } else {
        (255u8, 255u8, 255u8)
    }
}

/// Whether a grid of the given side can be drawn with cells of `scale`
/// pixels a side: the scale is positive, the width of the picture fits in a
/// `u32`, and its channels are no more than a vector can hold.
pub open spec fn miniature_fits(side: nat, scale: nat) -> bool {
    &&& 1 <= scale
    &&& side * scale <= u32::MAX
    &&& 3 * (side * scale) * (side * scale) <= isize::MAX
}

/// A picture: its width and height in pixels, and its channels row by row
/// from the top, each row from the left, three channels for each pixel.
#[derive(Debug, PartialEq, Eq)]
pub struct Miniature {
    pub width: u32,
    pub height: u32,
    pub samples: Vec<u8>,
}

impl Miniature {
    /// The colour of the pixel at column `x` of row `y`.
    pub open spec fn colour_at(self, x: int, y: int) -> (u8, u8, u8) {
        let at = 3 * (y * self.width + x);
        (self.samples@[at], self.samples@[at + 1], self.samples@[at + 2])
    }

    /// The picture shows the grid with cells of `scale` pixels a side: the
    /// pixel at `(x, y)` has the colour of the cell at `(x / scale, y / scale)`.
    pub open spec fn shows(self, grid: Grid, scale: nat) -> bool {
        &&& self.width == grid.side * scale
        &&& self.height == grid.side * scale
        &&& self.samples@.len() == 3 * self.width * self.height
        &&& forall|x: int, y: int|
            0 <= x < self.width && 0 <= y < self.height ==> #[trigger] self.colour_at(x, y)
                == colour_of(grid.living(x / (scale as int), y / (scale as int)))
    }
}

/// The colour that the pixel with the given row-major index has in the
/// picture of `grid`.
spec fn colour_of_pixel(grid: Grid, scale: int, width: int, pixel: int) -> (u8, u8, u8) {
    colour_of(grid.living((pixel % width) / scale, (pixel / width) / scale))
}

/// The first `pixels` pixels of `samples` show `grid`.
spec fn painted(samples: Seq<u8>, grid: Grid, scale: int, width: int, pixels: int) -> bool {
    forall|q: int|
        0 <= q < pixels ==> (samples[3 * q], samples[3 * q + 1], samples[3 * q + 2])
            == #[trigger] colour_of_pixel(grid, scale, width, q)
}

impl Conway {
    /// Draws the current grid: a square picture in which every cell is a
    /// square of `scale` by `scale` pixels, black where the cell is living
    /// and white where it is dead. The call fails with
    /// `InvalidConfiguration` where the scale is zero or the picture would
    /// be too large.
    pub fn create_miniature(&self, scale: u32) -> (made: Result<Miniature, EngineError>)
        requires
            self.wf(),
        ensures
            made is Ok <==> miniature_fits(self@.grid.side, scale as nat),
            made matches Ok(miniature) ==> miniature.shows(self@.grid, scale as nat),
            made matches Err(e) ==> e == EngineError::InvalidConfiguration,
    {
        let cells_tab = self.cells_tab();
        let side = cells_tab.side();
        let ghost grid = cells_tab@;
        if scale == 0 {
            return Err(EngineError::InvalidConfiguration);
        }
        assert(side * scale <= 65535 * 0xffff_ffff) by (nonlinear_arith)
            requires
                0 <= side <= 65535,
                0 <= scale <= 0xffff_ffff,
        ;
        let wide: u64 = side as u64 * scale as u64;
        if wide > u32::MAX as u64 {
            return Err(EngineError::InvalidConfiguration);
        }
        assert(3 * wide * wide <= 3 * 0xffff_ffff * 0xffff_ffff && 3 * wide * wide == 3 * (wide
            * wide)) by (nonlinear_arith)
            requires
                0 <= wide <= 0xffff_ffff,
        ;
        let channels: u128 = 3 * (wide as u128) * (wide as u128);
        if channels > isize::MAX as u128 {
            return Err(EngineError::InvalidConfiguration);
        }
        let width: u32 = wide as u32;
        let mut canvas = blank_canvas(width, width);
        let mut y: u32 = 0;
        while y < width
            invariant
                self.wf(),
                grid == self@.grid,
                cells_tab@ == grid,
                side == grid.side,
                1 <= scale,
                width == side * scale,
                3 * width * width <= isize::MAX,
                y <= width,
                canvas_size(canvas) == (width as nat, width as nat),
                canvas_samples(canvas).len() == 3 * width * width,
                painted(canvas_samples(canvas), grid, scale as int, width as int, y * width),
            decreases width - y,
        {
            let mut x: u32 = 0;
            while x < width
                invariant
                    self.wf(),
                    grid == self@.grid,
                    cells_tab@ == grid,
                    side == grid.side,
                    1 <= scale,
                    width == side * scale,
                    3 * width * width <= isize::MAX,
                    y < width,
                    x <= width,
                    canvas_size(canvas) == (width as nat, width as nat),
                    canvas_samples(canvas).len() == 3 * width * width,
                    painted(
                        canvas_samples(canvas),
                        grid,
                        scale as int,
                        width as int,
                        y * width + x,
                    ),
                decreases width - x,
            {
                let ghost pixel = y * width + x;
                let ghost before = canvas_samples(canvas);
                proof {
                    lemma_position_in_bounds(width as int, y as int, x as int);
                    lemma_position_splits(width as int, y as int, x as int);
                    assert(scale * side == side * scale) by (nonlinear_arith);
                    assert(3 * width * width == 3 * (width * width)) by (nonlinear_arith);
                    assert(before.len() == 3 * (width * width));
                    assert(0 <= 3 * pixel && 3 * pixel + 2 < before.len());
                    lemma_multiply_divide_lt(x as int, scale as int, side as int);
                    lemma_multiply_divide_lt(y as int, scale as int, side as int);
                }
                let living = cells_tab.is_living((x / scale) as usize, (y / scale) as usize);
                if living {
                    put_pixel(&mut canvas, x, y, 0, 0, 0);
                } else {
                    put_pixel(&mut canvas, x, y, 255, 255, 255);
                }
                proof {
                    let after = canvas_samples(canvas);
                    assert forall|q: int| 0 <= q < pixel + 1 implies (
                        after[3 * q],
                        after[3 * q + 1],
                        after[3 * q + 2],
                    ) == #[trigger] colour_of_pixel(grid, scale as int, width as int, q) by {
                        if q < pixel {
                            assert((before[3 * q], before[3 * q + 1], before[3 * q + 2])
                                == colour_of_pixel(grid, scale as int, width as int, q));
                        }
                    }
                }
                x = x + 1;
            }
            proof {
                assert(y * width + width == (y + 1) * width) by (nonlinear_arith);
            }
            y = y + 1;
        }
        let samples = into_samples(canvas);
        let miniature = Miniature { width, height: width, samples };
        proof {
            assert forall|x: int, y: int|
                0 <= x < width && 0 <= y < width implies #[trigger] miniature.colour_at(x, y)
                == colour_of(grid.living(x / (scale as int), y / (scale as int))) by {
                lemma_position_in_bounds(width as int, y, x);
                lemma_position_splits(width as int, y, x);
                assert(width * width == width as int * width as int);
                assert(miniature.colour_at(x, y) == colour_of_pixel(
                    grid,
                    scale as int,
                    width as int,
                    y * width + x,
                ));
            }
        }
        Ok(miniature)
    }
}

} // verus!
