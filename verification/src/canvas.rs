//! The image buffer of the `image` crate, filled pixel by pixel. The
//! contracts here are believed, not proved.

use image::{Rgb, RgbImage};
use vstd::prelude::*;

verus! {

/// An image buffer of the `image` crate with three channels of one byte for
/// each pixel.
#[verifier::external_body]
pub struct Canvas {
    image: RgbImage,
}

/// The channels of a canvas as the buffer holds them: row by row from the
/// top, each row from the left, three channels for each pixel.
pub uninterp spec fn canvas_samples(canvas: Canvas) -> Seq<u8>;

/// The width and the height that a canvas was made with.
pub uninterp spec fn canvas_size(canvas: Canvas) -> (nat, nat);

/// Calls `ImageBuffer::new` of `image`, which makes a buffer of the given
/// width and height with every channel zero. The call panics where the
/// channels of all pixels are more than a vector can hold, which is what an
/// `isize` counts.
#[verifier::external_body]
pub(crate) fn blank_canvas(width: u32, height: u32) -> (canvas: Canvas)
    requires
        3 * width * height <= isize::MAX,
    ensures
        canvas_size(canvas) == (width as nat, height as nat),
        canvas_samples(canvas) == Seq::new((3 * width * height) as nat, |i: int| 0u8),
{
    Canvas { image: RgbImage::new(width, height) }
}

/// Calls `ImageBuffer::put_pixel` of `image`, which writes the three
/// channels of the pixel at column `x` of row `y` and leaves every other
/// channel as it is. The call panics outside the image.
#[verifier::external_body]
pub(crate) fn put_pixel(canvas: &mut Canvas, x: u32, y: u32, red: u8, green: u8, blue: u8)
    requires
        x < canvas_size(*old(canvas)).0,
        y < canvas_size(*old(canvas)).1,
    ensures
        canvas_size(*final(canvas)) == canvas_size(*old(canvas)),
        canvas_samples(*final(canvas)) == canvas_samples(*old(canvas)).update(
            3 * (y * canvas_size(*old(canvas)).0 + x),
            red,
        ).update(3 * (y * canvas_size(*old(canvas)).0 + x) + 1, green).update(
            3 * (y * canvas_size(*old(canvas)).0 + x) + 2,
            blue,
        ),
{
    canvas.image.put_pixel(x, y, Rgb([red, green, blue]));
}

/// Calls `ImageBuffer::into_raw` of `image`, which hands out the buffer of
/// channels.
#[verifier::external_body]
pub(crate) fn into_samples(canvas: Canvas) -> (samples: Vec<u8>)
    ensures
        samples@ == canvas_samples(canvas),
{
    canvas.image.into_raw()
}

} // verus!
