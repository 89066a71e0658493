//! The frames of the animation on the welcome screen.

use vstd::prelude::*;

verus! {

/// The number of frames of the animation.
pub const FRAME_COUNT: usize = 30;

/// The decimal digit `digit` as text.
pub open spec fn digit_text(digit: nat) -> Seq<char> {
    if digit == 0 {
        "0"@
    } else if digit == 1 {
        "1"@
    } else if digit == 2 {
        "2"@
    } else if digit == 3 {
        "3"@
    } else if digit == 4 {
        "4"@
    } else if digit == 5 {
        "5"@
    } else if digit == 6 {
        "6"@
    } else if digit == 7 {
        "7"@
    } else if digit == 8 {
        "8"@
    } else {
        "9"@
    }
}

/// The path of the frame with the given index: the index is written with two
/// digits.
pub open spec fn frame_path_text(index: nat) -> Seq<char> {
    "Frames/frame_"@ + digit_text(index / 10) + digit_text(index % 10) + "_delay-0.1s.png"@
}

/// The decimal digit `digit` as text.
fn digit(value: usize) -> (text: &'static str)
    requires
        value < 10,
    ensures
        text@ == digit_text(value as nat),
{
    if value == 0 {
        "0"
    } else if value == 1 {
        "1"
    } else if value == 2 {
        "2"
    } else if value == 3 {
        "3"
    } else if value == 4 {
        "4"
    } else if value == 5 {
        "5"
    } else if value == 6 {
        "6"
    } else if value == 7 {
        "7"
    } else if value == 8 {
        "8"
    } else {
        "9"
    }
}

/// The path of the frame with the given index, which has at most two digits.
pub(crate) fn frame_path(index: usize) -> (path: String)
    requires
        index < 100,
    ensures
        path@ == frame_path_text(index as nat),
{
    let mut path = "Frames/frame_".to_owned();
    path.append(digit(index / 10));
    path.append(digit(index % 10));
    path.append("_delay-0.1s.png");
    path
}

} // verus!
