//! How many characters fit on the host's screen, as the host's text renderer
//! counts them.

use vstd::prelude::*;
use pixels_graphics_lib::text::TextSize;

verus! {

/// The narrowest screen on which the text renderer counts small characters.
pub const MIN_WIDTH: usize = 5;

/// The lowest screen on which the text renderer counts small characters.
pub const MIN_HEIGHT: usize = 6;

/// The number of small characters that the text renderer puts on one line of
/// a screen `width` pixels wide and `height` pixels high.
pub uninterp spec fn small_columns(width: usize, height: usize) -> usize;

/// The columns that `TextSize::get_max_characters` counts for the small text
/// size. Nothing is claimed of the number but that the size of the screen
/// decides it. Screens below the smallest are left out: on some of them the
/// outside function subtracts from zero.
#[verifier::external_body]
pub(crate) fn max_small_columns(width: usize, height: usize) -> (columns: usize)
    requires
        width >= MIN_WIDTH,
        height >= MIN_HEIGHT,
    ensures
        columns == small_columns(width, height),
{
    TextSize::Small.get_max_characters(width, height).0
}

/// The width of a line of the console on a screen of the given size: what
/// the text renderer counts, and nothing on a screen too small for it.
pub open spec fn console_columns_spec(width: usize, height: usize) -> usize {
    if width >= MIN_WIDTH && height >= MIN_HEIGHT {
        small_columns(width, height)
    } else {
        0
    }
}

/// The width of a line of the console on a screen of the given size.
pub fn console_columns(width: usize, height: usize) -> (columns: usize)
    ensures
        columns == console_columns_spec(width, height),
{
    if width >= MIN_WIDTH && height >= MIN_HEIGHT {
        max_small_columns(width, height)
    } else {
        0
    }
}

} // verus!
