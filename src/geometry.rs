//! Window placement on the primary display, in whole logical pixels.

use vstd::prelude::*;

verus! {

/// Width of the dialog window.
pub const DIALOG_WIDTH: u32 = 460;

/// Height of the dialog window.
pub const DIALOG_HEIGHT: u32 = 180;

/// The bounds of a connected display.
#[derive(Clone, Copy, Debug, PartialEq, Eq, Structural)]
pub struct DisplayInfo {
    pub width: u32,
    pub height: u32,
}

/// Where a window stands and how large it is.
#[derive(Clone, Copy, Debug, PartialEq, Eq, Structural)]
pub struct WindowPlacement {
    pub x: i64,
    pub y: i64,
    pub width: u32,
    pub height: u32,
}

/// Offset that centers `inner` within `outer` (rounded toward negative infinity).
pub open spec fn centered_offset(outer: int, inner: int) -> int {
    (outer - inner) / 2
}

/// The backdrop covers the whole display, from its top-left corner.
pub open spec fn backdrop_bounds(d: DisplayInfo) -> WindowPlacement {
    WindowPlacement { x: 0, y: 0, width: d.width, height: d.height }
}

/// The dialog has a fixed size and is centered on the display.
pub open spec fn dialog_bounds(d: DisplayInfo) -> WindowPlacement {
    WindowPlacement {
        x: centered_offset(d.width as int, DIALOG_WIDTH as int) as i64,
        y: centered_offset(d.height as int, DIALOG_HEIGHT as int) as i64,
        width: DIALOG_WIDTH,
        height: DIALOG_HEIGHT,
    }
}

/// Centers a span of length `inner` within one of length `outer`.
pub fn center_offset(outer: u32, inner: u32) -> (r: i64)
    ensures
        r as int == centered_offset(outer as int, inner as int),
{
    let diff: i64 = outer as i64 - inner as i64;
    if diff >= 0 {
        diff / 2
    } else {
        let magnitude: i64 = -diff;
        -((magnitude + 1) / 2)
    }
}

/// Placement of the backdrop window on the display `display`.
pub fn backdrop_placement(display: &DisplayInfo) -> (r: WindowPlacement)
    ensures
        r == backdrop_bounds(*display),
{
    WindowPlacement { x: 0, y: 0, width: display.width, height: display.height }
}

/// Placement of the dialog window on the display `display`.
pub fn dialog_placement(display: &DisplayInfo) -> (r: WindowPlacement)
    ensures
        r == dialog_bounds(*display),
        r.x as int == (display.width as int - 460) / 2,
        r.y as int == (display.height as int - 180) / 2,
        r.width == 460 && r.height == 180,
{
    WindowPlacement {
        x: center_offset(display.width, DIALOG_WIDTH),
        y: center_offset(display.height, DIALOG_HEIGHT),
        width: DIALOG_WIDTH,
        height: DIALOG_HEIGHT,
    }
}

/// The dialog sits in the middle of the backdrop: its margins to the left and
/// to the right (and above and below) are equal, or differ by one pixel where
/// the free space is odd, the extra pixel going to the right (or below).
pub proof fn lemma_dialog_centered_in_backdrop(display: DisplayInfo)
    ensures
        ({
            let b = backdrop_bounds(display);
            let g = dialog_bounds(display);
            let left = g.x - b.x;
            let right = (b.x + b.width) - (g.x + g.width);
            let top = g.y - b.y;
            let bottom = (b.y + b.height) - (g.y + g.height);
            &&& right - left == (b.width - g.width) % 2
            &&& bottom - top == (b.height - g.height) % 2
        }),
{
}

} // verus!
