//! Where a window goes when it first asks to be shown.

use vstd::prelude::*;
use crate::geometry::BORDER_WIDTH;

verus! {

/// Width given to every newly shown window.
pub const INITIAL_WIDTH: u32 = 640;

/// Height given to every newly shown window.
pub const INITIAL_HEIGHT: u32 = 480;

/// Initial position, inner size and border width of a window.
#[derive(Clone, Copy, Debug, PartialEq, Eq, Structural)]
pub struct Placement {
    pub x: i32,
    pub y: i32,
    pub width: u32,
    pub height: u32,
    pub border: u32,
}

/// The placement every window receives: the screen's origin, the fixed
/// initial size and the fixed border, whatever the window is.
pub open spec fn initial_placement(window: u32) -> Placement {
    Placement {
        x: 0,
        y: 0,
        width: INITIAL_WIDTH,
        height: INITIAL_HEIGHT,
        border: BORDER_WIDTH as u32,
    }
}

/// Decides where `window` is first shown.
pub fn decide_initial_geometry(window: u32) -> (r: Placement)
    ensures
        r == initial_placement(window),
{
    Placement { x: 0, y: 0, width: INITIAL_WIDTH, height: INITIAL_HEIGHT, border: BORDER_WIDTH as u32 }
}

} // verus!
