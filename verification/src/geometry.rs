//! The arithmetic of a drag: where a moved window lands and how large a
//! resized window becomes.

use vstd::prelude::*;
use crate::protocol::{Geometry, Pointer, ScreenInfo};

verus! {

/// Border width, in pixels, of every managed window's frame.
pub const BORDER_WIDTH: i32 = 2;

/// Smallest width and height a resize may give a window.
pub const MIN_SIZE: i32 = 32;

/// Outer extent of a window along one axis: its inner size and both borders.
pub open spec fn bordered(size: int) -> int {
    size + 2 * BORDER_WIDTH
}

/// Position along one axis of a window of outer extent `extent` that is
/// asked to sit at `candidate` on a screen of extent `screen`: at the near
/// edge if the candidate is not positive, else flush with the far edge if it
/// would reach beyond it, else the candidate itself.
pub open spec fn clamp_axis(candidate: int, extent: int, screen: int) -> int {
    if candidate <= 0 {
        0
    } else if candidate + extent > screen {
        screen - extent
    } else {
        candidate
    }
}

/// Top-left corner that a move drag with the given offset asks for.
pub open spec fn move_target_spec(
    off_x: int,
    off_y: int,
    pointer: Pointer,
    geometry: Geometry,
    screen: ScreenInfo,
) -> (int, int) {
    (
        clamp_axis(pointer.root_x - off_x, bordered(geometry.width as int), screen.width as int),
        clamp_axis(pointer.root_y - off_y, bordered(geometry.height as int), screen.height as int),
    )
}

/// Inner size along one axis that puts the far border under the pointer,
/// the window's origin staying where it is.
pub open spec fn resize_axis_spec(pointer: int, origin: int) -> int {
    pointer - origin + 1 - 2 * BORDER_WIDTH
}

/// Size that a resize drag asks for, or `None` where either dimension
/// would fall below `MIN_SIZE`.
pub open spec fn resize_target_spec(pointer: Pointer, geometry: Geometry) -> Option<(int, int)> {
    let w = resize_axis_spec(pointer.root_x as int, geometry.x as int);
    let h = resize_axis_spec(pointer.root_y as int, geometry.y as int);
    if w >= MIN_SIZE && h >= MIN_SIZE {
        Some((w, h))
    } else {
        None
    }
}

/// Clamped position along one axis for a pointer coordinate, the offset
/// captured at drag start, the window's inner size and the screen's extent.
pub fn move_axis(pointer: i16, offset: i32, size: u16, screen: u16) -> (r: i32)
    ensures
        r == clamp_axis(pointer - offset, bordered(size as int), screen as int),
{
    let candidate: i64 = pointer as i64 - offset as i64;
    let extent: i64 = size as i64 + 2 * (BORDER_WIDTH as i64);
    let limit: i64 = screen as i64;
    if candidate <= 0 {
        0
    } else if candidate + extent > limit {
        (limit - extent) as i32
    } else {
        candidate as i32
    }
}

/// Where a move drag puts the window's top-left corner.
pub fn move_target(
    off_x: i32,
    off_y: i32,
    pointer: Pointer,
    geometry: Geometry,
    screen: ScreenInfo,
) -> (r: (i32, i32))
    ensures
        (r.0 as int, r.1 as int) == move_target_spec(
            off_x as int,
            off_y as int,
            pointer,
            geometry,
            screen,
        ),
{
    let x: i32 = move_axis(pointer.root_x, off_x, geometry.width, screen.width);
    let y: i32 = move_axis(pointer.root_y, off_y, geometry.height, screen.height);
    (x, y)
}

/// Candidate inner size along one axis of a resize drag.
pub fn resize_axis(pointer: i16, origin: i16) -> (r: i32)
    ensures
        r == resize_axis_spec(pointer as int, origin as int),
{
    pointer as i32 - origin as i32 + 1 - 2 * BORDER_WIDTH
}

/// The size a resize drag gives the window, if it gives one.
pub fn resize_target(pointer: Pointer, geometry: Geometry) -> (r: Option<(u32, u32)>)
    ensures
        match r {
            Some((w, h)) => resize_target_spec(pointer, geometry) == Some((w as int, h as int)),
            None => resize_target_spec(pointer, geometry).is_none(),
        },
{
    let w: i32 = resize_axis(pointer.root_x, geometry.x);
    let h: i32 = resize_axis(pointer.root_y, geometry.y);
    if w >= MIN_SIZE && h >= MIN_SIZE {
        Some((w as u32, h as u32))
    } else {
        None
    }
}

/// Whatever the offset, the pointer, the window and the screen, both
/// coordinates of a move's target are small enough for a configure request.
pub proof fn lemma_move_target_fits(
    off_x: i32,
    off_y: i32,
    pointer: Pointer,
    geometry: Geometry,
    screen: ScreenInfo,
)
    ensures
        -65539 <= move_target_spec(off_x as int, off_y as int, pointer, geometry, screen).0
            <= 65535,
        -65539 <= move_target_spec(off_x as int, off_y as int, pointer, geometry, screen).1
            <= 65535,
{
}

/// A moved window stays on screen: if the bordered window fits the screen
/// in both directions, the target corner is never negative and never
/// further right or down than the last position at which the bordered
/// window still ends on the screen.
pub proof fn lemma_move_stays_on_screen(
    off_x: int,
    off_y: int,
    pointer: Pointer,
    geometry: Geometry,
    screen: ScreenInfo,
)
    requires
        bordered(geometry.width as int) <= screen.width,
        bordered(geometry.height as int) <= screen.height,
    ensures
        0 <= move_target_spec(off_x, off_y, pointer, geometry, screen).0 <= screen.width
            - bordered(geometry.width as int),
        0 <= move_target_spec(off_x, off_y, pointer, geometry, screen).1 <= screen.height
            - bordered(geometry.height as int),
{
}

/// The target of a move depends on the window's size alone, not on where
/// the window currently is: a window that has already been moved, by this
/// drag or anything else, is sent to the same place again as long as the
/// pointer rests.
pub proof fn lemma_move_ignores_position(
    off_x: int,
    off_y: int,
    pointer: Pointer,
    before: Geometry,
    after: Geometry,
    screen: ScreenInfo,
)
    requires
        after.width == before.width,
        after.height == before.height,
    ensures
        move_target_spec(off_x, off_y, pointer, after, screen) == move_target_spec(
            off_x,
            off_y,
            pointer,
            before,
            screen,
        ),
{
}

/// A resize that is granted never gives less than `MIN_SIZE` in either
/// direction, and one whose candidate falls short in either direction is
/// not granted.
pub proof fn lemma_resize_floor(pointer: Pointer, geometry: Geometry)
    ensures
        match resize_target_spec(pointer, geometry) {
            Some((w, h)) => w >= MIN_SIZE && h >= MIN_SIZE,
            None => resize_axis_spec(pointer.root_x as int, geometry.x as int) < MIN_SIZE
                || resize_axis_spec(pointer.root_y as int, geometry.y as int) < MIN_SIZE,
        },
        (resize_axis_spec(pointer.root_x as int, geometry.x as int) < MIN_SIZE
            || resize_axis_spec(pointer.root_y as int, geometry.y as int) < MIN_SIZE)
            ==> resize_target_spec(pointer, geometry).is_none(),
{
}

} // verus!
