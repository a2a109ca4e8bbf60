//! Grid geometry: bounded coordinates and toroidal wrap-around arithmetic.
//!
//! A grid axis ranges over `[0, max]` inclusive. Stepping past an edge
//! re-enters from the opposite edge, with one deliberate asymmetry kept
//! from the game's rules: a raw coordinate of zero — whether reached by a
//! decrement, by a guarded decrement from zero, or simply carried along on
//! the axis that did not move — jumps to the axis maximum, while a raw
//! coordinate beyond the maximum jumps to zero.

use vstd::prelude::*;

verus! {

/// One of the four headings a snake can take on the grid.
#[derive(Clone, Copy, Debug, PartialEq, Eq, Structural)]
pub enum WalkDirection {
    Up,
    Down,
    Left,
    Right,
}

/// A coordinate pair on the grid. Equality is structural: two points are
/// equal exactly when both components are.
#[derive(Clone, Copy, Debug, PartialEq, Eq, Structural)]
pub struct Point {
    pub x: u16,
    pub y: u16,
}

impl Point {
    /// Builds the point `(x, y)`.
    pub fn new(x: u16, y: u16) -> (r: Point)
        ensures
            r == (Point { x, y }),
    {
        Point { x, y }
    }
}

/// Toroidal wrap for one axis: a raw value of zero jumps to the axis
/// maximum, a raw value beyond the maximum jumps to zero, anything else
/// stays where it is.
pub open spec fn wrap_axis(v: int, max: int) -> int {
    if v == 0 {
        max
    } else if v > max {
        0
    } else {
        v
    }
}

/// The raw (unwrapped) coordinates one step from `p` in direction `d`.
/// Up decrements `y`, Down increments it, Left decrements `x`, Right
/// increments it; a decrement from zero is held at zero so that the wrap
/// step, not underflow, decides where it lands.
pub open spec fn advance(p: Point, d: WalkDirection) -> (int, int) {
    match d {
        WalkDirection::Up => (p.x as int, if p.y == 0 { 0 } else { p.y - 1 }),
        WalkDirection::Down => (p.x as int, p.y + 1),
        WalkDirection::Left => (if p.x == 0 { 0 } else { p.x - 1 }, p.y as int),
        WalkDirection::Right => (p.x + 1, p.y as int),
    }
}

/// Where a head at `p` lands after one step in direction `d` on a grid
/// with axis maxima `max_w` and `max_h`: advance, then wrap each axis
/// independently.
pub open spec fn next_head(p: Point, d: WalkDirection, max_w: u16, max_h: u16) -> Point {
    Point {
        x: wrap_axis(advance(p, d).0, max_w as int) as u16,
        y: wrap_axis(advance(p, d).1, max_h as int) as u16,
    }
}

/// One step never leaves the grid, whatever the starting point: both
/// coordinates of the landing spot stay within the axis maxima, so the
/// step arithmetic is total over the bounded domain.
pub proof fn lemma_next_head_in_bounds(p: Point, d: WalkDirection, max_w: u16, max_h: u16)
    ensures
        next_head(p, d, max_w, max_h).x <= max_w,
        next_head(p, d, max_w, max_h).y <= max_h,
{
}

/// A point is interior when it sits clear of every boundary effect: at
/// least two cells from the zero edge (a decrement to zero would wrap)
/// and strictly below the axis maximum on both axes.
pub open spec fn interior(p: Point, max_w: u16, max_h: u16) -> bool {
    &&& 2 <= p.x < max_w
    &&& 2 <= p.y < max_h
}

/// From an interior point, one step moves the head by exactly one cell in
/// the chosen direction: no wrap fires on either axis.
pub proof fn lemma_interior_unit_step(p: Point, d: WalkDirection, max_w: u16, max_h: u16)
    requires
        interior(p, max_w, max_h),
    ensures
        d is Up ==> next_head(p, d, max_w, max_h) == (Point { x: p.x, y: (p.y - 1) as u16 }),
        d is Down ==> next_head(p, d, max_w, max_h) == (Point { x: p.x, y: (p.y + 1) as u16 }),
        d is Left ==> next_head(p, d, max_w, max_h) == (Point { x: (p.x - 1) as u16, y: p.y }),
        d is Right ==> next_head(p, d, max_w, max_h) == (Point { x: (p.x + 1) as u16, y: p.y }),
{
}

/// Stepping left from the zero column never underflows: the head wraps to
/// the far edge of the grid, the column at the axis maximum.
pub proof fn lemma_left_from_zero_wraps(p: Point, max_w: u16, max_h: u16)
    requires
        p.x == 0,
    ensures
        next_head(p, WalkDirection::Left, max_w, max_h).x == max_w,
{
}

} // verus!
