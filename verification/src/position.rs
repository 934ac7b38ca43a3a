//! Advancing the position inside the viewport.
//!
//! A move is first computed as a candidate. Each axis then takes its
//! candidate coordinate only if that lies strictly inside the viewport less
//! a margin; an axis whose candidate lies outside keeps the coordinate it
//! had. Nothing is ever moved onto the boundary itself.

use vstd::prelude::*;

use crate::movement::MoveDirection;

verus! {

/// Where the character stands, in steps from the centre of the viewport.
#[derive(Clone, Copy, Debug, PartialEq, Eq, Structural)]
pub struct Position {
    pub x: i64,
    pub y: i64,
}

/// Half the width and half the height of the viewport, in steps.
#[derive(Clone, Copy, Debug, PartialEq, Eq, Structural)]
pub struct Viewport {
    pub half_width: u32,
    pub half_height: u32,
}

/// The absolute value of `value`.
pub open spec fn magnitude(value: int) -> int {
    if value < 0 {
        -value
    } else {
        value
    }
}

/// How far a walk of `distance` steps in `direction` moves along the x axis.
pub open spec fn shift_x(direction: Option<MoveDirection>, distance: int) -> int {
    match direction {
        Some(MoveDirection::Right) => distance,
        Some(MoveDirection::Left) => -distance,
        _ => 0,
    }
}

/// How far a walk of `distance` steps in `direction` moves along the y axis.
pub open spec fn shift_y(direction: Option<MoveDirection>, distance: int) -> int {
    match direction {
        Some(MoveDirection::Up) => distance,
        Some(MoveDirection::Down) => -distance,
        _ => 0,
    }
}

/// Whether `coordinate` lies strictly inside an axis that reaches
/// `half_extent` to either side, less `margin`.
pub open spec fn admits(coordinate: int, half_extent: int, margin: int) -> bool {
    magnitude(coordinate) < half_extent - margin
}

/// The coordinate an axis ends up with: the candidate where the axis admits
/// it, else the current one.
pub open spec fn settled(current: int, candidate: int, half_extent: int, margin: int) -> int {
    if admits(candidate, half_extent, margin) {
        candidate
    } else {
        current
    }
}

impl Position {
    /// Whether both coordinates lie strictly inside `viewport` less `margin`.
    pub open spec fn inside(self, viewport: Viewport, margin: u32) -> bool {
        &&& admits(self.x as int, viewport.half_width as int, margin as int)
        &&& admits(self.y as int, viewport.half_height as int, margin as int)
    }

    /// The centre of the viewport.
    pub fn origin() -> (position: Position)
        ensures
            position.x == 0,
            position.y == 0,
    {
        Position { x: 0, y: 0 }
    }

    /// Walks for `delta` ticks at `speed` steps a tick in `direction`, or
    /// stands still without one. The candidate lies `speed * delta` steps
    /// along the axis of the direction; each axis settles on its own. An
    /// admitted coordinate lies within the reach of a `u32`, so the result
    /// always fits.
    pub fn advance(
        &mut self,
        direction: Option<MoveDirection>,
        speed: u32,
        delta: u64,
        viewport: Viewport,
        margin: u32,
    )
        ensures
            final(self).x == settled(
                old(self).x as int,
                old(self).x + shift_x(direction, speed * delta),
                viewport.half_width as int,
                margin as int,
            ),
            final(self).y == settled(
                old(self).y as int,
                old(self).y + shift_y(direction, speed * delta),
                viewport.half_height as int,
                margin as int,
            ),
    {
        // The product of a `u32` and a `u64` lies below 2^96: nothing here leaves `i128`.
        assert(0 <= speed * delta <= 0xffff_ffff * 0xffff_ffff_ffff_ffff) by (nonlinear_arith)
            requires
                0 <= speed <= 0xffff_ffff,
                0 <= delta <= 0xffff_ffff_ffff_ffff,
        ;
        let distance: i128 = (speed as i128) * (delta as i128);
        let (step_x, step_y): (i128, i128) = match direction {
            Some(MoveDirection::Up) => (0, distance),
            Some(MoveDirection::Down) => (0, -distance),
            Some(MoveDirection::Left) => (-distance, 0),
            Some(MoveDirection::Right) => (distance, 0),
            None => (0, 0),
        };
        let x: i128 = self.x as i128 + step_x;
        let y: i128 = self.y as i128 + step_y;
        let limit_x: i128 = viewport.half_width as i128 - margin as i128;
        let limit_y: i128 = viewport.half_height as i128 - margin as i128;
        if -limit_x < x && x < limit_x {
            self.x = x as i64;
        }
        if -limit_y < y && y < limit_y {
            self.y = y as i64;
        }
    }
}

/// An axis freezes, it does not clamp: a candidate that the axis does not
/// admit leaves the coordinate exactly where it was, however close to the
/// boundary that is, and an admitted candidate is taken as it is.
pub proof fn blocked_axis_keeps_coordinate(
    current: int,
    candidate: int,
    half_extent: int,
    margin: int,
)
    ensures
        !admits(candidate, half_extent, margin) ==> settled(
            current,
            candidate,
            half_extent,
            margin,
        ) == current,
        admits(candidate, half_extent, margin) ==> settled(current, candidate, half_extent, margin)
            == candidate,
{
}

/// A coordinate strictly inside the boundary stays strictly inside it,
/// whatever the candidate.
pub proof fn settled_stays_inside(current: int, candidate: int, half_extent: int, margin: int)
    requires
        admits(current, half_extent, margin),
    ensures
        admits(settled(current, candidate, half_extent, margin), half_extent, margin),
{
}

/// The axes are independent: walking up or down leaves x exactly as it was,
/// walking left or right leaves y exactly as it was, and standing still
/// leaves both, whatever the viewport and wherever the character stands.
pub proof fn axes_are_independent(
    direction: Option<MoveDirection>,
    distance: int,
    x: int,
    y: int,
    half_width: int,
    half_height: int,
    margin: int,
)
    ensures
        direction != Some(MoveDirection::Left) && direction != Some(MoveDirection::Right)
            ==> settled(x, x + shift_x(direction, distance), half_width, margin) == x,
        direction != Some(MoveDirection::Up) && direction != Some(MoveDirection::Down)
            ==> settled(y, y + shift_y(direction, distance), half_height, margin) == y,
{
}

/// Walking up near the right boundary: y takes its candidate as long as the
/// y axis admits it, and x does not change.
pub proof fn upward_walk_beside_boundary(
    distance: int,
    x: int,
    y: int,
    half_width: int,
    half_height: int,
    margin: int,
)
    requires
        admits(y + distance, half_height, margin),
    ensures
        settled(x, x + shift_x(Some(MoveDirection::Up), distance), half_width, margin) == x,
        settled(y, y + shift_y(Some(MoveDirection::Up), distance), half_height, margin) == y
            + distance,
{
}

} // verus!
