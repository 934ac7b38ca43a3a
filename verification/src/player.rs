//! The controlled character as one value, and the tick that advances it.

use vstd::prelude::*;

use crate::gait::{animate, foot_after, frame_after, rested, FRAME_COUNT, SHEET_COLUMNS};
use crate::input::{resolved, HeldKeys};
use crate::movement::{Move, MoveDirection};
use crate::position::{admits, settled, shift_x, shift_y, Position, Viewport};
use crate::timer::GaitTimer;

verus! {

/// The one character under control: its movement, the timer and the frame of
/// its walk cycle, where it stands, and the two constants it moves by.
#[derive(Clone, Copy, Debug, PartialEq, Eq)]
pub struct Player {
    /// The direction walked in and the foot that leads.
    pub movement: Move,
    /// Paces the walk cycle.
    pub timer: GaitTimer,
    /// The cell of the sprite sheet that shows.
    pub frame: usize,
    /// Where the character stands.
    pub position: Position,
    /// Steps walked in one tick.
    pub speed: u32,
    /// How far from the edge of the viewport the character stops, in steps.
    pub margin: u32,
}

impl Player {
    /// The frame lies on the sprite sheet, and a character without a
    /// direction stands in a neutral stance.
    pub open spec fn wf(self) -> bool {
        &&& self.frame < FRAME_COUNT
        &&& self.movement.direction is None ==> self.movement.foot is None
    }

    /// What one tick makes of a character, given the keys held, the ticks
    /// gone by and the viewport. The keys are resolved first; the walk cycle
    /// and the position then each go by the resolved direction, and neither
    /// reads what the other writes.
    pub open spec fn steps_to(
        self,
        keys: HeldKeys,
        delta: u64,
        viewport: Viewport,
        next: Player,
    ) -> bool {
        let direction = resolved(keys);
        let foot = if keys.any() {
            self.movement.foot
        } else {
            None
        };
        let completed = self.timer.completes(delta);
        &&& next.speed == self.speed
        &&& next.margin == self.margin
        &&& next.movement.direction == direction
        &&& next.movement.foot == foot_after(direction, foot, completed)
        &&& next.frame == frame_after(direction, foot, self.frame as int, completed)
        &&& next.timer.period == self.timer.period
        &&& next.timer.elapsed == (if keys.any() {
            self.timer.carried(delta)
        } else {
            self.timer.elapsed as int
        })
        &&& next.position.x == settled(
            self.position.x as int,
            self.position.x + shift_x(direction, self.speed * delta),
            viewport.half_width as int,
            self.margin as int,
        )
        &&& next.position.y == settled(
            self.position.y as int,
            self.position.y + shift_y(direction, self.speed * delta),
            viewport.half_height as int,
            self.margin as int,
        )
    }

    /// A character at rest in the centre of the viewport, showing the first
    /// cell, with a timer of the given period that has counted nothing.
    pub fn new(period: u64, speed: u32, margin: u32) -> (player: Player)
        ensures
            player.wf(),
            player.movement.foot is None,
            player.movement.direction is None,
            player.timer.period == period,
            player.timer.elapsed == 0,
            player.frame == 0,
            player.position.x == 0,
            player.position.y == 0,
            player.speed == speed,
            player.margin == margin,
    {
        Player {
            movement: Move::default(),
            timer: GaitTimer::new(period),
            frame: 0,
            position: Position::origin(),
            speed,
            margin,
        }
    }

    /// Advances the character by one tick: steers by the held keys, then
    /// animates and moves by the direction they resolve to.
    pub fn tick(&mut self, keys: HeldKeys, delta: u64, viewport: Viewport)
        requires
            keys.any() ==> old(self).timer.elapsed + delta <= u64::MAX,
        ensures
            old(self).steps_to(keys, delta, viewport, *final(self)),
            old(self).wf() ==> final(self).wf(),
    {
        self.movement.steer(keys);
        animate(&mut self.movement, &mut self.timer, &mut self.frame, delta);
        self.position.advance(self.movement.direction, self.speed, delta, viewport, self.margin);
    }
}

/// A tick has one outcome.
pub proof fn tick_is_deterministic(
    before: Player,
    keys: HeldKeys,
    delta: u64,
    viewport: Viewport,
    one: Player,
    other: Player,
)
    requires
        before.steps_to(keys, delta, viewport, one),
        before.steps_to(keys, delta, viewport, other),
    ensures
        one == other,
{
}

/// Releasing every key resets the gait within the same tick, whatever the
/// timer has counted: the stance is neutral and no direction is left. The
/// timer and the position stand still, and the frame falls back by a row.
pub proof fn release_resets_gait(
    before: Player,
    keys: HeldKeys,
    delta: u64,
    viewport: Viewport,
    after: Player,
)
    requires
        !keys.any(),
        before.steps_to(keys, delta, viewport, after),
    ensures
        after.movement.foot is None,
        after.movement.direction is None,
        after.timer == before.timer,
        after.position == before.position,
        after.frame == rested(before.frame as int),
{
}

/// When the keys are released while a frame of the row just below the base
/// row shows, the first idle tick takes the frame up by exactly one row,
/// into the base row, and the second idle tick leaves it there.
pub proof fn idle_ticks_rest_second_row_frame(
    before: Player,
    first: HeldKeys,
    first_delta: u64,
    first_viewport: Viewport,
    between: Player,
    second: HeldKeys,
    second_delta: u64,
    second_viewport: Viewport,
    after: Player,
)
    requires
        SHEET_COLUMNS <= before.frame < 2 * SHEET_COLUMNS,
        !first.any(),
        !second.any(),
        before.steps_to(first, first_delta, first_viewport, between),
        between.steps_to(second, second_delta, second_viewport, after),
    ensures
        between.frame == before.frame - SHEET_COLUMNS,
        between.frame < SHEET_COLUMNS,
        after.frame == between.frame,
{
}

/// Walking up or down leaves x exactly as it was, and walking left or right
/// leaves y exactly as it was, wherever the character stands and whatever
/// the viewport; the other coordinate takes its candidate where its axis
/// admits it.
pub proof fn walking_along_one_axis_keeps_the_other(
    before: Player,
    keys: HeldKeys,
    delta: u64,
    viewport: Viewport,
    after: Player,
)
    requires
        before.steps_to(keys, delta, viewport, after),
    ensures
        resolved(keys) == Some(MoveDirection::Up) || resolved(keys) == Some(MoveDirection::Down)
            ==> after.position.x == before.position.x,
        resolved(keys) == Some(MoveDirection::Left) || resolved(keys) == Some(
            MoveDirection::Right,
        ) ==> after.position.y == before.position.y,
        resolved(keys) == Some(MoveDirection::Up) && admits(
            before.position.y + before.speed * delta,
            viewport.half_height as int,
            before.margin as int,
        ) ==> after.position.y == before.position.y + before.speed * delta,
{
}

/// A tick keeps the frame on the sprite sheet, and after any tick a
/// character without a direction stands in a neutral stance.
pub proof fn tick_keeps_player_well_formed(
    before: Player,
    keys: HeldKeys,
    delta: u64,
    viewport: Viewport,
    after: Player,
)
    requires
        before.steps_to(keys, delta, viewport, after),
    ensures
        before.frame < FRAME_COUNT ==> after.frame < FRAME_COUNT,
        after.movement.direction is None ==> after.movement.foot is None,
        before.wf() ==> after.wf(),
{
}

/// A character strictly inside the viewport less the margin is still there
/// after a tick against the same viewport.
pub proof fn tick_keeps_player_inside(
    before: Player,
    keys: HeldKeys,
    delta: u64,
    viewport: Viewport,
    after: Player,
)
    requires
        before.position.inside(viewport, before.margin),
        before.steps_to(keys, delta, viewport, after),
    ensures
        after.position.inside(viewport, after.margin),
{
}

/// At most one coordinate changes in a tick.
pub proof fn tick_moves_one_axis(
    before: Player,
    keys: HeldKeys,
    delta: u64,
    viewport: Viewport,
    after: Player,
)
    requires
        before.steps_to(keys, delta, viewport, after),
    ensures
        after.position.x == before.position.x || after.position.y == before.position.y,
{
}

/// The walk cycle does not depend on the position or the viewport, and the
/// position does not depend on the walk cycle: of two characters ticked with
/// the same keys and the same ticks, those that agree in gait agree in gait
/// afterwards, and those that agree in position, speed, margin and viewport
/// agree in position afterwards.
pub proof fn gait_and_position_are_separate(
    one: Player,
    other: Player,
    keys: HeldKeys,
    delta: u64,
    one_viewport: Viewport,
    other_viewport: Viewport,
    one_after: Player,
    other_after: Player,
)
    requires
        one.steps_to(keys, delta, one_viewport, one_after),
        other.steps_to(keys, delta, other_viewport, other_after),
    ensures
        one.movement.foot == other.movement.foot && one.timer == other.timer && one.frame
            == other.frame ==> one_after.movement == other_after.movement && one_after.timer
            == other_after.timer && one_after.frame == other_after.frame,
        one.position == other.position && one.speed == other.speed && one.margin == other.margin
            && one_viewport == other_viewport ==> one_after.position == other_after.position,
{
}

} // verus!
