//! The walk cycle: which cell of the sprite sheet shows, and when the feet
//! change.

use vstd::prelude::*;

use crate::movement::{next_foot, Foot, Move, MoveDirection};
use crate::timer::GaitTimer;

verus! {

/// Columns of the sprite sheet. Cells are numbered row by row.
pub const SHEET_COLUMNS: usize = 4;

/// Rows of the sprite sheet.
pub const SHEET_ROWS: usize = 4;

/// Cells of the sprite sheet.
pub const FRAME_COUNT: usize = 16;

/// The cell that shows a character heading in `direction` with `foot`
/// forward. The sheet is not laid out regularly, so this is a table.
pub open spec fn frame_of(direction: MoveDirection, foot: Option<Foot>) -> int {
    match (direction, foot) {
        (MoveDirection::Right, None) => 0,
        (MoveDirection::Right, Some(Foot::Right)) => 4,
        (MoveDirection::Right, Some(Foot::Left)) => 12,
        (MoveDirection::Down, None) => 1,
        (MoveDirection::Down, Some(Foot::Right)) => 5,
        (MoveDirection::Down, Some(Foot::Left)) => 13,
        (MoveDirection::Up, None) => 2,
        (MoveDirection::Up, Some(Foot::Right)) => 6,
        (MoveDirection::Up, Some(Foot::Left)) => 14,
        (MoveDirection::Left, None) => 3,
        (MoveDirection::Left, Some(Foot::Right)) => 15,
        (MoveDirection::Left, Some(Foot::Left)) => 7,
    }
}

/// The cell an idle character falls back to from `index`: one row up,
/// unless it is in the base row already.
pub open spec fn rested(index: int) -> int {
    if index >= SHEET_COLUMNS {
        index - SHEET_COLUMNS
    } else {
        index
    }
}

/// The foot after one tick: it changes only when a walking character's
/// timer completes.
pub open spec fn foot_after(
    direction: Option<MoveDirection>,
    foot: Option<Foot>,
    completed: bool,
) -> Option<Foot> {
    if direction is Some && completed {
        next_foot(foot)
    } else {
        foot
    }
}

/// The cell after one tick. A walking character takes the cell of its
/// direction and of the foot it had before the tick, and only when the timer
/// completes; an idle one falls back by a row.
pub open spec fn frame_after(
    direction: Option<MoveDirection>,
    foot: Option<Foot>,
    frame: int,
    completed: bool,
) -> int {
    match direction {
        Some(heading) => if completed {
            frame_of(heading, foot)
        } else {
            frame
        },
        None => rested(frame),
    }
}

/// Looks up the cell for a direction and a foot.
pub fn frame_index(direction: MoveDirection, foot: Option<Foot>) -> (index: usize)
    ensures
        index == frame_of(direction, foot),
{
    match direction {
        MoveDirection::Right => match foot {
            None => 0,
            Some(Foot::Right) => 4,
            Some(Foot::Left) => 12,
        },
        MoveDirection::Down => match foot {
            None => 1,
            Some(Foot::Right) => 5,
            Some(Foot::Left) => 13,
        },
        MoveDirection::Up => match foot {
            None => 2,
            Some(Foot::Right) => 6,
            Some(Foot::Left) => 14,
        },
        MoveDirection::Left => match foot {
            None => 3,
            Some(Foot::Right) => 15,
            Some(Foot::Left) => 7,
        },
    }
}

/// The cell to show on an idle tick in place of `index`.
pub fn rest_frame(index: usize) -> (rest: usize)
    ensures
        rest == rested(index as int),
{
    if index >= SHEET_COLUMNS {
        index - SHEET_COLUMNS
    } else {
        index
    }
}

/// One tick of the walk cycle. While the character walks, the timer counts
/// `delta`; when that completes a period the frame is taken from the table
/// and the foot changes. While it is idle the timer stands still and the
/// frame falls back by a row.
pub fn animate(movement: &mut Move, timer: &mut GaitTimer, frame: &mut usize, delta: u64)
    requires
        old(movement).direction is Some ==> old(timer).elapsed + delta <= u64::MAX,
    ensures
        final(movement).direction == old(movement).direction,
        final(movement).foot == foot_after(
            old(movement).direction,
            old(movement).foot,
            old(timer).completes(delta),
        ),
        *final(frame) == frame_after(
            old(movement).direction,
            old(movement).foot,
            *old(frame) as int,
            old(timer).completes(delta),
        ),
        final(timer).period == old(timer).period,
        final(timer).elapsed == (if old(movement).direction is Some {
            old(timer).carried(delta)
        } else {
            old(timer).elapsed as int
        }),
{
    match movement.direction {
        Some(direction) => {
            let index: usize = frame_index(direction, movement.foot);
            if timer.tick(delta) {
                *frame = index;
                movement.toggle_foot();
            }
        },
        None => {
            *frame = rest_frame(*frame);
        },
    }
}

/// Every cell of the table lies on the sheet, and the neutral stance of each
/// direction lies in the base row.
pub proof fn frames_lie_on_sheet(direction: MoveDirection, foot: Option<Foot>)
    ensures
        0 <= frame_of(direction, foot) < FRAME_COUNT,
        frame_of(direction, None) < SHEET_COLUMNS,
        FRAME_COUNT == SHEET_COLUMNS * SHEET_ROWS,
{
}

/// No cell of the table serves two poses.
pub proof fn frames_are_distinct(
    direction: MoveDirection,
    foot: Option<Foot>,
    other_direction: MoveDirection,
    other_foot: Option<Foot>,
)
    requires
        frame_of(direction, foot) == frame_of(other_direction, other_foot),
    ensures
        direction == other_direction,
        foot == other_foot,
{
}

/// An idle tick moves a cell below the base row up by exactly one row, and
/// keeps it in its column and on the sheet. A cell in the base row stays.
pub proof fn rest_moves_up_one_row(index: int)
    requires
        0 <= index,
    ensures
        index >= SHEET_COLUMNS ==> rested(index) == index - SHEET_COLUMNS,
        index < SHEET_COLUMNS ==> rested(index) == index,
        rested(index) % (SHEET_COLUMNS as int) == index % (SHEET_COLUMNS as int),
        0 <= rested(index) <= index,
{
}

/// From the row just below the base row, one idle tick lands in the base
/// row, and a second idle tick changes nothing.
pub proof fn rest_from_second_row(index: int)
    requires
        SHEET_COLUMNS <= index < 2 * SHEET_COLUMNS,
    ensures
        rested(index) == index - SHEET_COLUMNS,
        0 <= rested(index) < SHEET_COLUMNS,
        rested(rested(index)) == rested(index),
{
}

/// Every cell of the sheet reaches the base row, in its own column, within
/// three idle ticks, and stays there.
pub proof fn rest_reaches_base_row(index: int)
    requires
        0 <= index < FRAME_COUNT,
    ensures
        rested(rested(rested(index))) == index % (SHEET_COLUMNS as int),
        rested(rested(rested(rested(index)))) == rested(rested(rested(index))),
{
}

/// A pose whose cell lies in the row just below the base row falls back to
/// the neutral stance of its own direction.
pub proof fn second_row_rests_to_neutral(direction: MoveDirection, foot: Option<Foot>)
    requires
        SHEET_COLUMNS <= frame_of(direction, foot) < 2 * SHEET_COLUMNS,
    ensures
        rested(frame_of(direction, foot)) == frame_of(direction, None),
{
}

/// While a direction is sustained, three completions in a row from a neutral
/// stance show the neutral, the right-foot and the left-foot cell of that
/// direction, and leave the stance neutral again: the cycle has three phases,
/// not two.
pub proof fn sustained_walk_cycles_three_frames(direction: MoveDirection, frame: int)
    ensures
        ({
            let heading = Some(direction);
            let foot1 = foot_after(heading, None, true);
            let foot2 = foot_after(heading, foot1, true);
            let foot3 = foot_after(heading, foot2, true);
            &&& foot1 == Some(Foot::Right)
            &&& foot2 == Some(Foot::Left)
            &&& foot3 == None::<Foot>
            &&& frame_after(heading, None, frame, true) == frame_of(direction, None)
            &&& frame_after(heading, foot1, frame, true) == frame_of(direction, Some(Foot::Right))
            &&& frame_after(heading, foot2, frame, true) == frame_of(direction, Some(Foot::Left))
        }),
{
}

/// Without a completion a walking character keeps its foot and its frame.
pub proof fn no_completion_no_change(direction: MoveDirection, foot: Option<Foot>, frame: int)
    ensures
        foot_after(Some(direction), foot, false) == foot,
        frame_after(Some(direction), foot, frame, false) == frame,
{
}

} // verus!
