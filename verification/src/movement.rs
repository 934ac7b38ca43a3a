//! The state that steering and animation share: where the character is
//! heading and which foot leads.

use vstd::prelude::*;

verus! {

/// One of the four cardinal directions the character can walk in.
#[derive(Clone, Copy, Debug, PartialEq, Eq, Structural)]
pub enum MoveDirection {
    Up,
    Down,
    Left,
    Right,
}

/// The foot that is forward in the walk cycle. A neutral stance is the
/// absence of a foot.
#[derive(Clone, Copy, Debug, PartialEq, Eq, Structural)]
pub enum Foot {
    Left,
    Right,
}

/// The stance that follows `foot` in the walk cycle: neutral, right, left,
/// and neutral again.
pub open spec fn next_foot(foot: Option<Foot>) -> Option<Foot> {
    match foot {
        None => Some(Foot::Right),
        Some(Foot::Right) => Some(Foot::Left),
        Some(Foot::Left) => None,
    }
}

/// What the character is doing: the direction it walks in, if any, and the
/// foot that leads.
#[derive(Clone, Copy, Debug, PartialEq, Eq)]
pub struct Move {
    pub foot: Option<Foot>,
    pub direction: Option<MoveDirection>,
}

impl Default for Move {
    /// A character at rest: no direction, neutral stance.
    fn default() -> (movement: Move)
        ensures
            movement.foot is None,
            movement.direction is None,
    {
        Move { foot: None, direction: None }
    }
}

impl Move {
    /// Advances the walk cycle by one phase and leaves the direction alone.
    pub fn toggle_foot(&mut self)
        ensures
            final(self).foot == next_foot(old(self).foot),
            final(self).direction == old(self).direction,
    {
        self.foot = match self.foot {
            Some(Foot::Right) => Some(Foot::Left),
            Some(Foot::Left) => None,
            None => Some(Foot::Right),
        };
    }
}

/// The walk cycle has exactly three phases: three steps lead back to the
/// stance they started from, and neither one step nor two do. From a neutral
/// stance the right foot leads first, then the left.
pub proof fn foot_cycle_has_three_phases(foot: Option<Foot>)
    ensures
        next_foot(next_foot(next_foot(foot))) == foot,
        next_foot(foot) != foot,
        next_foot(next_foot(foot)) != foot,
        next_foot(None) == Some(Foot::Right),
        next_foot(next_foot(None)) == Some(Foot::Left),
        next_foot(next_foot(next_foot(None))) == None::<Foot>,
{
}

} // verus!
