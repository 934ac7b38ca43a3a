//! Resolving the held directional keys into a walking direction.

use vstd::prelude::*;

use crate::movement::{Move, MoveDirection};

verus! {

/// Which of the four directional keys are held at one instant.
#[derive(Clone, Copy, Debug, PartialEq, Eq, Structural)]
pub struct HeldKeys {
    pub up: bool,
    pub down: bool,
    pub left: bool,
    pub right: bool,
}

impl HeldKeys {
    /// Whether the key of `direction` is held.
    pub open spec fn holds(self, direction: MoveDirection) -> bool {
        match direction {
            MoveDirection::Up => self.up,
            MoveDirection::Down => self.down,
            MoveDirection::Left => self.left,
            MoveDirection::Right => self.right,
        }
    }

    /// Whether at least one key is held.
    pub open spec fn any(self) -> bool {
        self.up || self.down || self.left || self.right
    }
}

/// The place of a direction in the fixed order that settles which of several
/// held keys wins: right before left before up before down. Lower wins.
pub open spec fn priority(direction: MoveDirection) -> nat {
    match direction {
        MoveDirection::Right => 0,
        MoveDirection::Left => 1,
        MoveDirection::Up => 2,
        MoveDirection::Down => 3,
    }
}

/// The direction that `keys` stand for: none while every key is released,
/// else the first held one in the order right, left, up, down.
pub open spec fn resolved(keys: HeldKeys) -> Option<MoveDirection> {
    if keys.right {
        Some(MoveDirection::Right)
    } else if keys.left {
        Some(MoveDirection::Left)
    } else if keys.up {
        Some(MoveDirection::Up)
    } else if keys.down {
        Some(MoveDirection::Down)
    } else {
        None
    }
}

/// Resolves the held keys into the direction to walk in.
pub fn resolve_direction(keys: HeldKeys) -> (intent: Option<MoveDirection>)
    ensures
        intent == resolved(keys),
{
    if keys.right {
        Some(MoveDirection::Right)
    } else if keys.left {
        Some(MoveDirection::Left)
    } else if keys.up {
        Some(MoveDirection::Up)
    } else if keys.down {
        Some(MoveDirection::Down)
    } else {
        None
    }
}

impl Move {
    /// Takes the direction from the held keys. While a key is held the foot
    /// stays as it is; once all are released the stance turns neutral at
    /// once.
    pub fn steer(&mut self, keys: HeldKeys)
        ensures
            final(self).direction == resolved(keys),
            final(self).foot == (if keys.any() {
                old(self).foot
            } else {
                None
            }),
    {
        let intent = resolve_direction(keys);
        if intent.is_none() {
            self.foot = None;
        }
        self.direction = intent;
    }
}

/// A direction is resolved exactly when its key is held and no held key has
/// a higher priority; nothing is resolved exactly when no key is held.
pub proof fn resolved_is_first_held(keys: HeldKeys)
    ensures
        resolved(keys) is None <==> !keys.any(),
        forall|d: MoveDirection|
            resolved(keys) == Some(d) <==> (keys.holds(d) && forall|e: MoveDirection|
                keys.holds(e) ==> priority(d) <= priority(e)),
{
    assert forall|d: MoveDirection|
        resolved(keys) == Some(d) <==> (keys.holds(d) && forall|e: MoveDirection|
            keys.holds(e) ==> priority(d) <= priority(e)) by {
        if keys.holds(d) && forall|e: MoveDirection| keys.holds(e) ==> priority(d) <= priority(e) {
            assert(keys.holds(MoveDirection::Right) ==> priority(d) <= priority(
                MoveDirection::Right,
            ));
            assert(keys.holds(MoveDirection::Left) ==> priority(d) <= priority(
                MoveDirection::Left,
            ));
            assert(keys.holds(MoveDirection::Up) ==> priority(d) <= priority(MoveDirection::Up));
        }
    }
}

/// Right held together with any other keys resolves to right.
pub proof fn right_outranks_all(keys: HeldKeys)
    requires
        keys.right,
    ensures
        resolved(keys) == Some(MoveDirection::Right),
{
}

} // verus!
