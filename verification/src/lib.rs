//! Movement and walk-cycle core of a top-down character controller.
//!
//! Once per simulation tick the held directional keys are resolved into a
//! facing direction, the walk cycle picks the sprite frame to show, and the
//! position advances inside the viewport. Every quantity is an integer: time
//! is counted in ticks of the caller's clock, and a coordinate in steps, one
//! step being the distance covered at speed 1 during one tick.

pub mod gait;
pub mod input;
pub mod movement;
pub mod player;
pub mod position;
pub mod timer;

pub use gait::{animate, frame_index, rest_frame, FRAME_COUNT, SHEET_COLUMNS, SHEET_ROWS};
pub use input::{resolve_direction, HeldKeys};
pub use movement::{Foot, Move, MoveDirection};
pub use player::Player;
pub use position::{Position, Viewport};
pub use timer::GaitTimer;
