//! Core of a small side-scrolling arcade game: a player rectangle falls under
//! gravity and must pass through the gaps of a stream of scrolling obstacle
//! pairs. This crate holds the verified simulation core — geometry, entity
//! state, the per-frame update, and the collision evaluator. Rendering,
//! input polling and frame pacing are external collaborators.

use vstd::prelude::*;

pub mod entities;
pub mod geometry;
pub mod scheduler;
pub mod sim;

verus! {

/// Target frame rate of the scheduler, in ticks per second.
pub const FPS: i32 = 30;

/// Width of the visible area, in pixels.
pub const WINDOW_WIDTH: i32 = 800;

/// Height of the visible area, in pixels; also the floor line the player
/// rests on.
pub const WINDOW_HEIGHT: i32 = 600;

/// Upward displacement applied once per jump input.
pub const PLAYER_VELOCITY: i32 = 50;

/// Downward displacement applied per tick while the player is above the floor.
pub const GRAVITY: i32 = 5;

/// Horizontal position at which a freshly spawned obstacle pair appears.
pub const PIPE_X_POS: i32 = 325;

/// Vertical open space between an obstacle pair's top and bottom rectangles.
pub const PIPE_GAP: i32 = 100;

/// Horizontal extent of every obstacle rectangle.
pub const PIPE_WIDTH: i32 = 75;

/// Leftward displacement applied to every obstacle per tick.
pub const PIPE_SPEED: i32 = 5;

/// Obstacle spawning fires on every tick whose frame count is a multiple of
/// this cadence.
pub const SPAWN_INTERVAL: i32 = FPS * 4;

/// Smallest gap-top height the spawner may draw.
pub const GAP_MIN: i32 = 100;

} // verus!
