//! Core simulation of a side-scrolling "flap to avoid obstacles" arcade game.
//!
//! The crate holds the engine-agnostic heart of the game: geometry and shape
//! queries, the camera, collision rules, an entity store with per-component
//! tables, the per-frame simulation systems, and the game-mode state machine.
//! Rendering, audio and input polling are collaborators that a host program
//! supplies; each frame the host hands the library an input snapshot and
//! carries out the draw and sound commands the library returns.
//!
//! World space is measured in integer units (`i64`), with the y axis growing
//! downward, and time in integer milliseconds. Velocities are in world units
//! per second.

use vstd::prelude::*;

pub mod components;
pub mod entities;
pub mod motion;
pub mod resources;
pub mod store;
pub mod systems;
pub mod world;
pub mod laws;

verus! {

/// Width of the window, in world units; the host must honour it.
pub const WINDOW_WIDTH: i64 = 800;

/// Height of the window, in world units; the host must honour it.
pub const WINDOW_HEIGHT: i64 = 600;

/// The title screen gives way to the menu on its own after this long.
pub const TITLE_TIMEOUT_MILLIS: u64 = 5000;

/// Horizontal scroll speed of the camera, in world units per second.
pub const CAMERA_PAN_SPEED: i64 = 240;

/// Added to the player's downward speed once per playing frame, while below
/// the terminal velocity.
pub const GRAVITY_PER_FRAME: i64 = 6;

/// Gravity is no longer applied once the downward speed reaches this.
pub const TERMINAL_VELOCITY: i64 = 30;

/// Instantaneous change of vertical speed from one flap (negative is upward).
pub const FLAP_IMPULSE: i64 = -30;

/// Flapping is ignored once the upward speed reaches this (negative is upward).
pub const UPWARD_SPEED_LIMIT: i64 = -180;

/// Where the player starts, horizontally.
pub const PLAYER_SPAWN_X: i64 = 20;

/// Where the player starts, vertically: half the window height, less half the
/// player's 20-unit box.
pub const PLAYER_SPAWN_Y: i64 = 290;

/// The player's constant rightward speed, in world units per second.
pub const PLAYER_X_VELOCITY: i64 = 240;

/// Side length of the player's square box.
pub const PLAYER_BOX_SIZE: i64 = 20;

/// Horizontal position of the finish line: four window widths in.
pub const FINISH_LINE_X: i64 = 4 * WINDOW_WIDTH;

/// Width of the finish line strip.
pub const FINISH_LINE_WIDTH: i64 = 5;

/// Width of every obstacle.
pub const OBSTACLE_WIDTH: i64 = 15;

/// Machine limit: coordinates and shape extents the simulation works on are
/// kept within this bound so that position updates stay inside `i64`.
pub const COORD_LIMIT: i64 = 1_000_000_000_000;

/// Machine limit: speeds are kept within this bound.
pub const SPEED_LIMIT: i64 = 1_000_000;

/// Machine limit: a single frame's delta is at most an hour, in milliseconds.
pub const DELTA_LIMIT: u64 = 3_600_000;

/// Largest displacement a single frame can produce:
/// `DELTA_LIMIT * SPEED_LIMIT / 1000`.
pub const STEP_LIMIT: i64 = 3_600_000_000;

/// Positions may overshoot `COORD_LIMIT` by at most one frame's displacement
/// before the host is told to stop.
pub const COORD_SLACK_LIMIT: i64 = COORD_LIMIT + STEP_LIMIT;

} // verus!
