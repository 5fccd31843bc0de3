//! Units and the constants of the game's rules.
use vstd::prelude::*;

verus! {

/// Sub-pixels in one pixel. Chosen so that every physical constant of the
/// game is a whole number of sub-pixels per step.
pub const SUBPIXELS_PER_PIXEL: i64 = 90_000;

/// Time units in one second.
pub const TIME_UNITS_PER_SECOND: u64 = 60_000;

/// Simulation steps per second.
pub const TPS: u64 = 60;

/// Length of one simulation step, in time units (1/60 s).
pub const TIMESTEP: u64 = 1_000;

/// Width of the rendered world: 1920 pixels.
pub const RESOLUTION_X: i64 = 1920 * SUBPIXELS_PER_PIXEL;

/// Height of the rendered world: 1080 pixels.
pub const RESOLUTION_Y: i64 = 1080 * SUBPIXELS_PER_PIXEL;

/// Length of a full day/night cycle: 60 seconds.
pub const DAY_NIGHT_CYCLE_TIME: u64 = 60 * TIME_UNITS_PER_SECOND;

/// Obstacles move this many times the player's speed each step.
pub const PLAYER_SPEED_TO_OBSTACLE_SPEED: i64 = 34;

/// Forward speed of a fresh player: 0.14 pixels per step.
pub const DEFAULT_PLAYER_SPEED: i64 = 12_600;

/// Forward speed gained each step: 0.0001 pixels per step.
pub const SPEED_INCREMENT: i64 = 9;

/// The largest forward speed the fixed-point model represents.
pub const MAX_PLAYER_SPEED: i64 = 0x100_0000_0000;

/// Pull of gravity: 50 pixels per second squared, as sub-pixels per step squared.
pub const GRAVITY: i64 = 1_250;

/// Upward impulse of a jump: 350 pixels per second, as sub-pixels per step.
pub const JUMP_FORCE: i64 = 525_000;

/// Height above the ground at which a jump starts: 0.1 pixels.
pub const JUMP_LIFT: i64 = 9_000;

/// Jumping is disabled while the round is not older than this: 0.1 seconds.
pub const JUMP_GRACE_TIME: u64 = 6_000;

/// Bound on every coordinate and size handed to the library.
pub const MAX_EXTENT: i64 = 0x100_0000_0000;

/// A probability of one.
pub const CHANCE_SCALE: u64 = 10_000;

/// A frame longer than this (one second) pauses the game instead of simulating.
pub const MAX_FRAME_TIME: u64 = TIME_UNITS_PER_SECOND;

} // verus!
