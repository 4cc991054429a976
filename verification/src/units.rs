//! Fixed-point units and the physical constants of the arena.
//!
//! The simulation is exact integer arithmetic. Time is counted in whole
//! milliseconds, velocities in hundredths of a pixel per second and positions
//! in hundred-thousandths of a pixel, so that a velocity multiplied by an
//! elapsed time is a displacement with nothing to round:
//! `1/100 px/s * 1/1000 s = 1/100_000 px`.
//!
//! Motion is scaled by the time that a tick takes: gravity changes the
//! velocity in proportion to the elapsed time, and a fighter covers the same
//! ground per second whatever the tick rate. A tick takes at most 65 535
//! milliseconds; within that bound no step of the simulation can overflow.

use vstd::prelude::*;

verus! {

/// Position units in one pixel.
pub const UNITS_PER_PIXEL: i32 = 100_000;

/// Longest tick the integrator accepts, in milliseconds: the whole range of
/// the tick type.
pub const MAX_TICK_MS: u16 = 65_535;

/// Change of vertical velocity per millisecond in the air
/// (-2450 px/s per second).
pub const GRAVITY: i64 = -245;

/// Vertical velocity given by a jump (1200 px/s).
pub const JUMP_VELOCITY: i64 = 120_000;

/// Horizontal running speed (500 px/s).
pub const HORIZ_VELOCITY: i64 = 50_000;

/// Left edge of the arena (-482 px).
pub const SCENE_MIN_X: i32 = -48_200_000;

/// Right edge of the arena (487 px).
pub const SCENE_MAX_X: i32 = 48_700_000;

/// Height of the arena floor (-211.2 px).
pub const GROUND_Y: i32 = -21_120_000;

/// Health of a fighter at the start of a match.
pub const MAX_HEALTH: u8 = 100;

/// Fastest fall a fighter can reach: the speed of a jump plus what gravity
/// adds during one tick of the longest duration.
pub const MAX_FALL_VELOCITY: i64 = 16_176_075;

/// Greatest height above its ground that a fighter can reach.
pub const MAX_HEIGHT: i64 = 135_490_847_145;

} // verus!
