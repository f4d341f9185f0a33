//! Bouncing-rectangle simulation and its flat vertex-buffer encoding.
//!
//! Every length (positions, sizes, velocities, canvas bounds) is a fixed-point
//! integer counted in `1 / UNITS_PER_PIXEL` of a pixel. Randomness enters as
//! uniform `u32` draws supplied by the caller, each standing for the fraction
//! `draw / 2^32` of the unit interval.
use vstd::prelude::*;

pub mod animation;
pub mod config;
pub mod encoder;
pub mod shapes;

verus! {

/// Sub-pixel resolution of every length in the simulation.
pub const UNITS_PER_PIXEL: i64 = 256;

/// Smallest generated width or height (10 px).
pub const MIN_SIZE: i64 = 10 * UNITS_PER_PIXEL;

/// Width of the range that generated sizes are drawn from (50 px).
pub const SIZE_SPAN: i64 = 50 * UNITS_PER_PIXEL;

/// Exclusive upper bound of generated sizes (60 px).
pub const MAX_SIZE: i64 = MIN_SIZE + SIZE_SPAN;

/// Generated velocity components lie in `[-MAX_SPEED, MAX_SPEED)` (2 px per tick).
pub const MAX_SPEED: i64 = 2 * UNITS_PER_PIXEL;

/// Largest canvas extent the integer model admits (2^40 units).
pub const MAX_CANVAS: i64 = 1099511627776;

/// Bound on the magnitude of any position (2^42 units).
pub const POSITION_LIMIT: i64 = 4 * MAX_CANVAS;

/// Number of distinct values of one draw.
pub const DRAW_RANGE: i128 = 4294967296;

} // verus!
