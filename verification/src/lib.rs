//! Core simulation of a 2D toroidal-arena arcade game: a player ship turns,
//! thrusts and fires missiles at drifting asteroids inside a square arena
//! whose edges wrap around.
//!
//! All geometry is fixed point. Positions and velocities are `i64` values in
//! milli-units (one arena unit = 1000 milli-units); angles are `i64` values in
//! millidegrees (a full turn = 360_000). Time is measured in milliseconds.
//! Trigonometry is an integer rational approximation (see `trig`), so every
//! step of the simulation is deterministic and free of floating point.

use vstd::prelude::*;

pub mod asteroid;
pub mod game;
pub mod missile;
pub mod player;
pub mod rng;
pub mod smoke;
pub mod trig;

verus! {

/// Arena side length, in arena units.
pub const WIDTH: u32 = 1000;

/// Milli-units per arena unit: the fixed-point scale of all coordinates.
pub const SCALE: i64 = 1000;

/// Arena side length in milli-units; positions live in `[0, ARENA]`.
pub const ARENA: i64 = 1_000_000;

/// Frame budget of a smoke particle: culled once its age exceeds this.
pub const SMOKE_FRAMES: u32 = 50;

/// Forward acceleration of the ship, in arena units per second squared.
pub const ACCEL: i64 = 70;

/// Cap on each velocity component of the ship, in milli-units per second.
pub const SPEED_LIMIT: i64 = 100_000;

/// Turn rate of the ship: 150 degrees per second, which is exactly
/// 150 millidegrees per millisecond.
pub const TURN_SPEED_LIMIT: i64 = 150;

/// Ship size, in milli-units: length of the ship polygon's arms and the
/// diameter used in the collision test.
pub const SHIP_SIZE: i64 = 15_000;

/// Launch speed a missile gains along the ship's bearing, in arena units
/// per second.
pub const MISSILE_SPEED: i64 = 300;

/// Fire cooldown, in milliseconds: a missile launches only when strictly
/// more than this has elapsed since the previous launch.
pub const MISSILE_FIRE_EVERY: u64 = 300;

/// Base radius of the smoke scatter per frame of age, in milli-units.
pub const SMOKE_SIZE: i64 = 1_000;

/// Smallest asteroid radius, in milli-units.
pub const ASTEROID_SIZE_MIN: i64 = 20_000;

/// Largest asteroid radius, in milli-units.
pub const ASTEROID_SIZE_MAX: i64 = 50_000;

/// Number of vertices (and radius perturbations) of an asteroid polygon.
pub const ASTEROID_NUM_POINTS: usize = 20;

/// Amplitude bound of an asteroid's per-vertex radius perturbation,
/// in milli-units.
pub const ASTEROID_PERT_SIZE: i64 = 5_000;

/// Number of asteroids spawned when a game starts.
pub const ASTEROID_COUNT: usize = 10;

/// Upper bound on the elapsed time handed to one tick, in milliseconds,
/// so that all fixed-point products fit in `i64`.
pub const MAX_DELTA_MS: u64 = 1_000_000;

/// A point of draw geometry, in milli-units. The render collaborator
/// receives polygons, segments and scatters as sequences of these.
#[derive(Clone, Copy, Debug, PartialEq, Eq, Structural)]
pub struct Point {
    /// x coordinate, milli-units.
    pub x: i64,
    /// y coordinate, milli-units.
    pub y: i64,
}

} // verus!
