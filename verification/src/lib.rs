//! Per-frame gameplay simulation of a 2D side-view action game: marine
//! movement, bullet spawning and flight, collision against static terrain,
//! animation track selection, and camera follow.
//!
//! All quantities are fixed-point integers: positions and velocities in
//! milliunits (1 world unit = 1000), time in milliseconds. The host layer
//! (window, renderer, asset loading) lives outside this crate and feeds each
//! frame an input snapshot and an elapsed time; it consumes the updated
//! transforms and animation tracks.

use vstd::prelude::*;

pub mod math;
pub mod input;
pub mod components;
pub mod geometry;
pub mod entities;
pub mod animation;
pub mod marine;
pub mod combat;
pub mod camera;
pub mod world;

verus! {

/// Horizontal marine speed cap, milliunits per second (6.0 units/s).
pub const MARINE_MAX_VELOCITY_MILLI: i64 = 6000;

/// Horizontal acceleration applied while a direction is held, milliunits/s^2.
pub const MARINE_ACCEL_MILLI: i64 = 12000;

/// Deceleration toward zero when no direction is held, milliunits/s^2.
pub const MARINE_FRICTION_MILLI: i64 = 12000;

/// Downward gravity, milliunits/s^2.
pub const GRAVITY_MILLI: i64 = 20000;

/// Terminal fall speed cap, milliunits per second.
pub const MAX_FALL_SPEED_MILLI: i64 = 20000;

/// Upward speed granted by a jump, milliunits per second.
pub const JUMP_SPEED_MILLI: i64 = 10000;

/// Playfield bound: integration clamps positions into this range.
pub const POS_LIMIT_MILLI: i64 = 1_000_000_000;

/// Largest collision half-extent a component may carry.
pub const HALF_EXTENT_LIMIT_MILLI: i64 = 1_000_000;

/// Well-formedness bound on any position coordinate: the playfield bound
/// plus the slack that collision snapping and the muzzle offset may add.
pub const POS_WF_LIMIT_MILLI: i64 = 1_002_000_000;

/// Bullet flight speed, milliunits per second.
pub const BULLET_SPEED_MILLI: i64 = 15000;

/// Damage one bullet delivers to the marine it strikes.
pub const BULLET_DAMAGE: u32 = 25;

/// Bullet flight time before it expires, milliseconds.
pub const BULLET_LIFETIME_MS: u32 = 2000;

/// Minimum time between two shots, milliseconds.
pub const FIRE_INTERVAL_MS: u32 = 300;

/// How long the attack pose is shown after the fire action, milliseconds.
pub const ATTACK_POSE_MS: u32 = 250;

/// Horizontal muzzle offset from the marine's center, milliunits.
pub const MUZZLE_OFFSET_X_MILLI: i64 = 700;

/// Vertical muzzle offset from the marine's center, milliunits.
pub const MUZZLE_OFFSET_Y_MILLI: i64 = 100;

/// Bullet collision half-extents, milliunits.
pub const BULLET_HALF_X_MILLI: i64 = 100;
pub const BULLET_HALF_Y_MILLI: i64 = 100;

/// Camera smoothing rate per second: each frame the camera covers the
/// fraction min(rate * dt_ms, 1000) / 1000 of the distance to its target,
/// so it never overshoots however large the frame time.
pub const CAMERA_SMOOTHING_PER_S: i64 = 5;

} // verus!
