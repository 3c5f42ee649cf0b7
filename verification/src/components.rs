//! Leaf component data attached to entities. Components carry no behavior;
//! the systems own all of it. Each component has a well-formedness spec
//! function that constructors establish and every system preserves.

use vstd::prelude::*;
use crate::{
    POS_WF_LIMIT_MILLI, MARINE_MAX_VELOCITY_MILLI, MAX_FALL_SPEED_MILLI, JUMP_SPEED_MILLI,
    BULLET_SPEED_MILLI, HALF_EXTENT_LIMIT_MILLI,
};

verus! {

/// Which way the marine looks; bullets leave the muzzle on this side.
#[derive(Clone, Copy, PartialEq, Eq, Structural, Debug)]
pub enum Facing {
    Left,
    Right,
}

/// 2D position in milliunits plus a depth layer for the renderer.
#[derive(Clone, Copy, PartialEq, Eq, Structural, Debug)]
pub struct Transform {
    pub x: i64,
    pub y: i64,
    pub layer: i64,
}

/// Position coordinates stay within the playfield bound plus snapping slack.
pub open spec fn transform_wf(t: Transform) -> bool {
    &&& -POS_WF_LIMIT_MILLI <= t.x <= POS_WF_LIMIT_MILLI
    &&& -POS_WF_LIMIT_MILLI <= t.y <= POS_WF_LIMIT_MILLI
}

/// Current velocity in milliunits per second; y grows upward.
#[derive(Clone, Copy, PartialEq, Eq, Structural, Debug)]
pub struct Velocity {
    pub vx: i64,
    pub vy: i64,
}

/// Marine velocity after a frame: horizontal speed clamped, vertical speed
/// between the terminal fall speed and the jump speed.
pub open spec fn marine_velocity_wf(v: Velocity) -> bool {
    &&& -MARINE_MAX_VELOCITY_MILLI <= v.vx <= MARINE_MAX_VELOCITY_MILLI
    &&& -MAX_FALL_SPEED_MILLI <= v.vy <= JUMP_SPEED_MILLI
}

/// Horizontal acceleration input set from the pressed directions,
/// milliunits per second squared.
#[derive(Clone, Copy, PartialEq, Eq, Structural, Debug)]
pub struct Acceleration {
    pub ax: i64,
}

/// Facing, combat sub-state with its timer, and the grounded flag the
/// collision system writes for the animation system.
#[derive(Clone, Copy, PartialEq, Eq, Structural, Debug)]
pub struct MarineState {
    pub facing: Facing,
    pub attacking: bool,
    pub attack_timer_ms: u32,
    pub grounded: bool,
}

/// Time until the next shot is permitted; never negative by construction.
#[derive(Clone, Copy, PartialEq, Eq, Structural, Debug)]
pub struct AttackCooldown {
    pub remaining_ms: u32,
}

/// Bullet flight data. `spent` is terminal: once set it is never cleared
/// and the bullet is collision-inert from then on.
#[derive(Clone, Copy, PartialEq, Eq, Structural, Debug)]
pub struct BulletState {
    pub vx: i64,
    pub vy: i64,
    pub lifetime_ms: u32,
    pub damage: u32,
    pub spent: bool,
}

/// Bullet speed stays within the configured flight speed on each axis.
pub open spec fn bullet_state_wf(s: BulletState) -> bool {
    &&& -BULLET_SPEED_MILLI <= s.vx <= BULLET_SPEED_MILLI
    &&& -BULLET_SPEED_MILLI <= s.vy <= BULLET_SPEED_MILLI
}

/// Axis-aligned half-extents of the collision box, centered on Transform.
#[derive(Clone, Copy, PartialEq, Eq, Structural, Debug)]
pub struct CollisionBounds {
    pub half_x: i64,
    pub half_y: i64,
}

pub open spec fn bounds_wf(b: CollisionBounds) -> bool {
    &&& 0 < b.half_x <= HALF_EXTENT_LIMIT_MILLI
    &&& 0 < b.half_y <= HALF_EXTENT_LIMIT_MILLI
}

/// The named animation tracks; the renderer maps (track, frame) to a
/// sprite cell from its own asset table.
#[derive(Clone, Copy, PartialEq, Eq, Structural, Debug)]
pub enum TrackId {
    MarineIdle,
    MarineWalk,
    MarineAttack,
    MarineFall,
    BulletFly,
    BulletImpact,
}

/// Active track with the current frame, the time spent on it, and the
/// track's fixed shape (frame count, per-frame duration, loop flag).
#[derive(Clone, Copy, PartialEq, Eq, Structural, Debug)]
pub struct AnimationTrack {
    pub track: TrackId,
    pub frame: u32,
    pub timer_ms: u32,
    pub frame_count: u32,
    pub frame_ms: u32,
    pub looping: bool,
}

/// The frame index is always inside the track and the timer inside the
/// current frame's duration.
pub open spec fn track_wf(t: AnimationTrack) -> bool {
    &&& 0 < t.frame_count
    &&& 0 < t.frame_ms
    &&& t.frame < t.frame_count
    &&& t.timer_ms < t.frame_ms
}

/// The fixed shape of each named track: frame count, per-frame duration in
/// milliseconds, and whether it loops or plays once.
pub open spec fn track_shape_spec(id: TrackId) -> (u32, u32, bool) {
    match id {
        TrackId::MarineIdle => (4, 150, true),
        TrackId::MarineWalk => (6, 100, true),
        TrackId::MarineAttack => (4, 60, true),
        TrackId::MarineFall => (2, 150, true),
        TrackId::BulletFly => (2, 80, true),
        TrackId::BulletImpact => (4, 70, false),
    }
}

/// A track freshly switched to `id`: frame 0, timer 0, the track's shape.
pub open spec fn fresh_track_spec(id: TrackId) -> AnimationTrack {
    AnimationTrack {
        track: id,
        frame: 0,
        timer_ms: 0,
        frame_count: track_shape_spec(id).0,
        frame_ms: track_shape_spec(id).1,
        looping: track_shape_spec(id).2,
    }
}

/// Starts the named track at its first frame.
pub fn fresh_track(id: TrackId) -> (r: AnimationTrack)
    ensures
        r == fresh_track_spec(id),
        track_wf(r),
{
    let (frame_count, frame_ms, looping): (u32, u32, bool) = match id {
        TrackId::MarineIdle => (4, 150, true),
        TrackId::MarineWalk => (6, 100, true),
        TrackId::MarineAttack => (4, 60, true),
        TrackId::MarineFall => (2, 150, true),
        TrackId::BulletFly => (2, 80, true),
        TrackId::BulletImpact => (4, 70, false),
    };
    AnimationTrack { track: id, frame: 0, timer_ms: 0, frame_count, frame_ms, looping }
}

} // verus!
