//! Entity bundles: an entity is the set of components it carries, under an
//! integer identifier. An entity is a bullet exactly because it carries
//! BulletState; systems select by component set, not by a type tag.

use vstd::prelude::*;
use crate::components::{
    Transform, Velocity, Acceleration, MarineState, AttackCooldown, BulletState, CollisionBounds,
    AnimationTrack, transform_wf, marine_velocity_wf, bullet_state_wf, bounds_wf, track_wf,
};

verus! {

/// A player-controlled unit: the only entity kind that is accelerated.
#[derive(Clone, Copy, PartialEq, Eq, Structural, Debug)]
pub struct Marine {
    pub id: u64,
    pub transform: Transform,
    pub velocity: Velocity,
    pub accel: Acceleration,
    pub state: MarineState,
    pub cooldown: AttackCooldown,
    pub bounds: CollisionBounds,
    pub anim: AnimationTrack,
}

pub open spec fn marine_wf(m: Marine) -> bool {
    &&& transform_wf(m.transform)
    &&& marine_velocity_wf(m.velocity)
    &&& bounds_wf(m.bounds)
    &&& track_wf(m.anim)
}

/// A projectile: translated by its fixed velocity, never accelerated.
#[derive(Clone, Copy, PartialEq, Eq, Structural, Debug)]
pub struct Bullet {
    pub id: u64,
    pub owner: u64,
    pub transform: Transform,
    pub state: BulletState,
    pub bounds: CollisionBounds,
    pub anim: AnimationTrack,
}

pub open spec fn bullet_wf(b: Bullet) -> bool {
    &&& transform_wf(b.transform)
    &&& bullet_state_wf(b.state)
    &&& bounds_wf(b.bounds)
    &&& track_wf(b.anim)
}

} // verus!
