//! The entity/component store and the frame tick: one table of marines,
//! one of bullets, the static terrain, and the camera. Systems run in the
//! dependency order of the design — acceleration, attack, bullet
//! collision, marine collision, bullet flight animation, bullet impact
//! animation, marine animation, camera — and entity creation and removal
//! happen only at system barriers, never mid-iteration.

use vstd::prelude::*;
use crate::POS_WF_LIMIT_MILLI;
use crate::input::InputState;
use crate::components::{
    Transform, Velocity, Acceleration, MarineState, AttackCooldown, CollisionBounds, Facing,
    TrackId, bounds_wf, fresh_track, fresh_track_spec,
};
use crate::entities::{Marine, Bullet, marine_wf, bullet_wf};
use crate::geometry::{Rect, rect_wf};
use crate::marine::{
    accel_rel, collision_rel, marine_acceleration_step, marine_collision_step,
};
use crate::combat::{collision_outcome_spec, collision_post_spec};
use crate::animation::{impact_finished_spec, impact_post_spec};
use crate::animation::{
    marine_anim_rel, bullet_anim_rel, impact_anim_rel, select_track_spec, marine_animation_step,
    bullet_animation_step, impact_animation_step,
};
use crate::combat::{
    BulletOutcome, spawned_bullet_spec, collision_step_rel, attack_step,
    bullet_collision_step,
};
use crate::camera::{camera_move_spec, camera_move_coord};

verus! {

/// The camera's own position and the entity it follows. The target is a
/// non-owning reference: if no marine carries that id the camera holds its
/// last position.
#[derive(Clone, Copy, PartialEq, Eq, Structural, Debug)]
pub struct Camera {
    pub x: i64,
    pub y: i64,
    pub target: Option<u64>,
}

/// Damage owed to a marine, reported to the host's combat-effect hook;
/// this core decides the hits but does not own their effect.
#[derive(Clone, Copy, PartialEq, Eq, Structural, Debug)]
pub struct DamageEvent {
    pub bullet: u64,
    pub target: u64,
    pub amount: u32,
}

/// The simulation state: component tables keyed by position in their
/// table, entity ids issued from a single counter.
pub struct World {
    pub marines: Vec<Marine>,
    pub bullets: Vec<Bullet>,
    pub terrain: Vec<Rect>,
    pub camera: Camera,
    pub next_id: u64,
}

/// Every entity well formed, every issued id below the counter, bullet
/// ids pairwise distinct, the camera inside the well-formed range.
pub open spec fn world_wf(w: World) -> bool {
    &&& forall|i: int| 0 <= i < w.marines@.len() ==> marine_wf(#[trigger] w.marines@[i])
    &&& forall|i: int| 0 <= i < w.bullets@.len() ==> bullet_wf(#[trigger] w.bullets@[i])
    &&& forall|i: int| 0 <= i < w.terrain@.len() ==> rect_wf(#[trigger] w.terrain@[i])
    &&& forall|i: int| 0 <= i < w.marines@.len() ==> (#[trigger] w.marines@[i]).id < w.next_id
    &&& forall|i: int| 0 <= i < w.bullets@.len() ==> (#[trigger] w.bullets@[i]).id < w.next_id
    &&& forall|i: int, j: int|
        0 <= i < j < w.bullets@.len() ==> (#[trigger] w.bullets@[i]).id != (
        #[trigger] w.bullets@[j]).id
    &&& -POS_WF_LIMIT_MILLI <= w.camera.x <= POS_WF_LIMIT_MILLI
    &&& -POS_WF_LIMIT_MILLI <= w.camera.y <= POS_WF_LIMIT_MILLI
}


/// The marine-side effect of AttackSystem on one marine, apart from what
/// it spawned: cooldown gating, pose timer, everything else untouched.
pub open spec fn attack_marine_rel(pre: Marine, post: Marine, fire: bool, dt: int) -> bool {
    &&& post.id == pre.id
    &&& post.transform == pre.transform
    &&& post.velocity == pre.velocity
    &&& post.accel == pre.accel
    &&& post.bounds == pre.bounds
    &&& post.anim == pre.anim
    &&& post.state.facing == pre.state.facing
    &&& post.state.grounded == pre.state.grounded
    &&& (fire && pre.cooldown.remaining_ms == 0 ==> post.cooldown.remaining_ms
        == crate::FIRE_INTERVAL_MS)
    &&& (!(fire && pre.cooldown.remaining_ms == 0) ==> post.cooldown.remaining_ms
        == crate::math::sat_sub_spec(pre.cooldown.remaining_ms as int, dt))
    &&& (fire ==> post.state.attacking && post.state.attack_timer_ms == crate::ATTACK_POSE_MS)
    &&& (!fire ==> {
        &&& post.state.attack_timer_ms == crate::math::sat_sub_spec(
            pre.state.attack_timer_ms as int,
            dt,
        )
        &&& post.state.attacking == (pre.state.attacking && post.state.attack_timer_ms > 0)
    })
}

/// How many of the first `i` marines fire a bullet this frame: those whose
/// cooldown reached zero while the fire action is pressed.
pub open spec fn spawn_count(marines: Seq<Marine>, fire: bool, i: int) -> int
    decreases i,
{
    if i <= 0 {
        0
    } else {
        spawn_count(marines, fire, i - 1) + (if fire && marines[i - 1].cooldown.remaining_ms == 0 {
            1int
        } else {
            0int
        })
    }
}


/// `nb` is what the collision step made of one of the bullets in `olds`,
/// under an outcome that did not expire it.
pub open spec fn from_collision(
    olds: Seq<Bullet>,
    terrain: Seq<Rect>,
    marines: Seq<Marine>,
    dt: int,
    nb: Bullet,
) -> bool {
    exists|i: int, o: BulletOutcome|
        0 <= i < olds.len() && #[trigger] collision_step_rel(olds[i], nb, o, terrain, marines, dt)
            && !(o matches BulletOutcome::Expired)
}

/// `nb` is what the impact-animation step made of one of the bullets in
/// `olds`, not yet finished.
pub open spec fn from_impact(olds: Seq<Bullet>, dt: int, nb: Bullet) -> bool {
    exists|i: int| 0 <= i < olds.len() && #[trigger] impact_anim_rel(olds[i], nb, false, dt)
}

/// `ev` reports a hit by one of the bullets in `olds`, then unspent, on
/// one of the marines, with that bullet's damage.
pub open spec fn event_from(olds: Seq<Bullet>, marines: Seq<Marine>, ev: DamageEvent) -> bool {
    exists|i: int, mi: int|
        0 <= i < olds.len() && 0 <= mi < marines.len() && ev.bullet == (#[trigger] olds[i]).id
            && ev.target == (#[trigger] marines[mi]).id && ev.amount == olds[i].state.damage
            && !olds[i].state.spent
}

/// `nb` carries the id of a bullet in `olds` and, if that bullet was
/// already spent, is still spent.
pub open spec fn descended_spent(olds: Seq<Bullet>, nb: Bullet) -> bool {
    exists|i: int|
        0 <= i < olds.len() && (#[trigger] olds[i]).id == nb.id && (olds[i].state.spent
            ==> nb.state.spent)
}


/// The bullets a marine table spawns this frame, in marine order: one per
/// marine whose cooldown is at zero while fire is pressed, ids issued in
/// sequence from `base`.
pub open spec fn spawned_upto(marines: Seq<Marine>, fire: bool, base: int, i: int) -> Seq<Bullet>
    decreases i,
{
    if i <= 0 {
        Seq::empty()
    } else {
        let prev = spawned_upto(marines, fire, base, i - 1);
        if fire && marines[i - 1].cooldown.remaining_ms == 0 {
            prev.push(spawned_bullet_spec(marines[i - 1], (base + prev.len()) as u64))
        } else {
            prev
        }
    }
}

/// The bullets that survive the collision pass over the first `i` old
/// bullets: each one stepped to its post-state, kept in order, except
/// those whose lifetime expired.
pub open spec fn surviving_upto(
    olds: Seq<Bullet>,
    terrain: Seq<Rect>,
    marines: Seq<Marine>,
    dt: int,
    i: int,
) -> Seq<Bullet>
    decreases i,
{
    if i <= 0 {
        Seq::empty()
    } else {
        let prev = surviving_upto(olds, terrain, marines, dt, i - 1);
        if (collision_outcome_spec(olds[i - 1], terrain, marines, dt) matches
        BulletOutcome::Expired) {
            prev
        } else {
            prev.push(collision_post_spec(olds[i - 1], terrain, marines, dt))
        }
    }
}

/// The damage events the collision pass reports over the first `i` old
/// bullets: exactly one per bullet whose outcome names a marine, in
/// order, carrying that bullet's id and damage and the struck marine's id.
pub open spec fn events_upto(
    olds: Seq<Bullet>,
    terrain: Seq<Rect>,
    marines: Seq<Marine>,
    dt: int,
    i: int,
) -> Seq<DamageEvent>
    decreases i,
{
    if i <= 0 {
        Seq::empty()
    } else {
        let prev = events_upto(olds, terrain, marines, dt, i - 1);
        match collision_outcome_spec(olds[i - 1], terrain, marines, dt) {
            BulletOutcome::HitMarine { marine } => prev.push(
                DamageEvent {
                    bullet: olds[i - 1].id,
                    target: marines[marine as int].id,
                    amount: olds[i - 1].state.damage,
                },
            ),
            _ => prev,
        }
    }
}

/// The bullets that survive the impact pass over the first `i` old
/// bullets: each advanced, kept in order, except those whose one-shot
/// impact track finished this frame.
pub open spec fn impact_surviving_upto(olds: Seq<Bullet>, dt: int, i: int) -> Seq<Bullet>
    decreases i,
{
    if i <= 0 {
        Seq::empty()
    } else {
        let prev = impact_surviving_upto(olds, dt, i - 1);
        if impact_finished_spec(olds[i - 1], dt) {
            prev
        } else {
            prev.push(impact_post_spec(olds[i - 1], dt))
        }
    }
}

/// MarineAccelerationSystem over a whole world, as a relation.
pub open spec fn accel_system_rel(pre: World, post: World, input: InputState, dt: int) -> bool {
    &&& post.marines@.len() == pre.marines@.len()
    &&& forall|i: int|
        0 <= i < pre.marines@.len() ==> accel_rel(
            pre.marines@[i],
            #[trigger] post.marines@[i],
            input,
            dt,
        )
    &&& post.bullets@ == pre.bullets@
    &&& post.terrain@ == pre.terrain@
    &&& post.camera == pre.camera
    &&& post.next_id == pre.next_id
}

/// AttackSystem over a whole world, as a relation: each marine's cooldown
/// and pose stepped, and exactly the spawned bullets appended in order.
pub open spec fn attack_system_rel(pre: World, post: World, fire: bool, dt: int) -> bool {
    &&& post.marines@.len() == pre.marines@.len()
    &&& forall|i: int|
        0 <= i < pre.marines@.len() ==> attack_marine_rel(
            pre.marines@[i],
            #[trigger] post.marines@[i],
            fire,
            dt,
        )
    &&& post.bullets@ == pre.bullets@ + spawned_upto(
        pre.marines@,
        fire,
        pre.next_id as int,
        pre.marines@.len() as int,
    )
    &&& post.next_id == pre.next_id + spawned_upto(
        pre.marines@,
        fire,
        pre.next_id as int,
        pre.marines@.len() as int,
    ).len()
    &&& post.terrain@ == pre.terrain@
    &&& post.camera == pre.camera
}

/// BulletCollisionSystem over a whole world, as a relation: the bullet
/// table becomes exactly the stepped survivors, the events exactly the
/// reported marine hits.
pub open spec fn collision_system_rel(
    pre: World,
    post: World,
    events: Seq<DamageEvent>,
    dt: int,
) -> bool {
    &&& post.bullets@ == surviving_upto(
        pre.bullets@,
        pre.terrain@,
        pre.marines@,
        dt,
        pre.bullets@.len() as int,
    )
    &&& events == events_upto(
        pre.bullets@,
        pre.terrain@,
        pre.marines@,
        dt,
        pre.bullets@.len() as int,
    )
    &&& post.marines@ == pre.marines@
    &&& post.terrain@ == pre.terrain@
    &&& post.camera == pre.camera
    &&& post.next_id == pre.next_id
}

/// MarineCollisionSystem over a whole world, as a relation.
pub open spec fn marine_collision_system_rel(pre: World, post: World, dt: int) -> bool {
    &&& post.marines@.len() == pre.marines@.len()
    &&& forall|i: int|
        0 <= i < pre.marines@.len() ==> collision_rel(
            pre.marines@[i],
            #[trigger] post.marines@[i],
            pre.terrain@,
            dt,
        )
    &&& post.bullets@ == pre.bullets@
    &&& post.terrain@ == pre.terrain@
    &&& post.camera == pre.camera
    &&& post.next_id == pre.next_id
}

/// BulletAnimationSystem over a whole world, as a relation.
pub open spec fn bullet_anim_system_rel(pre: World, post: World, dt: int) -> bool {
    &&& post.bullets@.len() == pre.bullets@.len()
    &&& forall|i: int|
        0 <= i < pre.bullets@.len() ==> bullet_anim_rel(
            pre.bullets@[i],
            #[trigger] post.bullets@[i],
            dt,
        )
    &&& post.marines@ == pre.marines@
    &&& post.terrain@ == pre.terrain@
    &&& post.camera == pre.camera
    &&& post.next_id == pre.next_id
}

/// BulletImpactAnimationSystem over a whole world, as a relation: the
/// bullet table becomes exactly the advanced not-yet-finished impacts and
/// the untouched rest — a bullet leaves only once its impact has played.
pub open spec fn impact_system_rel(pre: World, post: World, dt: int) -> bool {
    &&& post.bullets@ == impact_surviving_upto(pre.bullets@, dt, pre.bullets@.len() as int)
    &&& post.marines@ == pre.marines@
    &&& post.terrain@ == pre.terrain@
    &&& post.camera == pre.camera
    &&& post.next_id == pre.next_id
}

/// MarineAnimationSystem over a whole world, as a relation.
pub open spec fn marine_anim_system_rel(pre: World, post: World, dt: int) -> bool {
    &&& post.marines@.len() == pre.marines@.len()
    &&& forall|i: int|
        0 <= i < pre.marines@.len() ==> marine_anim_rel(
            pre.marines@[i],
            #[trigger] post.marines@[i],
            dt,
        )
    &&& post.bullets@ == pre.bullets@
    &&& post.terrain@ == pre.terrain@
    &&& post.camera == pre.camera
    &&& post.next_id == pre.next_id
}

/// CameraMotionSystem over a whole world, as a relation.
pub open spec fn camera_system_rel(pre: World, post: World, dt: int) -> bool {
    &&& post.marines@ == pre.marines@
    &&& post.bullets@ == pre.bullets@
    &&& post.terrain@ == pre.terrain@
    &&& post.next_id == pre.next_id
    &&& post.camera.target == pre.camera.target
    &&& match pre.camera.target {
        None => post.camera == pre.camera,
        Some(tid) => {
            &&& (exists|i: int|
                0 <= i < pre.marines@.len() && (#[trigger] pre.marines@[i]).id == tid)
                ==> exists|i: int|
                {
                    &&& 0 <= i < pre.marines@.len()
                    &&& (#[trigger] pre.marines@[i]).id == tid
                    &&& forall|j: int| 0 <= j < i ==> (#[trigger] pre.marines@[j]).id != tid
                    &&& post.camera.x == camera_move_spec(
                        pre.camera.x as int,
                        pre.marines@[i].transform.x as int,
                        dt,
                    )
                    &&& post.camera.y == camera_move_spec(
                        pre.camera.y as int,
                        pre.marines@[i].transform.y as int,
                        dt,
                    )
                }
            &&& !(exists|i: int|
                0 <= i < pre.marines@.len() && (#[trigger] pre.marines@[i]).id == tid)
                ==> post.camera == pre.camera
        },
    }
}

/// One whole frame, as a relation: the eight system relations chained
/// through the intermediate world states, in the design's order.
pub open spec fn frame_rel(
    pre: World,
    post: World,
    events: Seq<DamageEvent>,
    input: InputState,
    dt: int,
) -> bool {
    exists|mid: (World, World, World, World, World, World, World)|
        #[trigger] accel_system_rel(pre, mid.0, input, dt) && attack_system_rel(
            mid.0,
            mid.1,
            input.fire,
            dt,
        ) && collision_system_rel(mid.1, mid.2, events, dt) && marine_collision_system_rel(
            mid.2,
            mid.3,
            dt,
        ) && bullet_anim_system_rel(mid.3, mid.4, dt) && impact_system_rel(mid.4, mid.5, dt)
            && marine_anim_system_rel(mid.5, mid.6, dt) && camera_system_rel(mid.6, post, dt)
}

impl World {
    /// An empty scene: no entities, camera at the origin with no target.
    pub fn new() -> (w: World)
        ensures
            world_wf(w),
            w.marines@.len() == 0,
            w.bullets@.len() == 0,
            w.terrain@.len() == 0,
            w.camera == (Camera { x: 0, y: 0, target: None }),
            w.next_id == 0,
    {
        World {
            marines: Vec::new(),
            bullets: Vec::new(),
            terrain: Vec::new(),
            camera: Camera { x: 0, y: 0, target: None },
            next_id: 0,
        }
    }

    /// Adds one static terrain rectangle; terrain is loaded once at scene
    /// setup and never changes during play.
    pub fn add_terrain(&mut self, r: Rect)
        requires
            world_wf(*old(self)),
            rect_wf(r),
        ensures
            world_wf(*final(self)),
            final(self).terrain@ == old(self).terrain@.push(r),
            final(self).marines == old(self).marines,
            final(self).bullets == old(self).bullets,
            final(self).camera == old(self).camera,
            final(self).next_id == old(self).next_id,
    {
        self.terrain.push(r);
    }

    /// Creates a marine at rest at the given position, grounded flag
    /// clear, idle animation, weapon ready. Returns its entity id.
    pub fn spawn_marine(&mut self, x: i64, y: i64, layer: i64, half_x: i64, half_y: i64) -> (id:
        u64)
        requires
            world_wf(*old(self)),
            -POS_WF_LIMIT_MILLI <= x <= POS_WF_LIMIT_MILLI,
            -POS_WF_LIMIT_MILLI <= y <= POS_WF_LIMIT_MILLI,
            bounds_wf(CollisionBounds { half_x, half_y }),
            old(self).next_id < u64::MAX,
        ensures
            world_wf(*final(self)),
            id == old(self).next_id,
            final(self).next_id == old(self).next_id + 1,
            final(self).marines@.len() == old(self).marines@.len() + 1,
            final(self).marines@.last() == (Marine {
                id,
                transform: Transform { x, y, layer },
                velocity: Velocity { vx: 0, vy: 0 },
                accel: Acceleration { ax: 0 },
                state: MarineState {
                    facing: Facing::Right,
                    attacking: false,
                    attack_timer_ms: 0,
                    grounded: false,
                },
                cooldown: AttackCooldown { remaining_ms: 0 },
                bounds: CollisionBounds { half_x, half_y },
                anim: fresh_track_spec(TrackId::MarineIdle),
            }),
            forall|i: int|
                0 <= i < old(self).marines@.len() ==> final(self).marines@[i] == old(
                    self,
                ).marines@[i],
            final(self).bullets == old(self).bullets,
            final(self).terrain == old(self).terrain,
            final(self).camera == old(self).camera,
    {
        let id = self.next_id;
        let m = Marine {
            id,
            transform: Transform { x, y, layer },
            velocity: Velocity { vx: 0, vy: 0 },
            accel: Acceleration { ax: 0 },
            state: MarineState {
                facing: Facing::Right,
                attacking: false,
                attack_timer_ms: 0,
                grounded: false,
            },
            cooldown: AttackCooldown { remaining_ms: 0 },
            bounds: CollisionBounds { half_x, half_y },
            anim: fresh_track(TrackId::MarineIdle),
        };
        self.marines.push(m);
        self.next_id = self.next_id + 1;
        id
    }

    /// Points the camera at an entity, or at nothing.
    pub fn set_camera_target(&mut self, target: Option<u64>)
        requires
            world_wf(*old(self)),
        ensures
            world_wf(*final(self)),
            final(self).camera.target == target,
            final(self).camera.x == old(self).camera.x,
            final(self).camera.y == old(self).camera.y,
            final(self).marines == old(self).marines,
            final(self).bullets == old(self).bullets,
            final(self).terrain == old(self).terrain,
            final(self).next_id == old(self).next_id,
    {
        self.camera.target = target;
    }

    /// MarineAccelerationSystem over the whole marine table.
    pub fn marine_acceleration_system(&mut self, input: &InputState, dt_ms: u32)
        requires
            world_wf(*old(self)),
        ensures
            world_wf(*final(self)),
            final(self).marines@.len() == old(self).marines@.len(),
            forall|i: int|
                0 <= i < old(self).marines@.len() ==> accel_rel(
                    old(self).marines@[i],
                    #[trigger] final(self).marines@[i],
                    *input,
                    dt_ms as int,
                ),
            final(self).bullets == old(self).bullets,
            final(self).terrain == old(self).terrain,
            final(self).camera == old(self).camera,
            final(self).next_id == old(self).next_id,
            accel_system_rel(*old(self), *final(self), *input, dt_ms as int),
    {
        let n = self.marines.len();
        let mut i: usize = 0;
        while i < n
            invariant
                n == self.marines@.len(),
                0 <= i <= n,
                self.marines@.len() == old(self).marines@.len(),
                forall|j: int| 0 <= j < n ==> marine_wf(#[trigger] self.marines@[j]),
                forall|j: int|
                    0 <= j < i ==> accel_rel(
                        old(self).marines@[j],
                        #[trigger] self.marines@[j],
                        *input,
                        dt_ms as int,
                    ),
                forall|j: int| i <= j < n ==> self.marines@[j] == old(self).marines@[j],
                self.bullets == old(self).bullets,
                self.terrain == old(self).terrain,
                self.camera == old(self).camera,
                self.next_id == old(self).next_id,
                world_wf(*old(self)),
            decreases n - i,
        {
            marine_acceleration_step(&mut self.marines[i], input, dt_ms);
            i = i + 1;
        }
        proof {
            assert forall|j: int| 0 <= j < self.marines@.len() implies (
            #[trigger] self.marines@[j]).id < self.next_id by {
                assert(accel_rel(old(self).marines@[j], self.marines@[j], *input, dt_ms as int));
            }
        }
    }

    /// MarineCollisionSystem over the whole marine table.
    pub fn marine_collision_system(&mut self, dt_ms: u32)
        requires
            world_wf(*old(self)),
        ensures
            world_wf(*final(self)),
            final(self).marines@.len() == old(self).marines@.len(),
            forall|i: int|
                0 <= i < old(self).marines@.len() ==> collision_rel(
                    old(self).marines@[i],
                    #[trigger] final(self).marines@[i],
                    old(self).terrain@,
                    dt_ms as int,
                ),
            final(self).bullets == old(self).bullets,
            final(self).terrain == old(self).terrain,
            final(self).camera == old(self).camera,
            final(self).next_id == old(self).next_id,
            marine_collision_system_rel(*old(self), *final(self), dt_ms as int),
    {
        let n = self.marines.len();
        let mut i: usize = 0;
        while i < n
            invariant
                n == self.marines@.len(),
                0 <= i <= n,
                self.marines@.len() == old(self).marines@.len(),
                forall|j: int| 0 <= j < n ==> marine_wf(#[trigger] self.marines@[j]),
                forall|j: int|
                    0 <= j < i ==> collision_rel(
                        old(self).marines@[j],
                        #[trigger] self.marines@[j],
                        old(self).terrain@,
                        dt_ms as int,
                    ),
                forall|j: int| i <= j < n ==> self.marines@[j] == old(self).marines@[j],
                self.bullets == old(self).bullets,
                self.terrain == old(self).terrain,
                self.camera == old(self).camera,
                self.next_id == old(self).next_id,
                world_wf(*old(self)),
            decreases n - i,
        {
            let terrain = &self.terrain;
            marine_collision_step(&mut self.marines[i], terrain, dt_ms);
            i = i + 1;
        }
        proof {
            assert forall|j: int| 0 <= j < self.marines@.len() implies (
            #[trigger] self.marines@[j]).id < self.next_id by {
                assert(collision_rel(
                    old(self).marines@[j],
                    self.marines@[j],
                    old(self).terrain@,
                    dt_ms as int,
                ));
            }
        }
    }

    /// MarineAnimationSystem over the whole marine table. Downstream of
    /// marine collision: it reads the grounded flag written there.
    pub fn marine_animation_system(&mut self, dt_ms: u32)
        requires
            world_wf(*old(self)),
        ensures
            world_wf(*final(self)),
            final(self).marines@.len() == old(self).marines@.len(),
            forall|i: int|
                0 <= i < old(self).marines@.len() ==> marine_anim_rel(
                    old(self).marines@[i],
                    #[trigger] final(self).marines@[i],
                    dt_ms as int,
                ),
            forall|i: int|
                0 <= i < old(self).marines@.len() ==> (#[trigger] final(self).marines@[i]).anim.track
                    == select_track_spec(
                    old(self).marines@[i].state.attacking,
                    old(self).marines@[i].state.grounded,
                    old(self).marines@[i].velocity.vx as int,
                ),
            final(self).bullets == old(self).bullets,
            final(self).terrain == old(self).terrain,
            final(self).camera == old(self).camera,
            final(self).next_id == old(self).next_id,
            marine_anim_system_rel(*old(self), *final(self), dt_ms as int),
    {
        let n = self.marines.len();
        let mut i: usize = 0;
        while i < n
            invariant
                n == self.marines@.len(),
                0 <= i <= n,
                self.marines@.len() == old(self).marines@.len(),
                forall|j: int| 0 <= j < n ==> marine_wf(#[trigger] self.marines@[j]),
                forall|j: int|
                    0 <= j < i ==> marine_anim_rel(
                        old(self).marines@[j],
                        #[trigger] self.marines@[j],
                        dt_ms as int,
                    ),
                forall|j: int| i <= j < n ==> self.marines@[j] == old(self).marines@[j],
                self.bullets == old(self).bullets,
                self.terrain == old(self).terrain,
                self.camera == old(self).camera,
                self.next_id == old(self).next_id,
                world_wf(*old(self)),
            decreases n - i,
        {
            marine_animation_step(&mut self.marines[i], dt_ms);
            i = i + 1;
        }
        proof {
            assert forall|j: int| 0 <= j < self.marines@.len() implies (
            #[trigger] self.marines@[j]).id < self.next_id by {
                assert(marine_anim_rel(old(self).marines@[j], self.marines@[j], dt_ms as int));
            }
        }
    }

    /// BulletAnimationSystem over the whole bullet table. Downstream of
    /// bullet collision: spent bullets no longer advance their flight
    /// animation.
    pub fn bullet_animation_system(&mut self, dt_ms: u32)
        requires
            world_wf(*old(self)),
        ensures
            world_wf(*final(self)),
            final(self).bullets@.len() == old(self).bullets@.len(),
            forall|i: int|
                0 <= i < old(self).bullets@.len() ==> bullet_anim_rel(
                    old(self).bullets@[i],
                    #[trigger] final(self).bullets@[i],
                    dt_ms as int,
                ),
            final(self).marines == old(self).marines,
            final(self).terrain == old(self).terrain,
            final(self).camera == old(self).camera,
            final(self).next_id == old(self).next_id,
            bullet_anim_system_rel(*old(self), *final(self), dt_ms as int),
    {
        let n = self.bullets.len();
        let mut i: usize = 0;
        while i < n
            invariant
                n == self.bullets@.len(),
                0 <= i <= n,
                self.bullets@.len() == old(self).bullets@.len(),
                forall|j: int| 0 <= j < n ==> bullet_wf(#[trigger] self.bullets@[j]),
                forall|j: int|
                    0 <= j < i ==> bullet_anim_rel(
                        old(self).bullets@[j],
                        #[trigger] self.bullets@[j],
                        dt_ms as int,
                    ),
                forall|j: int| i <= j < n ==> self.bullets@[j] == old(self).bullets@[j],
                self.marines == old(self).marines,
                self.terrain == old(self).terrain,
                self.camera == old(self).camera,
                self.next_id == old(self).next_id,
                world_wf(*old(self)),
            decreases n - i,
        {
            bullet_animation_step(&mut self.bullets[i], dt_ms);
            i = i + 1;
        }
        proof {
            assert forall|j: int| 0 <= j < self.bullets@.len() implies (
            #[trigger] self.bullets@[j]).id < self.next_id by {
                assert(bullet_anim_rel(old(self).bullets@[j], self.bullets@[j], dt_ms as int));
            }
            assert forall|i: int, j: int|
                0 <= i < j < self.bullets@.len() implies (#[trigger] self.bullets@[i]).id != (
            #[trigger] self.bullets@[j]).id by {
                assert(bullet_anim_rel(old(self).bullets@[i], self.bullets@[i], dt_ms as int));
                assert(bullet_anim_rel(old(self).bullets@[j], self.bullets@[j], dt_ms as int));
            }
        }
    }

    /// AttackSystem over the whole marine table. Spawned bullets join the
    /// table at the end of the pass, each under a fresh id; no later
    /// system in this frame sees a half-made entity.
    pub fn attack_system(&mut self, fire: bool, dt_ms: u32)
        requires
            world_wf(*old(self)),
            old(self).next_id + old(self).marines@.len() < u64::MAX,
        ensures
            world_wf(*final(self)),
            final(self).marines@.len() == old(self).marines@.len(),
            forall|i: int|
                0 <= i < old(self).marines@.len() ==> attack_marine_rel(
                    old(self).marines@[i],
                    #[trigger] final(self).marines@[i],
                    fire,
                    dt_ms as int,
                ),
            // one bullet per marine whose cooldown allowed the shot, appended in order
            final(self).bullets@.len() == old(self).bullets@.len() + spawn_count(
                old(self).marines@,
                fire,
                old(self).marines@.len() as int,
            ),
            forall|j: int|
                0 <= j < old(self).bullets@.len() ==> #[trigger] final(self).bullets@[j] == old(
                    self,
                ).bullets@[j],
            forall|j: int|
                old(self).bullets@.len() <= j < final(self).bullets@.len() ==> {
                    let nb = #[trigger] final(self).bullets@[j];
                    &&& bullet_wf(nb)
                    &&& !nb.state.spent
                    &&& old(self).next_id <= nb.id < final(self).next_id
                    &&& exists|i: int|
                        0 <= i < old(self).marines@.len() && nb == spawned_bullet_spec(
                            #[trigger] old(self).marines@[i],
                            nb.id,
                        )
                },
            !fire ==> final(self).bullets@ == old(self).bullets@,
            final(self).terrain == old(self).terrain,
            final(self).camera == old(self).camera,
            old(self).next_id <= final(self).next_id <= old(self).next_id + old(
                self,
            ).marines@.len(),
            // exactly the spawned bullets are appended, in marine order,
            // each at the muzzle of the marine that fired it
            final(self).bullets@ == old(self).bullets@ + spawned_upto(
                old(self).marines@,
                fire,
                old(self).next_id as int,
                old(self).marines@.len() as int,
            ),
            attack_system_rel(*old(self), *final(self), fire, dt_ms as int),
    {
        let n = self.marines.len();
        let mut i: usize = 0;
        while i < n
            invariant
                n == self.marines@.len(),
                0 <= i <= n,
                self.marines@.len() == old(self).marines@.len(),
                forall|j: int| 0 <= j < n ==> marine_wf(#[trigger] self.marines@[j]),
                forall|j: int|
                    0 <= j < i ==> attack_marine_rel(
                        old(self).marines@[j],
                        #[trigger] self.marines@[j],
                        fire,
                        dt_ms as int,
                    ),
                forall|j: int| i <= j < n ==> self.marines@[j] == old(self).marines@[j],
                self.bullets@.len() == old(self).bullets@.len() + spawn_count(
                    old(self).marines@,
                    fire,
                    i as int,
                ),
                forall|j: int|
                    0 <= j < old(self).bullets@.len() ==> #[trigger] self.bullets@[j] == old(
                        self,
                    ).bullets@[j],
                forall|j: int|
                    old(self).bullets@.len() <= j < self.bullets@.len() ==> {
                        let nb = #[trigger] self.bullets@[j];
                        &&& bullet_wf(nb)
                        &&& !nb.state.spent
                        &&& old(self).next_id <= nb.id < self.next_id
                        &&& exists|k: int|
                            0 <= k < old(self).marines@.len() && nb == spawned_bullet_spec(
                                #[trigger] old(self).marines@[k],
                                nb.id,
                            )
                    },
                !fire ==> self.bullets@ == old(self).bullets@,
                self.bullets@ == old(self).bullets@ + spawned_upto(
                    old(self).marines@,
                    fire,
                    old(self).next_id as int,
                    i as int,
                ),
                old(self).next_id <= self.next_id,
                self.next_id - old(self).next_id == self.bullets@.len() - old(self).bullets@.len(),
                self.next_id + (n - i) <= old(self).next_id + n < u64::MAX,
                forall|j: int| 0 <= j < self.bullets@.len() ==> bullet_wf(#[trigger] self.bullets@[j]),
                forall|j: int|
                    0 <= j < self.bullets@.len() ==> (#[trigger] self.bullets@[j]).id
                        < self.next_id,
                forall|j1: int, j2: int|
                    0 <= j1 < j2 < self.bullets@.len() ==> (#[trigger] self.bullets@[j1]).id != (
                    #[trigger] self.bullets@[j2]).id,
                self.terrain == old(self).terrain,
                self.camera == old(self).camera,
                world_wf(*old(self)),
            decreases n - i,
        {
            let id = self.next_id;
            let ghost prev = spawned_upto(
                old(self).marines@,
                fire,
                old(self).next_id as int,
                i as int,
            );
            let sp = attack_step(&mut self.marines[i], fire, dt_ms, id);
            if let Some(b) = sp {
                proof {
                    assert(id == (old(self).next_id as int + prev.len()) as u64);
                    assert(b == spawned_bullet_spec(old(self).marines@[i as int], id));
                    assert((old(self).bullets@ + prev).push(b) =~= old(self).bullets@ + prev.push(
                        b,
                    ));
                }
                self.bullets.push(b);
                self.next_id = id + 1;
            }
            i = i + 1;
        }
        proof {
            assert forall|j: int| 0 <= j < self.marines@.len() implies (
            #[trigger] self.marines@[j]).id < self.next_id by {
                assert(attack_marine_rel(old(self).marines@[j], self.marines@[j], fire, dt_ms as int));
            }
        }
    }

    /// BulletCollisionSystem over the whole bullet table: each bullet is
    /// stepped against the terrain and the marines; bullets whose lifetime
    /// expired are removed at the end of the pass; hits on marines become
    /// damage events for the host's combat hook. No bullet appears in the
    /// event list twice.
    pub fn bullet_collision_system(&mut self, dt_ms: u32) -> (events: Vec<DamageEvent>)
        requires
            world_wf(*old(self)),
        ensures
            world_wf(*final(self)),
            final(self).marines == old(self).marines,
            final(self).terrain == old(self).terrain,
            final(self).camera == old(self).camera,
            final(self).next_id == old(self).next_id,
            final(self).bullets@.len() <= old(self).bullets@.len(),
            forall|j: int|
                0 <= j < final(self).bullets@.len() ==> from_collision(
                    old(self).bullets@,
                    old(self).terrain@,
                    old(self).marines@,
                    dt_ms as int,
                    #[trigger] final(self).bullets@[j],
                ),
            forall|k: int|
                0 <= k < events@.len() ==> event_from(
                    old(self).bullets@,
                    old(self).marines@,
                    #[trigger] events@[k],
                ),
            forall|k1: int, k2: int|
                0 <= k1 < k2 < events@.len() ==> (#[trigger] events@[k1]).bullet != (
                #[trigger] events@[k2]).bullet,
            // the kept table is exactly, in order, the stepped form of
            // each old bullet that did not expire, and the events exactly
            // one per marine hit
            final(self).bullets@ == surviving_upto(
                old(self).bullets@,
                old(self).terrain@,
                old(self).marines@,
                dt_ms as int,
                old(self).bullets@.len() as int,
            ),
            events@ == events_upto(
                old(self).bullets@,
                old(self).terrain@,
                old(self).marines@,
                dt_ms as int,
                old(self).bullets@.len() as int,
            ),
            collision_system_rel(*old(self), *final(self), events@, dt_ms as int),
    {
        let n = self.bullets.len();
        let mut kept: Vec<Bullet> = Vec::new();
        let mut events: Vec<DamageEvent> = Vec::new();
        let ghost mut src: Seq<int> = Seq::empty();
        let ghost mut outs: Seq<BulletOutcome> = Seq::empty();
        let ghost mut esrc: Seq<int> = Seq::empty();
        let ghost mut emar: Seq<int> = Seq::empty();
        let mut i: usize = 0;
        while i < n
            invariant
                n == self.bullets@.len(),
                0 <= i <= n,
                self.bullets@ == old(self).bullets@,
                self.marines == old(self).marines,
                self.terrain == old(self).terrain,
                self.camera == old(self).camera,
                self.next_id == old(self).next_id,
                world_wf(*old(self)),
                kept@.len() <= i,
                kept@ == surviving_upto(
                    old(self).bullets@,
                    old(self).terrain@,
                    old(self).marines@,
                    dt_ms as int,
                    i as int,
                ),
                events@ == events_upto(
                    old(self).bullets@,
                    old(self).terrain@,
                    old(self).marines@,
                    dt_ms as int,
                    i as int,
                ),
                src.len() == kept@.len(),
                outs.len() == kept@.len(),
                forall|j: int| 0 <= j < kept@.len() ==> 0 <= #[trigger] src[j] < i,
                forall|j: int|
                    0 <= j < kept@.len() ==> collision_step_rel(
                        old(self).bullets@[src[j]],
                        #[trigger] kept@[j],
                        outs[j],
                        old(self).terrain@,
                        old(self).marines@,
                        dt_ms as int,
                    ) && !(outs[j] matches BulletOutcome::Expired) && kept@[j].id == old(
                        self,
                    ).bullets@[src[j]].id,
                forall|j1: int, j2: int| 0 <= j1 < j2 < kept@.len() ==> src[j1] < src[j2],
                forall|j: int| 0 <= j < kept@.len() ==> bullet_wf(#[trigger] kept@[j]),
                esrc.len() == events@.len(),
                emar.len() == events@.len(),
                forall|k: int| 0 <= k < events@.len() ==> 0 <= #[trigger] esrc[k] < i,
                forall|k: int|
                    0 <= k < events@.len() ==> {
                        &&& 0 <= #[trigger] emar[k] < old(self).marines@.len()
                        &&& events@[k].bullet == old(self).bullets@[esrc[k]].id
                        &&& events@[k].target == old(self).marines@[emar[k]].id
                        &&& events@[k].amount == old(self).bullets@[esrc[k]].state.damage
                        &&& !old(self).bullets@[esrc[k]].state.spent
                    },
                forall|k1: int, k2: int| 0 <= k1 < k2 < events@.len() ==> esrc[k1] < esrc[k2],
            decreases n - i,
        {
            let mut b = self.bullets[i];
            let o = bullet_collision_step(&mut b, &self.terrain, &self.marines, dt_ms);
            match o {
                BulletOutcome::Expired => {},
                BulletOutcome::HitMarine { marine } => {
                    let ev = DamageEvent {
                        bullet: b.id,
                        target: self.marines[marine].id,
                        amount: b.state.damage,
                    };
                    events.push(ev);
                    kept.push(b);
                    proof {
                        esrc = esrc.push(i as int);
                        emar = emar.push(marine as int);
                        src = src.push(i as int);
                        outs = outs.push(o);
                    }
                },
                _ => {
                    kept.push(b);
                    proof {
                        src = src.push(i as int);
                        outs = outs.push(o);
                    }
                },
            }
            i = i + 1;
        }
        let ghost keptv = kept@;
        self.bullets = kept;
        proof {
            assert(self.bullets@ == keptv);
            assert(self.bullets@ == surviving_upto(
                old(self).bullets@,
                old(self).terrain@,
                old(self).marines@,
                dt_ms as int,
                old(self).bullets@.len() as int,
            ));
            assert forall|j: int| 0 <= j < self.bullets@.len() implies from_collision(
                old(self).bullets@,
                old(self).terrain@,
                old(self).marines@,
                dt_ms as int,
                #[trigger] self.bullets@[j],
            ) by {
                assert(self.bullets@[j] == keptv[j]);
                assert(collision_step_rel(
                    old(self).bullets@[src[j]],
                    keptv[j],
                    outs[j],
                    old(self).terrain@,
                    old(self).marines@,
                    dt_ms as int,
                ) && !(outs[j] matches BulletOutcome::Expired) && 0 <= src[j] < old(
                    self,
                ).bullets@.len());
                assert(collision_step_rel(
                    old(self).bullets@[src[j]],
                    self.bullets@[j],
                    outs[j],
                    old(self).terrain@,
                    old(self).marines@,
                    dt_ms as int,
                ));
            }
            assert forall|k: int| 0 <= k < events@.len() implies event_from(
                old(self).bullets@,
                old(self).marines@,
                #[trigger] events@[k],
            ) by {
                assert(0 <= esrc[k] < old(self).bullets@.len());
                assert(0 <= emar[k] < old(self).marines@.len());
                assert(events@[k].bullet == (old(self).bullets@[esrc[k]]).id && events@[k].target
                    == (old(self).marines@[emar[k]]).id && events@[k].amount == old(
                    self,
                ).bullets@[esrc[k]].state.damage && !old(self).bullets@[esrc[k]].state.spent);
            }
            assert forall|k1: int, k2: int| 0 <= k1 < k2 < events@.len() implies (
            #[trigger] events@[k1]).bullet != (#[trigger] events@[k2]).bullet by {
                assert(0 <= emar[k1] < old(self).marines@.len());
                assert(0 <= emar[k2] < old(self).marines@.len());
                assert(events@[k1].bullet == old(self).bullets@[esrc[k1]].id);
                assert(events@[k2].bullet == old(self).bullets@[esrc[k2]].id);
                assert(esrc[k1] < esrc[k2]);
                assert(old(self).bullets@[esrc[k1]].id != old(self).bullets@[esrc[k2]].id);
            }
            assert forall|j1: int, j2: int| 0 <= j1 < j2 < self.bullets@.len() implies (
            #[trigger] self.bullets@[j1]).id != (#[trigger] self.bullets@[j2]).id by {
                assert(self.bullets@[j1] == keptv[j1] && self.bullets@[j2] == keptv[j2]);
                assert(keptv[j1].id == old(self).bullets@[src[j1]].id);
                assert(keptv[j2].id == old(self).bullets@[src[j2]].id);
                assert(src[j1] < src[j2]);
                assert(old(self).bullets@[src[j1]].id != old(self).bullets@[src[j2]].id);
            }
            assert forall|j: int| 0 <= j < self.bullets@.len() implies (
            #[trigger] self.bullets@[j]).id < self.next_id by {
                assert(self.bullets@[j] == keptv[j]);
                assert(keptv[j].id == old(self).bullets@[src[j]].id);
            }
            assert forall|j: int| 0 <= j < self.bullets@.len() implies bullet_wf(
                #[trigger] self.bullets@[j],
            ) by {
                assert(self.bullets@[j] == keptv[j]);
                assert(bullet_wf(keptv[j]));
            }
        }
        events
    }

    /// BulletImpactAnimationSystem over the whole bullet table: advances
    /// impact animations and removes, at the end of the pass, every bullet
    /// whose one-shot impact track has shown its last frame for its full
    /// duration — never earlier, so every impact is visible.
    pub fn bullet_impact_animation_system(&mut self, dt_ms: u32)
        requires
            world_wf(*old(self)),
        ensures
            world_wf(*final(self)),
            final(self).marines == old(self).marines,
            final(self).terrain == old(self).terrain,
            final(self).camera == old(self).camera,
            final(self).next_id == old(self).next_id,
            final(self).bullets@.len() <= old(self).bullets@.len(),
            forall|j: int|
                0 <= j < final(self).bullets@.len() ==> from_impact(
                    old(self).bullets@,
                    dt_ms as int,
                    #[trigger] final(self).bullets@[j],
                ),
            // exactly the advanced not-yet-finished bullets are kept, in
            // order: a bullet is removed only once its one-shot impact
            // track has shown its last frame for its full duration
            final(self).bullets@ == impact_surviving_upto(
                old(self).bullets@,
                dt_ms as int,
                old(self).bullets@.len() as int,
            ),
            impact_system_rel(*old(self), *final(self), dt_ms as int),
    {
        let n = self.bullets.len();
        let mut kept: Vec<Bullet> = Vec::new();
        let ghost mut src: Seq<int> = Seq::empty();
        let mut i: usize = 0;
        while i < n
            invariant
                n == self.bullets@.len(),
                0 <= i <= n,
                self.bullets@ == old(self).bullets@,
                self.marines == old(self).marines,
                self.terrain == old(self).terrain,
                self.camera == old(self).camera,
                self.next_id == old(self).next_id,
                world_wf(*old(self)),
                kept@.len() <= i,
                kept@ == impact_surviving_upto(old(self).bullets@, dt_ms as int, i as int),
                src.len() == kept@.len(),
                forall|j: int| 0 <= j < kept@.len() ==> 0 <= #[trigger] src[j] < i,
                forall|j: int|
                    0 <= j < kept@.len() ==> impact_anim_rel(
                        old(self).bullets@[src[j]],
                        #[trigger] kept@[j],
                        false,
                        dt_ms as int,
                    ) && kept@[j].id == old(self).bullets@[src[j]].id,
                forall|j1: int, j2: int| 0 <= j1 < j2 < kept@.len() ==> src[j1] < src[j2],
                forall|j: int| 0 <= j < kept@.len() ==> bullet_wf(#[trigger] kept@[j]),
            decreases n - i,
        {
            let mut b = self.bullets[i];
            let finished = impact_animation_step(&mut b, dt_ms);
            if !finished {
                kept.push(b);
                proof {
                    src = src.push(i as int);
                }
            }
            i = i + 1;
        }
        let ghost keptv = kept@;
        self.bullets = kept;
        proof {
            assert(self.bullets@ == keptv);
            assert(self.bullets@ == impact_surviving_upto(
                old(self).bullets@,
                dt_ms as int,
                old(self).bullets@.len() as int,
            ));
            assert forall|j: int| 0 <= j < self.bullets@.len() implies from_impact(
                old(self).bullets@,
                dt_ms as int,
                #[trigger] self.bullets@[j],
            ) by {
                assert(self.bullets@[j] == keptv[j]);
                assert(impact_anim_rel(
                    old(self).bullets@[src[j]],
                    keptv[j],
                    false,
                    dt_ms as int,
                ) && 0 <= src[j] < old(self).bullets@.len());
                assert(impact_anim_rel(
                    old(self).bullets@[src[j]],
                    self.bullets@[j],
                    false,
                    dt_ms as int,
                ));
            }
            assert forall|j1: int, j2: int| 0 <= j1 < j2 < self.bullets@.len() implies (
            #[trigger] self.bullets@[j1]).id != (#[trigger] self.bullets@[j2]).id by {
                assert(self.bullets@[j1] == keptv[j1] && self.bullets@[j2] == keptv[j2]);
                assert(keptv[j1].id == old(self).bullets@[src[j1]].id);
                assert(keptv[j2].id == old(self).bullets@[src[j2]].id);
                assert(src[j1] < src[j2]);
                assert(old(self).bullets@[src[j1]].id != old(self).bullets@[src[j2]].id);
            }
            assert forall|j: int| 0 <= j < self.bullets@.len() implies (
            #[trigger] self.bullets@[j]).id < self.next_id by {
                assert(self.bullets@[j] == keptv[j]);
                assert(keptv[j].id == old(self).bullets@[src[j]].id);
            }
            assert forall|j: int| 0 <= j < self.bullets@.len() implies bullet_wf(
                #[trigger] self.bullets@[j],
            ) by {
                assert(self.bullets@[j] == keptv[j]);
                assert(bullet_wf(keptv[j]));
            }
        }
    }

    /// CameraMotionSystem: moves the camera toward the tracked marine by
    /// exponential smoothing; with no target, or a target id no marine
    /// carries, the camera holds its last position.
    pub fn camera_motion_system(&mut self, dt_ms: u32)
        requires
            world_wf(*old(self)),
        ensures
            world_wf(*final(self)),
            final(self).marines == old(self).marines,
            final(self).bullets == old(self).bullets,
            final(self).terrain == old(self).terrain,
            final(self).next_id == old(self).next_id,
            final(self).camera.target == old(self).camera.target,
            match old(self).camera.target {
                None => final(self).camera == old(self).camera,
                Some(tid) => {
                    &&& (exists|i: int|
                        0 <= i < old(self).marines@.len() && (#[trigger] old(
                            self,
                        ).marines@[i]).id == tid) ==> exists|i: int|
                        {
                            &&& 0 <= i < old(self).marines@.len()
                            &&& (#[trigger] old(self).marines@[i]).id == tid
                            &&& forall|j: int|
                                0 <= j < i ==> (#[trigger] old(self).marines@[j]).id != tid
                            &&& final(self).camera.x == camera_move_spec(
                                old(self).camera.x as int,
                                old(self).marines@[i].transform.x as int,
                                dt_ms as int,
                            )
                            &&& final(self).camera.y == camera_move_spec(
                                old(self).camera.y as int,
                                old(self).marines@[i].transform.y as int,
                                dt_ms as int,
                            )
                        }
                    &&& !(exists|i: int|
                        0 <= i < old(self).marines@.len() && (#[trigger] old(
                            self,
                        ).marines@[i]).id == tid) ==> final(self).camera == old(self).camera
                },
            },
            camera_system_rel(*old(self), *final(self), dt_ms as int),
    {
        let tgt = self.camera.target;
        if let Some(tid) = tgt {
            let n = self.marines.len();
            let mut i: usize = 0;
            while i < n
                invariant
                    n == self.marines@.len(),
                    0 <= i <= n,
                    *self == *old(self),
                    tgt == self.camera.target,
                    tgt == Some(tid),
                    world_wf(*old(self)),
                    forall|j: int| 0 <= j < i ==> (#[trigger] self.marines@[j]).id != tid,
                decreases n - i,
            {
                if self.marines[i].id == tid {
                    let tx = self.marines[i].transform.x;
                    let ty = self.marines[i].transform.y;
                    self.camera.x = camera_move_coord(self.camera.x, tx, dt_ms);
                    self.camera.y = camera_move_coord(self.camera.y, ty, dt_ms);
                    return ;
                }
                i = i + 1;
            }
        }
    }

    /// One frame: the eight systems in dependency order — marine
    /// acceleration, attack, bullet collision, marine collision, bullet
    /// flight animation, bullet impact animation, marine animation,
    /// camera. Returns the damage events the host's combat hook owes the
    /// struck marines; no bullet is reported twice in one frame, and a
    /// bullet spent in an earlier frame stays spent and reports nothing.
    #[verifier::rlimit(60)]
    pub fn tick(&mut self, input: &InputState, dt_ms: u32) -> (events: Vec<DamageEvent>)
        requires
            world_wf(*old(self)),
            old(self).next_id + old(self).marines@.len() < u64::MAX,
        ensures
            world_wf(*final(self)),
            final(self).terrain == old(self).terrain,
            final(self).camera.target == old(self).camera.target,
            final(self).marines@.len() == old(self).marines@.len(),
            forall|i: int|
                0 <= i < old(self).marines@.len() ==> (#[trigger] final(self).marines@[i]).id
                    == old(self).marines@[i].id,
            // horizontal marine speed never leaves the clamp
            forall|i: int|
                0 <= i < final(self).marines@.len() ==> -crate::MARINE_MAX_VELOCITY_MILLI <= (
                #[trigger] final(self).marines@[i]).velocity.vx
                    <= crate::MARINE_MAX_VELOCITY_MILLI,
            // the shown track always matches the selection state machine:
            // in particular never idle while grounded and moving
            forall|i: int|
                0 <= i < final(self).marines@.len() ==> (#[trigger] final(self).marines@[i]).anim.track
                    == select_track_spec(
                    final(self).marines@[i].state.attacking,
                    final(self).marines@[i].state.grounded,
                    final(self).marines@[i].velocity.vx as int,
                ),
            // a bullet that survives the frame either descends from a
            // frame-start bullet with its spent flag monotone, or was
            // spawned this frame under a fresh id
            forall|j: int|
                0 <= j < final(self).bullets@.len() ==> descended_spent(
                    old(self).bullets@,
                    #[trigger] final(self).bullets@[j],
                ) || final(self).bullets@[j].id >= old(self).next_id,
            // no bullet delivers damage twice within the frame
            forall|k1: int, k2: int|
                0 <= k1 < k2 < events@.len() ==> (#[trigger] events@[k1]).bullet != (
                #[trigger] events@[k2]).bullet,
            // the whole frame is the chain of the eight system relations
            frame_rel(*old(self), *final(self), events@, *input, dt_ms as int),
    {
        self.marine_acceleration_system(input, dt_ms);
        let ghost s1 = *self;
        self.attack_system(input.fire, dt_ms);
        let ghost s2 = *self;
        let events = self.bullet_collision_system(dt_ms);
        let ghost s3 = *self;
        self.marine_collision_system(dt_ms);
        let ghost s4 = *self;
        self.bullet_animation_system(dt_ms);
        let ghost s5 = *self;
        self.bullet_impact_animation_system(dt_ms);
        let ghost s6 = *self;
        self.marine_animation_system(dt_ms);
        let ghost s7 = *self;
        self.camera_motion_system(dt_ms);
        proof {
            let mid = (s1, s2, s3, s4, s5, s6, s7);
            assert(accel_system_rel(*old(self), mid.0, *input, dt_ms as int));
            assert(attack_system_rel(mid.0, mid.1, input.fire, dt_ms as int));
            assert(collision_system_rel(mid.1, mid.2, events@, dt_ms as int));
            assert(marine_collision_system_rel(mid.2, mid.3, dt_ms as int));
            assert(bullet_anim_system_rel(mid.3, mid.4, dt_ms as int));
            assert(impact_system_rel(mid.4, mid.5, dt_ms as int));
            assert(marine_anim_system_rel(mid.5, mid.6, dt_ms as int));
            assert(camera_system_rel(mid.6, *self, dt_ms as int));
            let n = old(self).marines@.len() as int;
            assert forall|i: int| 0 <= i < n implies (#[trigger] self.marines@[i]).id == old(
                self,
            ).marines@[i].id by {
                assert(accel_rel(old(self).marines@[i], s1.marines@[i], *input, dt_ms as int));
                assert(attack_marine_rel(s1.marines@[i], s2.marines@[i], input.fire, dt_ms as int));
                assert(s3.marines@[i] == s2.marines@[i]);
                assert(collision_rel(s3.marines@[i], s4.marines@[i], s3.terrain@, dt_ms as int));
                assert(s5.marines@[i] == s4.marines@[i]);
                assert(s6.marines@[i] == s5.marines@[i]);
                assert(marine_anim_rel(s6.marines@[i], s7.marines@[i], dt_ms as int));
                assert(self.marines@[i] == s7.marines@[i]);
            }
            assert forall|i: int| 0 <= i < self.marines@.len() implies
                -crate::MARINE_MAX_VELOCITY_MILLI <= (#[trigger] self.marines@[i]).velocity.vx
                    <= crate::MARINE_MAX_VELOCITY_MILLI by {
                assert(marine_wf(self.marines@[i]));
            }
            assert forall|i: int| 0 <= i < self.marines@.len() implies (
            #[trigger] self.marines@[i]).anim.track == select_track_spec(
                self.marines@[i].state.attacking,
                self.marines@[i].state.grounded,
                self.marines@[i].velocity.vx as int,
            ) by {
                assert(marine_anim_rel(s6.marines@[i], s7.marines@[i], dt_ms as int));
                assert(self.marines@[i] == s7.marines@[i]);
                assert(s7.marines@[i].state == s6.marines@[i].state);
                assert(s7.marines@[i].velocity == s6.marines@[i].velocity);
            }
            assert forall|j: int| 0 <= j < self.bullets@.len() implies descended_spent(
                old(self).bullets@,
                #[trigger] self.bullets@[j],
            ) || self.bullets@[j].id >= old(self).next_id by {
                let nb = self.bullets@[j];
                assert(self.bullets@ == s6.bullets@);
                assert(from_impact(s5.bullets@, dt_ms as int, nb));
                let i5 = choose|i: int|
                    0 <= i < s5.bullets@.len() && #[trigger] impact_anim_rel(
                        s5.bullets@[i],
                        nb,
                        false,
                        dt_ms as int,
                    );
                assert(bullet_anim_rel(s4.bullets@[i5], s5.bullets@[i5], dt_ms as int));
                assert(s4.bullets@ == s3.bullets@);
                assert(from_collision(
                    s2.bullets@,
                    s2.terrain@,
                    s2.marines@,
                    dt_ms as int,
                    s3.bullets@[i5],
                ));
                let (i2, o): (int, BulletOutcome) = choose|i2: int, o: BulletOutcome|
                    0 <= i2 < s2.bullets@.len() && #[trigger] collision_step_rel(
                        s2.bullets@[i2],
                        s3.bullets@[i5],
                        o,
                        s2.terrain@,
                        s2.marines@,
                        dt_ms as int,
                    ) && !(o matches BulletOutcome::Expired);
                assert(s2.bullets@[i2].id == nb.id);
                assert(s2.bullets@[i2].state.spent ==> nb.state.spent);
                if i2 < old(self).bullets@.len() {
                    assert(s1.bullets@ == old(self).bullets@);
                    assert(s2.bullets@[i2] == old(self).bullets@[i2]);
                    assert((old(self).bullets@[i2]).id == nb.id && (old(
                        self,
                    ).bullets@[i2].state.spent ==> nb.state.spent));
                    assert(descended_spent(old(self).bullets@, nb));
                } else {
                    assert(s1.bullets@ == old(self).bullets@);
                    assert(s1.next_id == old(self).next_id);
                    assert(s2.bullets@[i2].id >= old(self).next_id);
                }
            }
        }
        events
    }
}

} // verus!
