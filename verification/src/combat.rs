//! Combat systems: AttackSystem (cooldown gating and bullet spawning) and
//! BulletCollisionSystem (flight, terrain and marine hits, expiry).
//!
//! A bullet registers at most one hit in its lifetime: damage is reported
//! only on the transition of its `spent` flag from false to true, the flag
//! is never cleared, and a spent bullet is collision-inert — the collision
//! step leaves it untouched and reports nothing for it.

use vstd::prelude::*;
use crate::{
    POS_LIMIT_MILLI, POS_WF_LIMIT_MILLI, BULLET_SPEED_MILLI, BULLET_DAMAGE, BULLET_LIFETIME_MS,
    FIRE_INTERVAL_MS, ATTACK_POSE_MS, MUZZLE_OFFSET_X_MILLI, MUZZLE_OFFSET_Y_MILLI,
    BULLET_HALF_X_MILLI, BULLET_HALF_Y_MILLI,
};
use crate::math::{clamp_spec, scale_spec, sat_sub_spec, clamp_i64, scale_milli, sat_sub_u32};
use crate::components::{
    Facing, Transform, BulletState, CollisionBounds, TrackId, fresh_track, fresh_track_spec,
};
use crate::entities::{Marine, Bullet, marine_wf, bullet_wf};
use crate::geometry::{Rect, rect_wf};

verus! {

/// A shot leaves the muzzle on the facing side of the marine's center,
/// kept inside the well-formed position range.
pub open spec fn muzzle_x_spec(facing: Facing, x: int) -> int {
    if facing == Facing::Right {
        clamp_spec(x + MUZZLE_OFFSET_X_MILLI, -POS_WF_LIMIT_MILLI, POS_WF_LIMIT_MILLI as int)
    } else {
        clamp_spec(x - MUZZLE_OFFSET_X_MILLI, -POS_WF_LIMIT_MILLI, POS_WF_LIMIT_MILLI as int)
    }
}

/// The muzzle sits a little above the marine's center, kept inside the
/// well-formed position range.
pub open spec fn muzzle_y_spec(y: int) -> int {
    clamp_spec(y + MUZZLE_OFFSET_Y_MILLI, -POS_WF_LIMIT_MILLI, POS_WF_LIMIT_MILLI as int)
}

/// The bullet a marine spawns: positioned at the muzzle, flying at the
/// fixed bullet speed in the facing direction, fresh lifetime and damage,
/// not spent, showing the looping flight track.
pub open spec fn spawned_bullet_spec(m: Marine, id: u64) -> Bullet {
    Bullet {
        id,
        owner: m.id,
        transform: Transform {
            x: muzzle_x_spec(m.state.facing, m.transform.x as int) as i64,
            y: muzzle_y_spec(m.transform.y as int) as i64,
            layer: m.transform.layer,
        },
        state: BulletState {
            vx: if m.state.facing == Facing::Right {
                BULLET_SPEED_MILLI
            } else {
                (-BULLET_SPEED_MILLI) as i64
            },
            vy: 0,
            lifetime_ms: BULLET_LIFETIME_MS,
            damage: BULLET_DAMAGE,
            spent: false,
        },
        bounds: CollisionBounds { half_x: BULLET_HALF_X_MILLI, half_y: BULLET_HALF_Y_MILLI },
        anim: fresh_track_spec(TrackId::BulletFly),
    }
}

/// Everything AttackSystem does to one marine in one frame, as a relation
/// between the marine before and after and what it spawned.
pub open spec fn attack_rel(
    pre: Marine,
    post: Marine,
    spawned: Option<Bullet>,
    fire: bool,
    dt: int,
    id: u64,
) -> bool {
    &&& post.id == pre.id
    &&& post.transform == pre.transform
    &&& post.velocity == pre.velocity
    &&& post.accel == pre.accel
    &&& post.bounds == pre.bounds
    &&& post.anim == pre.anim
    &&& post.state.facing == pre.state.facing
    &&& post.state.grounded == pre.state.grounded
    &&& (fire && pre.cooldown.remaining_ms == 0 ==> {
        &&& spawned == Some(spawned_bullet_spec(pre, id))
        &&& post.cooldown.remaining_ms == FIRE_INTERVAL_MS
    })
    &&& (!(fire && pre.cooldown.remaining_ms == 0) ==> {
        &&& spawned is None
        &&& post.cooldown.remaining_ms == sat_sub_spec(pre.cooldown.remaining_ms as int, dt)
    })
    &&& (fire ==> post.state.attacking && post.state.attack_timer_ms == ATTACK_POSE_MS)
    &&& (!fire ==> {
        &&& post.state.attack_timer_ms == sat_sub_spec(pre.state.attack_timer_ms as int, dt)
        &&& post.state.attacking == (pre.state.attacking && post.state.attack_timer_ms > 0)
    })
}

/// AttackSystem, one marine. Fires at most once per cooldown interval:
/// with the fire action active and the cooldown at zero it spawns one
/// bullet and resets the cooldown to the fire interval; otherwise the
/// cooldown runs down by the elapsed time, floored at zero. The attack
/// pose is shown whenever fire is pressed — even while the cooldown gates
/// the shot — and lapses once its timer runs out.
pub fn attack_step(m: &mut Marine, fire: bool, dt_ms: u32, id: u64) -> (spawned: Option<Bullet>)
    requires
        marine_wf(*old(m)),
    ensures
        marine_wf(*final(m)),
        attack_rel(*old(m), *final(m), spawned, fire, dt_ms as int, id),
        fire && old(m).cooldown.remaining_ms == 0 ==> {
            &&& spawned == Some(spawned_bullet_spec(*old(m), id))
            &&& bullet_wf(spawned_bullet_spec(*old(m), id))
            &&& !spawned_bullet_spec(*old(m), id).state.spent
        },
{
    let mut spawned: Option<Bullet> = None;
    if fire && m.cooldown.remaining_ms == 0 {
        let vx: i64 = match m.state.facing {
            Facing::Right => BULLET_SPEED_MILLI,
            Facing::Left => -BULLET_SPEED_MILLI,
        };
        let x: i64 = match m.state.facing {
            Facing::Right => clamp_i64(
                m.transform.x + MUZZLE_OFFSET_X_MILLI,
                -POS_WF_LIMIT_MILLI,
                POS_WF_LIMIT_MILLI,
            ),
            Facing::Left => clamp_i64(
                m.transform.x - MUZZLE_OFFSET_X_MILLI,
                -POS_WF_LIMIT_MILLI,
                POS_WF_LIMIT_MILLI,
            ),
        };
        let y: i64 = clamp_i64(
            m.transform.y + MUZZLE_OFFSET_Y_MILLI,
            -POS_WF_LIMIT_MILLI,
            POS_WF_LIMIT_MILLI,
        );
        let b = Bullet {
            id,
            owner: m.id,
            transform: Transform { x, y, layer: m.transform.layer },
            state: BulletState {
                vx,
                vy: 0,
                lifetime_ms: BULLET_LIFETIME_MS,
                damage: BULLET_DAMAGE,
                spent: false,
            },
            bounds: CollisionBounds { half_x: BULLET_HALF_X_MILLI, half_y: BULLET_HALF_Y_MILLI },
            anim: fresh_track(TrackId::BulletFly),
        };
        spawned = Some(b);
        m.cooldown.remaining_ms = FIRE_INTERVAL_MS;
    } else {
        m.cooldown.remaining_ms = sat_sub_u32(m.cooldown.remaining_ms, dt_ms);
    }
    if fire {
        m.state.attacking = true;
        m.state.attack_timer_ms = ATTACK_POSE_MS;
    } else {
        m.state.attack_timer_ms = sat_sub_u32(m.state.attack_timer_ms, dt_ms);
        if m.state.attack_timer_ms == 0 {
            m.state.attacking = false;
        }
    }
    spawned
}

/// What BulletCollisionSystem decided for one bullet this frame.
#[derive(Clone, Copy, PartialEq, Eq, Structural, Debug)]
pub enum BulletOutcome {
    /// Already spent: collision-inert, left untouched.
    Inert,
    /// Moved, hit nothing, lifetime still running.
    Flying,
    /// Lifetime ran out with no collision: spent, to be removed directly
    /// with no impact animation.
    Expired,
    /// Hit the terrain rectangle at this index: spent, impact animation.
    HitTerrain { rect: usize },
    /// Hit the marine at this index: spent, impact animation, damage owed
    /// to that marine.
    HitMarine { marine: usize },
}

/// The bullet's box, centered at `(x, y)`, strictly overlaps rectangle `r`.
pub open spec fn rect_hit_at(x: int, y: int, hx: int, hy: int, r: Rect) -> bool {
    x - hx < r.max_x && r.min_x < x + hx && y - hy < r.max_y && r.min_y < y + hy
}

/// The bullet's box, centered at `(x, y)`, strictly overlaps the collision
/// box of marine `m`.
pub open spec fn marine_hit_at(x: int, y: int, hx: int, hy: int, m: Marine) -> bool {
    &&& x - hx < m.transform.x + m.bounds.half_x
    &&& m.transform.x - m.bounds.half_x < x + hx
    &&& y - hy < m.transform.y + m.bounds.half_y
    &&& m.transform.y - m.bounds.half_y < y + hy
}

/// The bullet's position after this frame's translation.
pub open spec fn bullet_new_x(b: Bullet, dt: int) -> int {
    clamp_spec(b.transform.x + scale_spec(b.state.vx as int, dt), -POS_LIMIT_MILLI, POS_LIMIT_MILLI as int)
}

pub open spec fn bullet_new_y(b: Bullet, dt: int) -> int {
    clamp_spec(b.transform.y + scale_spec(b.state.vy as int, dt), -POS_LIMIT_MILLI, POS_LIMIT_MILLI as int)
}

/// The least index among the first `i` terrain rectangles that the box at
/// `(x, y)` overlaps, if any.
pub open spec fn first_rect_hit_upto(
    x: int,
    y: int,
    hx: int,
    hy: int,
    rects: Seq<Rect>,
    i: int,
) -> Option<int>
    decreases i,
{
    if i <= 0 {
        None
    } else {
        match first_rect_hit_upto(x, y, hx, hy, rects, i - 1) {
            Some(j) => Some(j),
            None => if rect_hit_at(x, y, hx, hy, rects[i - 1]) {
                Some(i - 1)
            } else {
                None
            },
        }
    }
}

/// Once a first hit is found among a prefix, longer prefixes report the
/// same one.
pub proof fn lemma_first_rect_hit_stable(
    x: int,
    y: int,
    hx: int,
    hy: int,
    rects: Seq<Rect>,
    i: int,
    n: int,
)
    requires
        0 <= i <= n,
        first_rect_hit_upto(x, y, hx, hy, rects, i) is Some,
    ensures
        first_rect_hit_upto(x, y, hx, hy, rects, n) == first_rect_hit_upto(x, y, hx, hy, rects, i),
    decreases n - i,
{
    if n > i {
        lemma_first_rect_hit_stable(x, y, hx, hy, rects, i, n - 1);
    }
}

/// The least index among the first `i` marines, the owner excepted, whose
/// box the bullet's box at `(x, y)` overlaps, if any.
pub open spec fn first_marine_hit_upto(
    x: int,
    y: int,
    hx: int,
    hy: int,
    owner: u64,
    marines: Seq<Marine>,
    i: int,
) -> Option<int>
    decreases i,
{
    if i <= 0 {
        None
    } else {
        match first_marine_hit_upto(x, y, hx, hy, owner, marines, i - 1) {
            Some(j) => Some(j),
            None => if marines[i - 1].id != owner && marine_hit_at(x, y, hx, hy, marines[i - 1]) {
                Some(i - 1)
            } else {
                None
            },
        }
    }
}

/// Once a first marine hit is found among a prefix, longer prefixes report
/// the same one.
pub proof fn lemma_first_marine_hit_stable(
    x: int,
    y: int,
    hx: int,
    hy: int,
    owner: u64,
    marines: Seq<Marine>,
    i: int,
    n: int,
)
    requires
        0 <= i <= n,
        first_marine_hit_upto(x, y, hx, hy, owner, marines, i) is Some,
    ensures
        first_marine_hit_upto(x, y, hx, hy, owner, marines, n) == first_marine_hit_upto(
            x,
            y,
            hx,
            hy,
            owner,
            marines,
            i,
        ),
    decreases n - i,
{
    if n > i {
        lemma_first_marine_hit_stable(x, y, hx, hy, owner, marines, i, n - 1);
    }
}

/// The one outcome BulletCollisionSystem decides for this bullet: inert if
/// spent, else — at the translated position — the first terrain hit, else
/// the first marine hit, else expiry or continued flight.
pub open spec fn collision_outcome_spec(
    pre: Bullet,
    terrain: Seq<Rect>,
    marines: Seq<Marine>,
    dt: int,
) -> BulletOutcome {
    if pre.state.spent {
        BulletOutcome::Inert
    } else {
        let nx = bullet_new_x(pre, dt);
        let ny = bullet_new_y(pre, dt);
        let hx = pre.bounds.half_x as int;
        let hy = pre.bounds.half_y as int;
        match first_rect_hit_upto(nx, ny, hx, hy, terrain, terrain.len() as int) {
            Some(j) => BulletOutcome::HitTerrain { rect: j as usize },
            None => match first_marine_hit_upto(
                nx,
                ny,
                hx,
                hy,
                pre.owner,
                marines,
                marines.len() as int,
            ) {
                Some(k) => BulletOutcome::HitMarine { marine: k as usize },
                None => if sat_sub_spec(pre.state.lifetime_ms as int, dt) == 0 {
                    BulletOutcome::Expired
                } else {
                    BulletOutcome::Flying
                },
            },
        }
    }
}

/// The one post-state BulletCollisionSystem leaves this bullet in: spent
/// bullets untouched; otherwise translated, spent on a hit or on expiry,
/// switched to the impact track on a hit, lifetime run down when no hit.
pub open spec fn collision_post_spec(
    pre: Bullet,
    terrain: Seq<Rect>,
    marines: Seq<Marine>,
    dt: int,
) -> Bullet {
    if pre.state.spent {
        pre
    } else {
        let o = collision_outcome_spec(pre, terrain, marines, dt);
        let hit = o matches BulletOutcome::HitTerrain { .. } || o matches BulletOutcome::HitMarine {
            ..
        };
        Bullet {
            id: pre.id,
            owner: pre.owner,
            transform: Transform {
                x: bullet_new_x(pre, dt) as i64,
                y: bullet_new_y(pre, dt) as i64,
                layer: pre.transform.layer,
            },
            state: BulletState {
                vx: pre.state.vx,
                vy: pre.state.vy,
                lifetime_ms: if hit {
                    pre.state.lifetime_ms
                } else {
                    sat_sub_spec(pre.state.lifetime_ms as int, dt) as u32
                },
                damage: pre.state.damage,
                spent: hit || sat_sub_spec(pre.state.lifetime_ms as int, dt) == 0,
            },
            bounds: pre.bounds,
            anim: if hit {
                fresh_track_spec(TrackId::BulletImpact)
            } else {
                pre.anim
            },
        }
    }
}

/// Everything BulletCollisionSystem does to one bullet in one frame,
/// as a relation between the bullet before, the bullet after, and the
/// reported outcome.
pub open spec fn collision_step_rel(
    pre: Bullet,
    post: Bullet,
    o: BulletOutcome,
    terrain: Seq<Rect>,
    marines: Seq<Marine>,
    dt: int,
) -> bool {
    &&& post.id == pre.id
    &&& post.owner == pre.owner
    &&& post.bounds == pre.bounds
    &&& post.state.vx == pre.state.vx
    &&& post.state.vy == pre.state.vy
    &&& post.state.damage == pre.state.damage
    &&& post.transform.layer == pre.transform.layer
    // the spent flag is monotone, and damage only comes from a bullet
    // that was not spent and is spent afterwards
    &&& (pre.state.spent ==> post.state.spent)
    &&& ((o matches BulletOutcome::HitMarine { .. } || o matches BulletOutcome::HitTerrain {
        ..
    }) ==> !pre.state.spent && post.state.spent)
    &&& (pre.state.spent ==> o == BulletOutcome::Inert && post == pre)
    &&& (!pre.state.spent ==> {
        let nx = bullet_new_x(pre, dt);
        let ny = bullet_new_y(pre, dt);
        let hx = pre.bounds.half_x as int;
        let hy = pre.bounds.half_y as int;
        &&& post.transform.x == nx
        &&& post.transform.y == ny
        &&& match o {
                BulletOutcome::Inert => false,
                BulletOutcome::HitTerrain { rect } => {
                    &&& 0 <= rect < terrain.len()
                    &&& rect_hit_at(nx, ny, hx, hy, terrain[rect as int])
                    &&& forall|j: int|
                        0 <= j < rect ==> !rect_hit_at(nx, ny, hx, hy, #[trigger] terrain[j])
                    &&& post.state.spent
                    &&& post.anim == fresh_track_spec(TrackId::BulletImpact)
                    &&& post.state.lifetime_ms == pre.state.lifetime_ms
                },
                BulletOutcome::HitMarine { marine } => {
                    &&& forall|j: int|
                        0 <= j < terrain.len() ==> !rect_hit_at(
                            nx,
                            ny,
                            hx,
                            hy,
                            #[trigger] terrain[j],
                        )
                    &&& 0 <= marine < marines.len()
                    &&& marines[marine as int].id != pre.owner
                    &&& marine_hit_at(nx, ny, hx, hy, marines[marine as int])
                    &&& forall|j: int|
                        0 <= j < marine && (#[trigger] marines[j]).id != pre.owner
                            ==> !marine_hit_at(nx, ny, hx, hy, marines[j])
                    &&& post.state.spent
                    &&& post.anim == fresh_track_spec(TrackId::BulletImpact)
                    &&& post.state.lifetime_ms == pre.state.lifetime_ms
                },
                BulletOutcome::Expired => {
                    &&& forall|j: int|
                        0 <= j < terrain.len() ==> !rect_hit_at(
                            nx,
                            ny,
                            hx,
                            hy,
                            #[trigger] terrain[j],
                        )
                    &&& forall|j: int|
                        0 <= j < marines.len() && (#[trigger] marines[j]).id != pre.owner
                            ==> !marine_hit_at(nx, ny, hx, hy, marines[j])
                    &&& post.state.lifetime_ms == 0
                    &&& sat_sub_spec(pre.state.lifetime_ms as int, dt) == 0
                    &&& post.state.spent
                    &&& post.anim == pre.anim
                },
                BulletOutcome::Flying => {
                    &&& forall|j: int|
                        0 <= j < terrain.len() ==> !rect_hit_at(
                            nx,
                            ny,
                            hx,
                            hy,
                            #[trigger] terrain[j],
                        )
                    &&& forall|j: int|
                        0 <= j < marines.len() && (#[trigger] marines[j]).id != pre.owner
                            ==> !marine_hit_at(nx, ny, hx, hy, marines[j])
                    &&& post.state.lifetime_ms == sat_sub_spec(
                        pre.state.lifetime_ms as int,
                        dt,
                    )
                    &&& post.state.lifetime_ms > 0
                    &&& !post.state.spent
                    &&& post.anim == pre.anim
                },
            }
        })
}

/// BulletCollisionSystem, one bullet. A spent bullet is untouched. A
/// flying one is translated by its fixed velocity, then tested against
/// terrain first, then against marines other than its owner — the first
/// hit wins, in storage order, and a bullet never registers two hits in
/// one frame. On a hit it is marked spent and switched to the one-shot
/// impact track; on expiry it is marked spent with its animation left
/// alone. Damage is owed exactly when the outcome names a marine.
pub fn bullet_collision_step(
    b: &mut Bullet,
    terrain: &Vec<Rect>,
    marines: &Vec<Marine>,
    dt_ms: u32,
) -> (o: BulletOutcome)
    requires
        bullet_wf(*old(b)),
        forall|j: int| 0 <= j < terrain@.len() ==> rect_wf(#[trigger] terrain@[j]),
        forall|j: int| 0 <= j < marines@.len() ==> marine_wf(#[trigger] marines@[j]),
    ensures
        bullet_wf(*final(b)),
        collision_step_rel(*old(b), *final(b), o, terrain@, marines@, dt_ms as int),
        o == collision_outcome_spec(*old(b), terrain@, marines@, dt_ms as int),
        *final(b) == collision_post_spec(*old(b), terrain@, marines@, dt_ms as int),
{
    if b.state.spent {
        return BulletOutcome::Inert;
    }
    let sx = scale_milli(b.state.vx, dt_ms);
    b.transform.x = clamp_i64(b.transform.x + sx, -POS_LIMIT_MILLI, POS_LIMIT_MILLI);
    let sy = scale_milli(b.state.vy, dt_ms);
    b.transform.y = clamp_i64(b.transform.y + sy, -POS_LIMIT_MILLI, POS_LIMIT_MILLI);

    let x = b.transform.x;
    let y = b.transform.y;
    let hx = b.bounds.half_x;
    let hy = b.bounds.half_y;

    let n = terrain.len();
    let mut j: usize = 0;
    while j < n
        invariant
            n == terrain@.len(),
            0 <= j <= n,
            forall|k: int| 0 <= k < terrain@.len() ==> rect_wf(#[trigger] terrain@[k]),
            forall|k: int| 0 <= k < j ==> !rect_hit_at(x as int, y as int, hx as int, hy as int, #[trigger] terrain@[k]),
            first_rect_hit_upto(x as int, y as int, hx as int, hy as int, terrain@, j as int)
                is None,
            !old(b).state.spent,
            b.id == old(b).id,
            b.owner == old(b).owner,
            b.state == old(b).state,
            b.anim == old(b).anim,
            b.bounds == old(b).bounds,
            b.transform.layer == old(b).transform.layer,
            b.transform.x == bullet_new_x(*old(b), dt_ms as int),
            b.transform.y == bullet_new_y(*old(b), dt_ms as int),
            bullet_wf(*b),
            x == b.transform.x,
            y == b.transform.y,
            hx == b.bounds.half_x,
            hy == b.bounds.half_y,
        decreases n - j,
    {
        let r = terrain[j];
        if crate::geometry::overlaps_rect(&b.transform, &b.bounds, &r) {
            b.state.spent = true;
            b.anim = fresh_track(TrackId::BulletImpact);
            proof {
                assert(first_rect_hit_upto(
                    x as int,
                    y as int,
                    hx as int,
                    hy as int,
                    terrain@,
                    j + 1,
                ) == Some(j as int));
                lemma_first_rect_hit_stable(
                    x as int,
                    y as int,
                    hx as int,
                    hy as int,
                    terrain@,
                    j + 1,
                    n as int,
                );
            }
            return BulletOutcome::HitTerrain { rect: j };
        }
        j = j + 1;
    }

    let nm = marines.len();
    let mut k: usize = 0;
    while k < nm
        invariant
            nm == marines@.len(),
            0 <= k <= nm,
            forall|t: int| 0 <= t < marines@.len() ==> marine_wf(#[trigger] marines@[t]),
            forall|t: int|
                0 <= t < k && (#[trigger] marines@[t]).id != b.owner ==> !marine_hit_at(
                    x as int,
                    y as int,
                    hx as int,
                    hy as int,
                    marines@[t],
                ),
            first_rect_hit_upto(x as int, y as int, hx as int, hy as int, terrain@, terrain@.len() as int)
                is None,
            first_marine_hit_upto(x as int, y as int, hx as int, hy as int, b.owner, marines@, k as int)
                is None,
            forall|k2: int|
                0 <= k2 < terrain@.len() ==> !rect_hit_at(
                    x as int,
                    y as int,
                    hx as int,
                    hy as int,
                    #[trigger] terrain@[k2],
                ),
            !old(b).state.spent,
            b.id == old(b).id,
            b.owner == old(b).owner,
            b.state == old(b).state,
            b.anim == old(b).anim,
            b.bounds == old(b).bounds,
            b.transform.layer == old(b).transform.layer,
            b.transform.x == bullet_new_x(*old(b), dt_ms as int),
            b.transform.y == bullet_new_y(*old(b), dt_ms as int),
            bullet_wf(*b),
            x == b.transform.x,
            y == b.transform.y,
            hx == b.bounds.half_x,
            hy == b.bounds.half_y,
        decreases nm - k,
    {
        let m = &marines[k];
        if m.id != b.owner {
            if crate::geometry::bodies_overlap(&b.transform, &b.bounds, &m.transform, &m.bounds) {
                b.state.spent = true;
                b.anim = fresh_track(TrackId::BulletImpact);
                proof {
                    assert(first_marine_hit_upto(
                        x as int,
                        y as int,
                        hx as int,
                        hy as int,
                        b.owner,
                        marines@,
                        k + 1,
                    ) == Some(k as int));
                    lemma_first_marine_hit_stable(
                        x as int,
                        y as int,
                        hx as int,
                        hy as int,
                        b.owner,
                        marines@,
                        k + 1,
                        nm as int,
                    );
                }
                return BulletOutcome::HitMarine { marine: k };
            }
        }
        k = k + 1;
    }

    let lt = sat_sub_u32(b.state.lifetime_ms, dt_ms);
    b.state.lifetime_ms = lt;
    if lt == 0 {
        b.state.spent = true;
        BulletOutcome::Expired
    } else {
        BulletOutcome::Flying
    }
}

/// Hit registration is idempotent: a bullet delivers damage at most once
/// in its lifetime. If one collision frame reports a hit for a bullet,
/// that frame leaves it spent, so any later collision frame — whatever the
/// terrain, the marines or the elapsed time by then — leaves it untouched
/// and reports it inert, never a second hit.
pub proof fn lemma_hit_registration_idempotent(
    b0: Bullet,
    b1: Bullet,
    b2: Bullet,
    o1: BulletOutcome,
    o2: BulletOutcome,
    terrain1: Seq<Rect>,
    marines1: Seq<Marine>,
    dt1: int,
    terrain2: Seq<Rect>,
    marines2: Seq<Marine>,
    dt2: int,
)
    requires
        collision_step_rel(b0, b1, o1, terrain1, marines1, dt1),
        collision_step_rel(b1, b2, o2, terrain2, marines2, dt2),
        o1 matches BulletOutcome::HitMarine { .. } || o1 matches BulletOutcome::HitTerrain { .. },
    ensures
        o2 == BulletOutcome::Inert,
        b2 == b1,
        b1.state.spent,
        b2.state.spent,
{
}

/// The spent flag is monotone over any chain of collision frames: once a
/// frame leaves a bullet spent, every later frame leaves it spent.
pub proof fn lemma_spent_monotone(
    b0: Bullet,
    b1: Bullet,
    o: BulletOutcome,
    terrain: Seq<Rect>,
    marines: Seq<Marine>,
    dt: int,
)
    requires
        collision_step_rel(b0, b1, o, terrain, marines, dt),
        b0.state.spent,
    ensures
        b1.state.spent,
        b1 == b0,
{
}

} // verus!
