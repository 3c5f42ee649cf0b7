//! The two marine physics systems.
//!
//! MarineAccelerationSystem turns the pressed directions into an
//! acceleration, integrates velocity with friction toward zero when no
//! direction is held, clamps horizontal speed, applies jump and gravity,
//! and integrates position within the playfield.
//!
//! MarineCollisionSystem resolves the marine against static terrain:
//! vertical penetration first (landing on a platform top sets the grounded
//! flag, zeroes downward velocity and snaps the feet onto the surface),
//! then horizontal penetration (a wall halts horizontal velocity and
//! clamps the position at its face). The vertical-first order prevents a
//! diagonal approach from clipping through a platform corner.

use vstd::prelude::*;
use crate::{
    MARINE_MAX_VELOCITY_MILLI, MARINE_ACCEL_MILLI, MARINE_FRICTION_MILLI, GRAVITY_MILLI,
    MAX_FALL_SPEED_MILLI, JUMP_SPEED_MILLI, POS_LIMIT_MILLI,
};
use crate::math::{clamp_spec, scale_spec, toward_zero_spec, clamp_i64, scale_milli, toward_zero};
use crate::input::InputState;
use crate::components::Facing;
use crate::entities::{Marine, marine_wf};
use crate::geometry::{Rect, rect_wf};

verus! {

/// Horizontal acceleration commanded by the pressed directions; zero when
/// neither or both are held.
pub open spec fn accel_input_spec(input: InputState) -> int {
    if input.move_right && !input.move_left {
        MARINE_ACCEL_MILLI as int
    } else if input.move_left && !input.move_right {
        -MARINE_ACCEL_MILLI
    } else {
        0
    }
}

/// Horizontal velocity after one frame: accelerate and clamp while a
/// direction is held, otherwise decay toward zero by friction.
pub open spec fn new_vx_spec(vx: int, input: InputState, dt: int) -> int {
    let ax = accel_input_spec(input);
    if ax != 0 {
        clamp_spec(vx + scale_spec(ax, dt), -MARINE_MAX_VELOCITY_MILLI, MARINE_MAX_VELOCITY_MILLI as int)
    } else {
        toward_zero_spec(vx, scale_spec(MARINE_FRICTION_MILLI as int, dt))
    }
}

/// Vertical velocity after one frame: a grounded jump sets the jump speed,
/// then gravity pulls down, floored at the terminal fall speed.
pub open spec fn new_vy_spec(vy: int, grounded: bool, jump: bool, dt: int) -> int {
    let v0 = if jump && grounded {
        JUMP_SPEED_MILLI as int
    } else {
        vy
    };
    let v1 = v0 - scale_spec(GRAVITY_MILLI as int, dt);
    if v1 < -MAX_FALL_SPEED_MILLI {
        -MAX_FALL_SPEED_MILLI
    } else {
        v1
    }
}

/// Facing after one frame: follows the sign of the new horizontal
/// velocity, kept when it is zero.
pub open spec fn new_facing_spec(facing: Facing, vx1: int) -> Facing {
    if vx1 > 0 {
        Facing::Right
    } else if vx1 < 0 {
        Facing::Left
    } else {
        facing
    }
}

/// One position coordinate integrated by its velocity, clamped into the
/// playfield.
pub open spec fn new_pos_spec(p: int, v: int, dt: int) -> int {
    clamp_spec(p + scale_spec(v, dt), -POS_LIMIT_MILLI, POS_LIMIT_MILLI as int)
}

/// One frame of horizontal speed control keeps the speed clamped.
pub proof fn lemma_vx_clamped(vx: int, input: InputState, dt: int)
    requires
        -MARINE_MAX_VELOCITY_MILLI <= vx <= MARINE_MAX_VELOCITY_MILLI,
        0 <= dt,
    ensures
        -MARINE_MAX_VELOCITY_MILLI <= new_vx_spec(vx, input, dt) <= MARINE_MAX_VELOCITY_MILLI,
{
}

/// The horizontal velocity reached from `vx0` after a whole sequence of
/// frames, each with its input snapshot and elapsed time.
pub open spec fn vx_after_frames(vx0: int, frames: Seq<(InputState, int)>) -> int
    decreases frames.len(),
{
    if frames.len() == 0 {
        vx0
    } else {
        vx_after_frames(new_vx_spec(vx0, frames[0].0, frames[0].1), frames.drop_first())
    }
}

/// For every Δt ≥ 0 and every input sequence, the marine's horizontal
/// speed never exceeds the clamp after any number of acceleration frames.
pub proof fn lemma_vx_clamped_over_frames(vx0: int, frames: Seq<(InputState, int)>)
    requires
        -MARINE_MAX_VELOCITY_MILLI <= vx0 <= MARINE_MAX_VELOCITY_MILLI,
        forall|i: int| 0 <= i < frames.len() ==> 0 <= #[trigger] frames[i].1,
    ensures
        -MARINE_MAX_VELOCITY_MILLI <= vx_after_frames(vx0, frames) <= MARINE_MAX_VELOCITY_MILLI,
    decreases frames.len(),
{
    if frames.len() > 0 {
        lemma_vx_clamped(vx0, frames[0].0, frames[0].1);
        let rest = frames.drop_first();
        assert(forall|i: int| 0 <= i < rest.len() ==> 0 <= #[trigger] rest[i].1) by {
            assert(forall|i: int| 0 <= i < rest.len() ==> rest[i] == frames[i + 1]);
        }
        lemma_vx_clamped_over_frames(new_vx_spec(vx0, frames[0].0, frames[0].1), rest);
    }
}

/// While move-right alone is held, a rightward-or-resting marine's
/// horizontal velocity never decreases, and stays clamped.
pub proof fn lemma_vx_ramps_right(vx: int, input: InputState, dt: int)
    requires
        0 <= vx <= MARINE_MAX_VELOCITY_MILLI,
        input.move_right,
        !input.move_left,
        0 <= dt,
    ensures
        vx <= new_vx_spec(vx, input, dt) <= MARINE_MAX_VELOCITY_MILLI,
{
}

/// Holding move-right over any whole sequence of frames, a marine
/// starting at rest (or already moving right) only gains speed, up to the
/// clamp: the ramp toward the cap is monotone, never overshooting it.
pub proof fn lemma_vx_ramps_right_over_frames(vx0: int, frames: Seq<(InputState, int)>)
    requires
        0 <= vx0 <= MARINE_MAX_VELOCITY_MILLI,
        forall|i: int|
            0 <= i < frames.len() ==> {
                &&& 0 <= (#[trigger] frames[i]).1
                &&& frames[i].0.move_right
                &&& !frames[i].0.move_left
            },
    ensures
        vx0 <= vx_after_frames(vx0, frames) <= MARINE_MAX_VELOCITY_MILLI,
    decreases frames.len(),
{
    if frames.len() > 0 {
        lemma_vx_ramps_right(vx0, frames[0].0, frames[0].1);
        let rest = frames.drop_first();
        assert(forall|i: int|
            0 <= i < rest.len() ==> {
                &&& 0 <= (#[trigger] rest[i]).1
                &&& rest[i].0.move_right
                &&& !rest[i].0.move_left
            }) by {
            assert(forall|i: int| 0 <= i < rest.len() ==> rest[i] == frames[i + 1]);
        }
        lemma_vx_ramps_right_over_frames(new_vx_spec(vx0, frames[0].0, frames[0].1), rest);
    }
}

/// Everything MarineAccelerationSystem does to one marine in one frame,
/// as a relation between the marine before and after.
pub open spec fn accel_rel(pre: Marine, post: Marine, input: InputState, dt: int) -> bool {
    &&& post.accel.ax == accel_input_spec(input)
    &&& post.velocity.vx == new_vx_spec(pre.velocity.vx as int, input, dt)
    &&& post.velocity.vy == new_vy_spec(pre.velocity.vy as int, pre.state.grounded, input.jump, dt)
    &&& post.transform.x == new_pos_spec(pre.transform.x as int, post.velocity.vx as int, dt)
    &&& post.transform.y == new_pos_spec(pre.transform.y as int, post.velocity.vy as int, dt)
    &&& post.transform.layer == pre.transform.layer
    &&& post.state.facing == new_facing_spec(pre.state.facing, post.velocity.vx as int)
    &&& post.state.attacking == pre.state.attacking
    &&& post.state.attack_timer_ms == pre.state.attack_timer_ms
    &&& post.state.grounded == pre.state.grounded
    &&& post.id == pre.id
    &&& post.cooldown == pre.cooldown
    &&& post.bounds == pre.bounds
    &&& post.anim == pre.anim
}

/// MarineAccelerationSystem, one marine: acceleration from input, velocity
/// integration with friction and clamps, facing from the velocity sign,
/// position integration. Purely numeric; no error conditions.
pub fn marine_acceleration_step(m: &mut Marine, input: &InputState, dt_ms: u32)
    requires
        marine_wf(*old(m)),
    ensures
        marine_wf(*final(m)),
        accel_rel(*old(m), *final(m), *input, dt_ms as int),
        -MARINE_MAX_VELOCITY_MILLI <= final(m).velocity.vx <= MARINE_MAX_VELOCITY_MILLI,
{
    let ax: i64 = if input.move_right && !input.move_left {
        MARINE_ACCEL_MILLI
    } else if input.move_left && !input.move_right {
        -MARINE_ACCEL_MILLI
    } else {
        0
    };
    m.accel.ax = ax;

    let vx1: i64 = if ax != 0 {
        let dv = scale_milli(ax, dt_ms);
        clamp_i64(m.velocity.vx + dv, -MARINE_MAX_VELOCITY_MILLI, MARINE_MAX_VELOCITY_MILLI)
    } else {
        let decay = scale_milli(MARINE_FRICTION_MILLI, dt_ms);
        toward_zero(m.velocity.vx, decay)
    };
    m.velocity.vx = vx1;

    let v0: i64 = if input.jump && m.state.grounded {
        JUMP_SPEED_MILLI
    } else {
        m.velocity.vy
    };
    let g = scale_milli(GRAVITY_MILLI, dt_ms);
    let v1: i64 = v0 - g;
    m.velocity.vy = if v1 < -MAX_FALL_SPEED_MILLI {
        -MAX_FALL_SPEED_MILLI
    } else {
        v1
    };

    if vx1 > 0 {
        m.state.facing = Facing::Right;
    } else if vx1 < 0 {
        m.state.facing = Facing::Left;
    }

    let sx = scale_milli(m.velocity.vx, dt_ms);
    m.transform.x = clamp_i64(m.transform.x + sx, -POS_LIMIT_MILLI, POS_LIMIT_MILLI);
    let sy = scale_milli(m.velocity.vy, dt_ms);
    m.transform.y = clamp_i64(m.transform.y + sy, -POS_LIMIT_MILLI, POS_LIMIT_MILLI);
}

/// How far a marine moving at vertical speed `vy` descended this frame:
/// the distance its feet swept downward, zero when it is not falling.
pub open spec fn frame_descent_spec(vy: int, dt: int) -> int {
    if vy < 0 {
        -scale_spec(vy, dt)
    } else {
        0
    }
}

/// One terrain rectangle of the vertical pass over the state
/// `(y, vy, grounded)`. A marine moving down lands on a rectangle when its
/// feet end the frame at or below the rectangle's top, but no deeper than
/// `drop`, this frame's descent — that is, they started the frame at or
/// above the top. However large the frame time, a platform top the feet
/// swept across is caught, never tunnelled through.
pub open spec fn vert_step(
    x: int,
    hx: int,
    hy: int,
    drop: int,
    st: (int, int, bool),
    r: Rect,
) -> (int, int, bool) {
    if (x - hx < r.max_x && r.min_x < x + hx) && st.1 <= 0 && r.max_y - drop <= st.0 - hy
        <= r.max_y {
        (r.max_y + hy, 0, true)
    } else {
        st
    }
}

/// The vertical pass folded over the first `i` terrain rectangles.
pub open spec fn vert_upto(
    x: int,
    hx: int,
    hy: int,
    drop: int,
    st0: (int, int, bool),
    terrain: Seq<Rect>,
    i: int,
) -> (int, int, bool)
    decreases i,
{
    if i <= 0 {
        st0
    } else {
        vert_step(x, hx, hy, drop, vert_upto(x, hx, hy, drop, st0, terrain, i - 1), terrain[i - 1])
    }
}

/// One terrain rectangle of the horizontal pass over the state `(x, vx)`,
/// evaluated at the vertically resolved height `y`: a penetrated wall
/// pushes the marine out through its nearer face and halts it.
pub open spec fn horiz_step(y: int, hx: int, hy: int, st: (int, int), r: Rect) -> (int, int) {
    if (y - hy < r.max_y && r.min_y < y + hy) && (st.0 - hx < r.max_x && r.min_x < st.0 + hx) {
        if st.0 - r.min_x <= r.max_x - st.0 {
            (r.min_x - hx, 0)
        } else {
            (r.max_x + hx, 0)
        }
    } else {
        st
    }
}

/// The horizontal pass folded over the first `i` terrain rectangles.
pub open spec fn horiz_upto(
    y: int,
    hx: int,
    hy: int,
    st0: (int, int),
    terrain: Seq<Rect>,
    i: int,
) -> (int, int)
    decreases i,
{
    if i <= 0 {
        st0
    } else {
        horiz_step(y, hx, hy, horiz_upto(y, hx, hy, st0, terrain, i - 1), terrain[i - 1])
    }
}

/// The vertical pass keeps the state within the well-formedness bounds.
pub proof fn lemma_vert_upto_bounds(
    x: int,
    hx: int,
    hy: int,
    drop: int,
    st0: (int, int, bool),
    terrain: Seq<Rect>,
    i: int,
    lo: int,
    hi: int,
)
    requires
        0 < hy <= crate::HALF_EXTENT_LIMIT_MILLI,
        -crate::POS_WF_LIMIT_MILLI <= st0.0 <= crate::POS_WF_LIMIT_MILLI,
        lo <= st0.1 <= hi,
        lo <= 0 <= hi,
        forall|j: int| 0 <= j < terrain.len() ==> rect_wf(#[trigger] terrain[j]),
        0 <= i <= terrain.len(),
    ensures
        -crate::POS_WF_LIMIT_MILLI <= vert_upto(x, hx, hy, drop, st0, terrain, i).0
            <= crate::POS_WF_LIMIT_MILLI,
        lo <= vert_upto(x, hx, hy, drop, st0, terrain, i).1 <= hi,
    decreases i,
{
    if i > 0 {
        lemma_vert_upto_bounds(x, hx, hy, drop, st0, terrain, i - 1, lo, hi);
    }
}

/// The horizontal pass keeps the state within the well-formedness bounds.
pub proof fn lemma_horiz_upto_bounds(
    y: int,
    hx: int,
    hy: int,
    st0: (int, int),
    terrain: Seq<Rect>,
    i: int,
    lo: int,
    hi: int,
)
    requires
        0 < hx <= crate::HALF_EXTENT_LIMIT_MILLI,
        -crate::POS_WF_LIMIT_MILLI <= st0.0 <= crate::POS_WF_LIMIT_MILLI,
        lo <= st0.1 <= hi,
        lo <= 0 <= hi,
        forall|j: int| 0 <= j < terrain.len() ==> rect_wf(#[trigger] terrain[j]),
        0 <= i <= terrain.len(),
    ensures
        -crate::POS_WF_LIMIT_MILLI <= horiz_upto(y, hx, hy, st0, terrain, i).0
            <= crate::POS_WF_LIMIT_MILLI,
        lo <= horiz_upto(y, hx, hy, st0, terrain, i).1 <= hi,
    decreases i,
{
    if i > 0 {
        lemma_horiz_upto_bounds(y, hx, hy, st0, terrain, i - 1, lo, hi);
    }
}

/// Everything MarineCollisionSystem does to one marine in one frame, as a
/// relation between the marine before and after: the vertical fold over
/// the terrain, then the horizontal fold at the resolved height.
pub open spec fn collision_rel(pre: Marine, post: Marine, terrain: Seq<Rect>, dt: int) -> bool {
    let v = vert_upto(
        pre.transform.x as int,
        pre.bounds.half_x as int,
        pre.bounds.half_y as int,
        frame_descent_spec(pre.velocity.vy as int, dt),
        (pre.transform.y as int, pre.velocity.vy as int, false),
        terrain,
        terrain.len() as int,
    );
    let h = horiz_upto(
        v.0,
        pre.bounds.half_x as int,
        pre.bounds.half_y as int,
        (pre.transform.x as int, pre.velocity.vx as int),
        terrain,
        terrain.len() as int,
    );
    &&& post.transform.y == v.0
    &&& post.velocity.vy == v.1
    &&& post.state.grounded == v.2
    &&& post.transform.x == h.0
    &&& post.velocity.vx == h.1
    &&& post.transform.layer == pre.transform.layer
    &&& post.state.facing == pre.state.facing
    &&& post.state.attacking == pre.state.attacking
    &&& post.state.attack_timer_ms == pre.state.attack_timer_ms
    &&& post.id == pre.id
    &&& post.accel == pre.accel
    &&& post.cooldown == pre.cooldown
    &&& post.bounds == pre.bounds
    &&& post.anim == pre.anim
}

/// MarineCollisionSystem, one marine: vertical resolution over the whole
/// terrain, then horizontal resolution at the resolved height. Writes the
/// grounded flag the animation system reads.
pub fn marine_collision_step(m: &mut Marine, terrain: &Vec<Rect>, dt_ms: u32)
    requires
        marine_wf(*old(m)),
        forall|j: int| 0 <= j < terrain@.len() ==> rect_wf(#[trigger] terrain@[j]),
    ensures
        marine_wf(*final(m)),
        collision_rel(*old(m), *final(m), terrain@, dt_ms as int),
{
    let x0 = m.transform.x;
    let hx = m.bounds.half_x;
    let hy = m.bounds.half_y;
    let drop: i64 = if m.velocity.vy < 0 {
        -scale_milli(m.velocity.vy, dt_ms)
    } else {
        0
    };
    let ghost st0 = (m.transform.y as int, m.velocity.vy as int, false);

    let mut y = m.transform.y;
    let mut vy = m.velocity.vy;
    let mut grounded = false;
    let n = terrain.len();
    let mut i: usize = 0;
    while i < n
        invariant
            n == terrain@.len(),
            0 <= i <= n,
            marine_wf(*old(m)),
            x0 == old(m).transform.x,
            hx == old(m).bounds.half_x,
            hy == old(m).bounds.half_y,
            st0 == (old(m).transform.y as int, old(m).velocity.vy as int, false),
            drop == frame_descent_spec(old(m).velocity.vy as int, dt_ms as int),
            0 <= drop <= 100_000 * 0x1_0000_0000,
            forall|j: int| 0 <= j < terrain@.len() ==> rect_wf(#[trigger] terrain@[j]),
            (y as int, vy as int, grounded) == vert_upto(
                x0 as int,
                hx as int,
                hy as int,
                drop as int,
                st0,
                terrain@,
                i as int,
            ),
            -crate::POS_WF_LIMIT_MILLI <= y <= crate::POS_WF_LIMIT_MILLI,
            -MAX_FALL_SPEED_MILLI <= vy <= JUMP_SPEED_MILLI,
        decreases n - i,
    {
        let r = terrain[i];
        if (x0 - hx < r.max_x && r.min_x < x0 + hx) && vy <= 0 && r.max_y - drop <= y - hy && y
            - hy <= r.max_y {
            y = r.max_y + hy;
            vy = 0;
            grounded = true;
        }
        i = i + 1;
    }
    m.transform.y = y;
    m.velocity.vy = vy;
    m.state.grounded = grounded;

    let mut x = m.transform.x;
    let mut vx = m.velocity.vx;
    let ghost hst0 = (old(m).transform.x as int, old(m).velocity.vx as int);
    let mut k: usize = 0;
    while k < n
        invariant
            n == terrain@.len(),
            0 <= k <= n,
            marine_wf(*old(m)),
            hx == old(m).bounds.half_x,
            hy == old(m).bounds.half_y,
            hst0 == (old(m).transform.x as int, old(m).velocity.vx as int),
            forall|j: int| 0 <= j < terrain@.len() ==> rect_wf(#[trigger] terrain@[j]),
            -crate::POS_WF_LIMIT_MILLI <= y <= crate::POS_WF_LIMIT_MILLI,
            (x as int, vx as int) == horiz_upto(
                y as int,
                hx as int,
                hy as int,
                hst0,
                terrain@,
                k as int,
            ),
            -crate::POS_WF_LIMIT_MILLI <= x <= crate::POS_WF_LIMIT_MILLI,
            -MARINE_MAX_VELOCITY_MILLI <= vx <= MARINE_MAX_VELOCITY_MILLI,
        decreases n - k,
    {
        let r = terrain[k];
        if (y - hy < r.max_y && r.min_y < y + hy) && (x - hx < r.max_x && r.min_x < x + hx) {
            if x - r.min_x <= r.max_x - x {
                x = r.min_x - hx;
            } else {
                x = r.max_x + hx;
            }
            vx = 0;
        }
        k = k + 1;
    }
    m.transform.x = x;
    m.velocity.vx = vx;
}


/// A marine at rest, feet exactly on a platform top and strictly inside
/// its horizontal extent, with no input, ends one physics frame (the
/// acceleration pass then the collision pass) exactly where it started:
/// gravity sinks it no deeper than the frame's descent, the vertical pass
/// snaps it back onto the surface, velocity returns to zero and the
/// grounded flag is set.
pub proof fn lemma_resting_marine_holds_position(
    pre: Marine,
    mid: Marine,
    post: Marine,
    r: Rect,
    terrain: Seq<Rect>,
    input: InputState,
    dt: int,
)
    requires
        marine_wf(pre),
        rect_wf(r),
        terrain.len() == 1,
        terrain[0] == r,
        accel_rel(pre, mid, input, dt),
        collision_rel(mid, post, terrain, dt),
        !input.move_left,
        !input.move_right,
        !input.jump,
        0 <= dt,
        pre.velocity.vx == 0,
        pre.velocity.vy == 0,
        pre.transform.y - pre.bounds.half_y == r.max_y,
        r.min_x < pre.transform.x - pre.bounds.half_x,
        pre.transform.x + pre.bounds.half_x < r.max_x,
        -POS_LIMIT_MILLI <= pre.transform.x <= POS_LIMIT_MILLI,
        -POS_LIMIT_MILLI <= pre.transform.y <= POS_LIMIT_MILLI,
    ensures
        post.transform.x == pre.transform.x,
        post.transform.y == pre.transform.y,
        post.velocity.vx == 0,
        post.velocity.vy == 0,
        post.state.grounded,
{
    let g = scale_spec(GRAVITY_MILLI as int, dt);
    assert(g >= 0);
    assert(mid.velocity.vx == 0);
    assert(mid.velocity.vy <= 0);
    assert(scale_spec(0, dt) == 0) by {
        assert(0 * dt == 0) by (nonlinear_arith);
    }
    assert(mid.transform.x == pre.transform.x);
    let drop = frame_descent_spec(mid.velocity.vy as int, dt);
    assert(drop == -scale_spec(mid.velocity.vy as int, dt));
    assert(pre.transform.y - drop <= mid.transform.y <= pre.transform.y);
    let st0 = (mid.transform.y as int, mid.velocity.vy as int, false);
    let v1 = vert_upto(
        mid.transform.x as int,
        mid.bounds.half_x as int,
        mid.bounds.half_y as int,
        drop,
        st0,
        terrain,
        1,
    );
    assert(vert_upto(
        mid.transform.x as int,
        mid.bounds.half_x as int,
        mid.bounds.half_y as int,
        drop,
        st0,
        terrain,
        0,
    ) == st0);
    assert(v1 == vert_step(
        mid.transform.x as int,
        mid.bounds.half_x as int,
        mid.bounds.half_y as int,
        drop,
        st0,
        r,
    ));
    assert(r.max_y - drop <= mid.transform.y - mid.bounds.half_y <= r.max_y);
    assert(mid.transform.x - mid.bounds.half_x < r.max_x);
    assert(r.min_x < mid.transform.x + mid.bounds.half_x);
    assert(st0.1 <= 0);
    assert(v1 == (r.max_y + mid.bounds.half_y as int, 0int, true));
    assert(post.transform.y == pre.transform.y);
    let h1 = horiz_upto(
        v1.0,
        mid.bounds.half_x as int,
        mid.bounds.half_y as int,
        (mid.transform.x as int, mid.velocity.vx as int),
        terrain,
        1,
    );
    assert(!(v1.0 - mid.bounds.half_y < r.max_y));
    assert(horiz_upto(
        v1.0,
        mid.bounds.half_x as int,
        mid.bounds.half_y as int,
        (mid.transform.x as int, mid.velocity.vx as int),
        terrain,
        0,
    ) == (mid.transform.x as int, mid.velocity.vx as int));
    assert(h1 == horiz_step(
        v1.0,
        mid.bounds.half_x as int,
        mid.bounds.half_y as int,
        (mid.transform.x as int, mid.velocity.vx as int),
        r,
    ));
    assert(h1 == (mid.transform.x as int, 0int));
}

} // verus!
