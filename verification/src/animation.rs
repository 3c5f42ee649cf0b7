//! Animation systems: advancing a track by the elapsed frame time, the
//! marine's track selection state machine, and the bullet flight / impact
//! animation passes.
//!
//! Frame selection is a pure function of the track and the elapsed time:
//! the timer accumulates, whole per-frame durations convert into frame
//! steps (modulo the frame count for looping tracks, clamped at the last
//! frame for one-shot tracks), and the remainder stays on the timer.

use vstd::prelude::*;
use crate::components::{
    AnimationTrack, TrackId, MarineState, track_wf, fresh_track, fresh_track_spec,
};
use crate::entities::{Marine, Bullet, marine_wf, bullet_wf};

verus! {

/// Milliseconds accumulated on the current frame after adding `dt`.
pub open spec fn anim_total(t: AnimationTrack, dt: int) -> int {
    t.timer_ms + dt
}

/// Whole frames stepped over by the accumulated time.
pub open spec fn anim_steps(t: AnimationTrack, dt: int) -> int {
    anim_total(t, dt) / (t.frame_ms as int)
}

/// Time left on the frame finally shown.
pub open spec fn anim_rem(t: AnimationTrack, dt: int) -> int {
    anim_total(t, dt) % (t.frame_ms as int)
}

/// A one-shot track finishes when the advance steps past its last frame,
/// i.e. the last frame has been shown for its full duration.
pub open spec fn anim_finished(t: AnimationTrack, dt: int) -> bool {
    !t.looping && t.frame + anim_steps(t, dt) >= t.frame_count
}

/// The frame index after the advance.
pub open spec fn advanced_frame(t: AnimationTrack, dt: int) -> int {
    if t.looping {
        (t.frame + anim_steps(t, dt)) % (t.frame_count as int)
    } else if t.frame + anim_steps(t, dt) < t.frame_count {
        t.frame + anim_steps(t, dt)
    } else {
        t.frame_count - 1
    }
}

/// The timer after the advance.
pub open spec fn advanced_timer(t: AnimationTrack, dt: int) -> int {
    if anim_finished(t, dt) {
        0
    } else {
        anim_rem(t, dt)
    }
}

/// Advances a track by `dt_ms`. Returns true exactly when a one-shot track
/// has shown its last frame for the frame's full duration.
pub fn advance_track(t: &mut AnimationTrack, dt_ms: u32) -> (finished: bool)
    requires
        track_wf(*old(t)),
    ensures
        track_wf(*final(t)),
        final(t).track == old(t).track,
        final(t).frame_count == old(t).frame_count,
        final(t).frame_ms == old(t).frame_ms,
        final(t).looping == old(t).looping,
        final(t).frame == advanced_frame(*old(t), dt_ms as int),
        final(t).timer_ms == advanced_timer(*old(t), dt_ms as int),
        finished == anim_finished(*old(t), dt_ms as int),
{
    let total: u64 = t.timer_ms as u64 + dt_ms as u64;
    let fm: u64 = t.frame_ms as u64;
    let steps: u64 = total / fm;
    let rem: u64 = total % fm;
    let stepped: u64 = t.frame as u64 + steps;
    let count: u64 = t.frame_count as u64;
    if t.looping {
        t.frame = (stepped % count) as u32;
        t.timer_ms = rem as u32;
        false
    } else if stepped < count {
        t.frame = stepped as u32;
        t.timer_ms = rem as u32;
        false
    } else {
        t.frame = t.frame_count - 1;
        t.timer_ms = 0;
        true
    }
}

/// The track the marine must show, by precedence
/// attacking > falling > walking > idle: combat overrides locomotion even
/// mid-air, and a grounded marine with horizontal motion always walks.
pub open spec fn select_track_spec(attacking: bool, grounded: bool, vx: int) -> TrackId {
    if attacking {
        TrackId::MarineAttack
    } else if !grounded {
        TrackId::MarineFall
    } else if vx != 0 {
        TrackId::MarineWalk
    } else {
        TrackId::MarineIdle
    }
}

/// Selects the marine's track from its combat state, grounded flag and
/// horizontal velocity. Never yields the idle track while a grounded
/// marine still moves horizontally.
pub fn select_track(state: &MarineState, vx: i64) -> (r: TrackId)
    ensures
        r == select_track_spec(state.attacking, state.grounded, vx as int),
        state.grounded && vx != 0 ==> r != TrackId::MarineIdle,
        !state.attacking && state.grounded && vx != 0 ==> r == TrackId::MarineWalk,
{
    if state.attacking {
        TrackId::MarineAttack
    } else if !state.grounded {
        TrackId::MarineFall
    } else if vx != 0 {
        TrackId::MarineWalk
    } else {
        TrackId::MarineIdle
    }
}

/// Everything MarineAnimationSystem does to one marine in one frame: the
/// selected track is shown, freshly started on a track change, advanced
/// in place otherwise — the frame index resets to 0 only on a change.
pub open spec fn marine_anim_rel(pre: Marine, post: Marine, dt: int) -> bool {
    let target = select_track_spec(pre.state.attacking, pre.state.grounded, pre.velocity.vx as int);
    &&& post.id == pre.id
    &&& post.transform == pre.transform
    &&& post.velocity == pre.velocity
    &&& post.accel == pre.accel
    &&& post.state == pre.state
    &&& post.cooldown == pre.cooldown
    &&& post.bounds == pre.bounds
    &&& post.anim.track == target
    &&& (pre.anim.track != target ==> post.anim == fresh_track_spec(target))
    &&& (pre.anim.track == target ==> {
        &&& post.anim.frame == advanced_frame(pre.anim, dt)
        &&& post.anim.timer_ms == advanced_timer(pre.anim, dt)
        &&& post.anim.frame_count == pre.anim.frame_count
    })
}

/// MarineAnimationSystem: re-selects the track and advances it. The frame
/// index resets to 0 only on a track change, never on a same-track
/// re-evaluation.
pub fn marine_animation_step(m: &mut Marine, dt_ms: u32)
    requires
        marine_wf(*old(m)),
    ensures
        marine_wf(*final(m)),
        marine_anim_rel(*old(m), *final(m), dt_ms as int),
        final(m).anim.track == select_track_spec(
            old(m).state.attacking,
            old(m).state.grounded,
            old(m).velocity.vx as int,
        ),
{
    let target = select_track(&m.state, m.velocity.vx);
    if target != m.anim.track {
        m.anim = fresh_track(target);
    } else {
        advance_track(&mut m.anim, dt_ms);
    }
}

/// Everything BulletAnimationSystem does to one bullet in one frame.
pub open spec fn bullet_anim_rel(pre: Bullet, post: Bullet, dt: int) -> bool {
    &&& post.id == pre.id
    &&& post.owner == pre.owner
    &&& post.transform == pre.transform
    &&& post.state == pre.state
    &&& post.bounds == pre.bounds
    &&& post.anim.track == pre.anim.track
    &&& (pre.state.spent ==> post.anim == pre.anim)
    &&& (!pre.state.spent ==> {
        &&& post.anim.frame == advanced_frame(pre.anim, dt)
        &&& post.anim.timer_ms == advanced_timer(pre.anim, dt)
    })
}

/// BulletAnimationSystem: advances the flight animation of bullets that
/// are still flying; spent bullets are left to the impact pass.
pub fn bullet_animation_step(b: &mut Bullet, dt_ms: u32)
    requires
        bullet_wf(*old(b)),
    ensures
        bullet_wf(*final(b)),
        bullet_anim_rel(*old(b), *final(b), dt_ms as int),
{
    if !b.state.spent {
        advance_track(&mut b.anim, dt_ms);
    }
}

/// BulletImpactAnimationSystem: advances the one-shot impact animation of
/// a spent bullet. Returns true exactly when the impact track's last frame
/// has been shown for its full duration, so the caller may remove the
/// entity only then — the impact is always visible before the despawn.
/// Whether the impact pass finishes this bullet this frame: it is spent,
/// shows the one-shot impact track, and the advance steps past its last
/// frame — the last frame has been shown for its full duration.
pub open spec fn impact_finished_spec(pre: Bullet, dt: int) -> bool {
    pre.state.spent && pre.anim.track == TrackId::BulletImpact && anim_finished(pre.anim, dt)
}

/// The one post-state the impact pass leaves this bullet in: the impact
/// track advanced for a spent bullet showing it, anything else untouched.
pub open spec fn impact_post_spec(pre: Bullet, dt: int) -> Bullet {
    if pre.state.spent && pre.anim.track == TrackId::BulletImpact {
        Bullet {
            id: pre.id,
            owner: pre.owner,
            transform: pre.transform,
            state: pre.state,
            bounds: pre.bounds,
            anim: AnimationTrack {
                track: pre.anim.track,
                frame: advanced_frame(pre.anim, dt) as u32,
                timer_ms: advanced_timer(pre.anim, dt) as u32,
                frame_count: pre.anim.frame_count,
                frame_ms: pre.anim.frame_ms,
                looping: pre.anim.looping,
            },
        }
    } else {
        pre
    }
}

pub open spec fn impact_anim_rel(pre: Bullet, post: Bullet, finished: bool, dt: int) -> bool {
    &&& post.id == pre.id
    &&& post.owner == pre.owner
    &&& post.transform == pre.transform
    &&& post.state == pre.state
    &&& post.anim.track == pre.anim.track
    &&& post.bounds == pre.bounds
    &&& (finished ==> pre.state.spent)
    &&& ((pre.state.spent && pre.anim.track == TrackId::BulletImpact) ==> {
        &&& post.anim.frame == advanced_frame(pre.anim, dt)
        &&& post.anim.timer_ms == advanced_timer(pre.anim, dt)
        &&& finished == anim_finished(pre.anim, dt)
    })
    &&& (!(pre.state.spent && pre.anim.track == TrackId::BulletImpact) ==> {
        &&& post.anim == pre.anim
        &&& !finished
    })
}

pub fn impact_animation_step(b: &mut Bullet, dt_ms: u32) -> (finished: bool)
    requires
        bullet_wf(*old(b)),
    ensures
        bullet_wf(*final(b)),
        impact_anim_rel(*old(b), *final(b), finished, dt_ms as int),
        finished == impact_finished_spec(*old(b), dt_ms as int),
        *final(b) == impact_post_spec(*old(b), dt_ms as int),
{
    if b.state.spent {
        let is_impact = match b.anim.track {
            TrackId::BulletImpact => true,
            _ => false,
        };
        if is_impact {
            return advance_track(&mut b.anim, dt_ms);
        }
    }
    false
}

} // verus!
