//! CameraMotionSystem: exponential smooth-follow. Each frame the camera
//! covers a fraction of the remaining distance to its target, so the
//! follow lags smoothly without jitter and never overshoots. A camera
//! whose target entity no longer exists holds its last position.

use vstd::prelude::*;
use crate::{POS_WF_LIMIT_MILLI, CAMERA_SMOOTHING_PER_S};
use crate::math::clamp_spec;

verus! {

/// The fraction of the remaining distance covered this frame, in
/// thousandths, capped at the whole distance.
pub open spec fn camera_fraction_spec(dt: int) -> int {
    clamp_spec(CAMERA_SMOOTHING_PER_S * dt, 0, 1000)
}

/// One camera coordinate moved toward its target: the signed distance is
/// scaled by the frame's fraction, rounding toward zero.
pub open spec fn camera_move_spec(cam: int, target: int, dt: int) -> int {
    let diff = target - cam;
    let f = camera_fraction_spec(dt);
    if diff >= 0 {
        cam + (diff * f) / 1000
    } else {
        cam - ((-diff * f) / 1000)
    }
}

/// The moved coordinate never leaves the closed interval between the old
/// camera position and the target: smooth follow cannot overshoot.
pub proof fn lemma_camera_no_overshoot(cam: int, target: int, dt: int)
    requires
        0 <= dt,
    ensures
        cam <= target ==> cam <= camera_move_spec(cam, target, dt) <= target,
        target <= cam ==> target <= camera_move_spec(cam, target, dt) <= cam,
{
    let diff = target - cam;
    let f = camera_fraction_spec(dt);
    assert(0 <= f <= 1000);
    if diff >= 0 {
        assert(0 <= diff * f <= diff * 1000) by (nonlinear_arith)
            requires
                0 <= diff,
                0 <= f <= 1000,
        ;
        assert(0 <= (diff * f) / 1000 <= (diff * 1000) / 1000);
        assert((diff * 1000) / 1000 == diff);
    } else {
        assert(0 <= -diff * f <= -diff * 1000) by (nonlinear_arith)
            requires
                0 <= -diff,
                0 <= f <= 1000,
        ;
        assert(0 <= (-diff * f) / 1000 <= (-diff * 1000) / 1000);
        assert((-diff * 1000) / 1000 == -diff);
    }
}

/// Moves one camera coordinate toward `target`. With no target the caller
/// simply does not call this and the camera holds position.
pub fn camera_move_coord(cam: i64, target: i64, dt_ms: u32) -> (r: i64)
    requires
        -POS_WF_LIMIT_MILLI <= cam <= POS_WF_LIMIT_MILLI,
        -POS_WF_LIMIT_MILLI <= target <= POS_WF_LIMIT_MILLI,
    ensures
        r == camera_move_spec(cam as int, target as int, dt_ms as int),
        -POS_WF_LIMIT_MILLI <= r <= POS_WF_LIMIT_MILLI,
{
    proof {
        lemma_camera_no_overshoot(cam as int, target as int, dt_ms as int);
    }
    let raw: i64 = CAMERA_SMOOTHING_PER_S * (dt_ms as i64);
    let f: i64 = if raw > 1000 {
        1000
    } else {
        raw
    };
    let diff: i64 = target - cam;
    if diff >= 0 {
        proof {
            assert(0 <= diff * f <= diff * 1000) by (nonlinear_arith)
                requires
                    0 <= diff,
                    0 <= f <= 1000,
            ;
            assert(diff * 1000 <= 3_000_000_000 * 1000) by (nonlinear_arith)
                requires
                    0 <= diff <= 3_000_000_000,
            ;
        }
        cam + (diff * f) / 1000
    } else {
        proof {
            assert(0 <= (-diff) * f <= (-diff) * 1000) by (nonlinear_arith)
                requires
                    0 <= -diff,
                    0 <= f <= 1000,
            ;
            assert((-diff) * 1000 <= 3_000_000_000 * 1000) by (nonlinear_arith)
                requires
                    0 <= -diff <= 3_000_000_000,
            ;
        }
        cam - ((-diff) * f) / 1000
    }
}

} // verus!
