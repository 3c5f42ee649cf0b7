//! Fixed-point scalar helpers shared by every system: clamping, decay
//! toward zero, and scaling a per-second rate by a frame time in
//! milliseconds, rounding toward zero.

use vstd::prelude::*;

verus! {

/// `v` clamped into `[lo, hi]`.
pub open spec fn clamp_spec(v: int, lo: int, hi: int) -> int {
    if v < lo {
        lo
    } else if v > hi {
        hi
    } else {
        v
    }
}

/// `v * dt / 1000`, rounded toward zero: the distance a rate of `v`
/// milliunits per second covers in `dt` milliseconds.
pub open spec fn scale_spec(v: int, dt: int) -> int {
    if v >= 0 {
        (v * dt) / 1000
    } else {
        -((-v * dt) / 1000)
    }
}

/// `v` moved toward zero by `step`, stopping at zero (never crossing it).
pub open spec fn toward_zero_spec(v: int, step: int) -> int {
    if v > 0 {
        if v - step > 0 {
            v - step
        } else {
            0
        }
    } else if v < 0 {
        if v + step < 0 {
            v + step
        } else {
            0
        }
    } else {
        0
    }
}

/// `a - b`, floored at zero.
pub open spec fn sat_sub_spec(a: int, b: int) -> int {
    if a >= b {
        a - b
    } else {
        0
    }
}

pub fn clamp_i64(v: i64, lo: i64, hi: i64) -> (r: i64)
    requires
        lo <= hi,
    ensures
        r == clamp_spec(v as int, lo as int, hi as int),
{
    if v < lo {
        lo
    } else if v > hi {
        hi
    } else {
        v
    }
}

/// Division by 1000 on a non-negative product never grows the magnitude,
/// which bounds every scaled step below.
pub proof fn lemma_scale_bound(v: int, dt: int, b: int)
    requires
        -b <= v <= b,
        0 <= b,
        0 <= dt <= u32::MAX,
    ensures
        -(b * 0x1_0000_0000) <= scale_spec(v, dt) <= b * 0x1_0000_0000,
{
    if v >= 0 {
        assert(v * dt <= b * 0x1_0000_0000) by (nonlinear_arith)
            requires
                0 <= v <= b,
                0 <= dt <= u32::MAX,
        ;
        assert(0 <= v * dt) by (nonlinear_arith)
            requires
                0 <= v,
                0 <= dt,
        ;
        assert(0 <= (v * dt) / 1000 <= v * dt);
    } else {
        assert(-v * dt <= b * 0x1_0000_0000) by (nonlinear_arith)
            requires
                0 <= -v <= b,
                0 <= dt <= u32::MAX,
        ;
        assert(0 <= -v * dt) by (nonlinear_arith)
            requires
                0 <= -v,
                0 <= dt,
        ;
        assert(0 <= (-v * dt) / 1000 <= -v * dt);
    }
}

/// Scales the per-second rate `v` by `dt_ms` milliseconds, rounding toward
/// zero. The bound on `v` keeps the product within `i64`.
pub fn scale_milli(v: i64, dt_ms: u32) -> (r: i64)
    requires
        -100_000 <= v <= 100_000,
    ensures
        r == scale_spec(v as int, dt_ms as int),
        -100_000 * 0x1_0000_0000 <= r <= 100_000 * 0x1_0000_0000,
        v >= 0 ==> 0 <= r,
        v <= 0 ==> r <= 0,
{
    proof {
        lemma_scale_bound(v as int, dt_ms as int, 100_000);
    }
    let dt: i64 = dt_ms as i64;
    if v >= 0 {
        proof {
            assert(0 <= v * dt <= 100_000 * 0x1_0000_0000) by (nonlinear_arith)
                requires
                    0 <= v <= 100_000,
                    0 <= dt <= u32::MAX,
            ;
            if v == 0 {
                assert(v * dt == 0) by (nonlinear_arith)
                    requires
                        v == 0,
                ;
            }
        }
        (v * dt) / 1000
    } else {
        proof {
            assert(0 <= (-v) * dt <= 100_000 * 0x1_0000_0000) by (nonlinear_arith)
                requires
                    0 <= -v <= 100_000,
                    0 <= dt <= u32::MAX,
            ;
        }
        -(((-v) * dt) / 1000)
    }
}

/// Moves `v` toward zero by the non-negative amount `step`.
pub fn toward_zero(v: i64, step: i64) -> (r: i64)
    requires
        0 <= step,
    ensures
        r == toward_zero_spec(v as int, step as int),
        v >= 0 ==> 0 <= r <= v,
        v <= 0 ==> v <= r <= 0,
{
    if v > 0 {
        if v > step {
            v - step
        } else {
            0
        }
    } else if v < 0 {
        if v < -step {
            v + step
        } else {
            0
        }
    } else {
        0
    }
}

/// `a - b`, floored at zero.
pub fn sat_sub_u32(a: u32, b: u32) -> (r: u32)
    ensures
        r == sat_sub_spec(a as int, b as int),
{
    if a >= b {
        a - b
    } else {
        0
    }
}

} // verus!
