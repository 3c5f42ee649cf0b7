//! Axis-aligned boxes: static terrain rectangles and the overlap test all
//! collision in this crate uses. Overlap is strict interval overlap on both
//! axes, so boxes that merely touch do not collide — a marine resting
//! exactly on a platform top does not penetrate it.

use vstd::prelude::*;
use crate::POS_LIMIT_MILLI;
use crate::components::{Transform, CollisionBounds};

verus! {

/// A static terrain rectangle, corners in milliunits, `min <= max` on both
/// axes and inside the playfield.
#[derive(Clone, Copy, PartialEq, Eq, Structural, Debug)]
pub struct Rect {
    pub min_x: i64,
    pub min_y: i64,
    pub max_x: i64,
    pub max_y: i64,
}

pub open spec fn rect_wf(r: Rect) -> bool {
    &&& -POS_LIMIT_MILLI <= r.min_x <= r.max_x <= POS_LIMIT_MILLI
    &&& -POS_LIMIT_MILLI <= r.min_y <= r.max_y <= POS_LIMIT_MILLI
}

/// The rectangle covered by a collision box centered on `t`, as exact
/// integer bounds.
pub open spec fn body_min_x(t: Transform, b: CollisionBounds) -> int {
    t.x - b.half_x
}

pub open spec fn body_max_x(t: Transform, b: CollisionBounds) -> int {
    t.x + b.half_x
}

pub open spec fn body_min_y(t: Transform, b: CollisionBounds) -> int {
    t.y - b.half_y
}

pub open spec fn body_max_y(t: Transform, b: CollisionBounds) -> int {
    t.y + b.half_y
}

/// Strict overlap of the two x-intervals.
pub open spec fn overlap_x_spec(t: Transform, b: CollisionBounds, r: Rect) -> bool {
    body_min_x(t, b) < r.max_x && r.min_x < body_max_x(t, b)
}

/// Strict overlap of the two y-intervals.
pub open spec fn overlap_y_spec(t: Transform, b: CollisionBounds, r: Rect) -> bool {
    body_min_y(t, b) < r.max_y && r.min_y < body_max_y(t, b)
}

/// AABB–AABB overlap: strict interval overlap on both axes.
pub open spec fn overlap_spec(t: Transform, b: CollisionBounds, r: Rect) -> bool {
    overlap_x_spec(t, b, r) && overlap_y_spec(t, b, r)
}

/// Strict overlap of two moving bodies' boxes.
pub open spec fn bodies_overlap_spec(
    ta: Transform,
    ba: CollisionBounds,
    tb: Transform,
    bb: CollisionBounds,
) -> bool {
    &&& body_min_x(ta, ba) < body_max_x(tb, bb)
    &&& body_min_x(tb, bb) < body_max_x(ta, ba)
    &&& body_min_y(ta, ba) < body_max_y(tb, bb)
    &&& body_min_y(tb, bb) < body_max_y(ta, ba)
}

/// Tests a body's box against a terrain rectangle.
pub fn overlaps_rect(t: &Transform, b: &CollisionBounds, r: &Rect) -> (o: bool)
    requires
        crate::components::transform_wf(*t),
        crate::components::bounds_wf(*b),
        rect_wf(*r),
    ensures
        o == overlap_spec(*t, *b, *r),
{
    t.x - b.half_x < r.max_x && r.min_x < t.x + b.half_x && t.y - b.half_y < r.max_y && r.min_y
        < t.y + b.half_y
}

/// Tests two bodies' boxes against each other.
pub fn bodies_overlap(
    ta: &Transform,
    ba: &CollisionBounds,
    tb: &Transform,
    bb: &CollisionBounds,
) -> (o: bool)
    requires
        crate::components::transform_wf(*ta),
        crate::components::bounds_wf(*ba),
        crate::components::transform_wf(*tb),
        crate::components::bounds_wf(*bb),
    ensures
        o == bodies_overlap_spec(*ta, *ba, *tb, *bb),
{
    ta.x - ba.half_x < tb.x + bb.half_x && tb.x - bb.half_x < ta.x + ba.half_x && ta.y - ba.half_y
        < tb.y + bb.half_y && tb.y - bb.half_y < ta.y + ba.half_y
}

} // verus!
