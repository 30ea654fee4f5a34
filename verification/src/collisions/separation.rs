//! Boxes with a gap between them along a candidate axis are not in
//! contact; upright boxes with a gap along x are a case of it.

use crate::bodies::VelocityModel;
use crate::collisions::collider_systems::{
    axis_overlap, contact_between, overlaps, proj_max, proj_min, separated,
};
use crate::collisions::{
    candidate_axes, collider_synced, corner_offset, cuboid_axes, cuboid_vertices, ColliderModel,
};
use crate::fixed::{
    fx_add, fx_sub, in_range, is_floor_sqrt, lemma_floor_sqrt_is, lemma_fx_div_self,
    lemma_fx_mul_one, LIMIT, SCALE,
};
use crate::quat::{lemma_identity_turns_nothing, q_identity};
use crate::vector::{v3, v3_dot, v3_normalize, V3};
use vstd::prelude::*;

verus! {

/// Where every point projects between `lo` and `hi`, so do the least
/// and the greatest projection.
pub proof fn lemma_projection_bounds(points: Seq<V3>, axis: V3, lo: int, hi: int)
    requires
        points.len() > 0,
        forall|i: int| 0 <= i < points.len() ==> lo <= v3_dot(axis, #[trigger] points[i]) <= hi,
    ensures
        lo <= proj_min(points, axis) <= proj_max(points, axis) <= hi,
    decreases points.len(),
{
    let rest = points.drop_last();
    let d = v3_dot(axis, points.last());
    assert(in_range(d)) by {
        reveal(v3_dot);
    }
    if rest.len() > 0 {
        assert forall|i: int| 0 <= i < rest.len() implies lo <= v3_dot(axis, #[trigger] rest[i])
            <= hi by {
            assert(rest[i] == points[i]);
        }
        lemma_projection_bounds(rest, axis, lo, hi);
    } else {
        assert(proj_min(rest, axis) == LIMIT);
        assert(proj_max(rest, axis) == -LIMIT);
    }
}

/// Two point sets of which one lies wholly at or below `t` along an
/// axis and the other wholly at or above do not overlap along it.
pub proof fn lemma_gap_separates(a: Seq<V3>, b: Seq<V3>, axis: V3, t: int)
    requires
        a.len() > 0,
        b.len() > 0,
        forall|i: int| 0 <= i < a.len() ==> v3_dot(axis, #[trigger] a[i]) <= t,
        forall|i: int| 0 <= i < b.len() ==> v3_dot(axis, #[trigger] b[i]) >= t,
    ensures
        axis_overlap(a, b, axis) <= 0,
        axis_overlap(b, a, axis) <= 0,
{
    assert forall|i: int| 0 <= i < a.len() implies -LIMIT <= v3_dot(axis, #[trigger] a[i])
        <= t by {
        reveal(v3_dot);
    }
    assert forall|i: int| 0 <= i < b.len() implies t <= v3_dot(axis, #[trigger] b[i])
        <= LIMIT by {
        reveal(v3_dot);
    }
    lemma_projection_bounds(a, axis, -LIMIT, t);
    lemma_projection_bounds(b, axis, t, LIMIT as int);
}

/// Two boxes are not in contact where, along one of their candidate
/// axes, every corner of the one lies at or below `t` and every corner
/// of the other at or above.
pub proof fn lemma_gap_means_no_contact(
    a: ColliderModel,
    a_vel: VelocityModel,
    b: ColliderModel,
    b_vel: VelocityModel,
    i: int,
    t: int,
)
    requires
        0 <= i < candidate_axes(a.axes, b.axes).len(),
        a.vertices.len() > 0,
        b.vertices.len() > 0,
        forall|k: int|
            0 <= k < a.vertices.len() ==> v3_dot(
                v3_normalize(candidate_axes(a.axes, b.axes)[i]),
                #[trigger] a.vertices[k],
            ) <= t,
        forall|k: int|
            0 <= k < b.vertices.len() ==> v3_dot(
                v3_normalize(candidate_axes(a.axes, b.axes)[i]),
                #[trigger] b.vertices[k],
            ) >= t,
    ensures
        contact_between(a, a_vel, b, b_vel) is None,
{
    let axes = candidate_axes(a.axes, b.axes);
    lemma_gap_separates(a.vertices, b.vertices, v3_normalize(axes[i]), t);
    let found = overlaps(axes, a.vertices, b.vertices);
    assert(found[i] <= 0);
    assert(separated(found));
}

/// The first cardinal axis is of unit length already.
pub proof fn lemma_unit_x_is_normal()
    ensures
        v3_normalize(v3(SCALE as int, 0, 0)) == v3(SCALE as int, 0, 0),
{
    reveal(v3_normalize);
    let s = SCALE as int;
    assert(is_floor_sqrt(s * s + 0 * 0 + 0 * 0, s)) by (nonlinear_arith)
        requires
            s == 1_000_000_000,
    ;
    lemma_floor_sqrt_is(s * s + 0 * 0 + 0 * 0, s);
    lemma_fx_div_self(s);
    assert(0 * s == 0);
}

/// Along the first cardinal axis a point projects to its first
/// coordinate.
pub proof fn lemma_projection_onto_unit_x(p: V3)
    requires
        in_range(p.x),
    ensures
        v3_dot(v3(SCALE as int, 0, 0), p) == p.x,
{
    reveal(v3_dot);
    lemma_fx_mul_one(p.x);
    assert(0 * p.y == 0 && 0 * p.z == 0);
}

/// Whether a box stands upright with half extents that are not
/// negative, everything in range, and axes and corners in step with
/// its pose.
pub open spec fn upright(c: ColliderModel) -> bool {
    &&& c.rotation == q_identity()
    &&& collider_synced(c)
    &&& 0 <= c.half_extents.x <= LIMIT
    &&& 0 <= c.half_extents.y <= LIMIT
    &&& 0 <= c.half_extents.z <= LIMIT
}

/// Two upright boxes are not in contact where the one ends along x
/// before the other begins, or just where it begins.
pub proof fn lemma_upright_boxes_apart(
    a: ColliderModel,
    a_vel: VelocityModel,
    b: ColliderModel,
    b_vel: VelocityModel,
)
    requires
        upright(a),
        upright(b),
        fx_add(a.center.x, a.half_extents.x) <= fx_sub(b.center.x, b.half_extents.x),
    ensures
        contact_between(a, a_vel, b, b_vel) is None,
        contact_between(b, b_vel, a, a_vel) is None,
{
    let x = v3(SCALE as int, 0, 0);
    let t = fx_add(a.center.x, a.half_extents.x);
    lemma_identity_turns_nothing(x);
    lemma_unit_x_is_normal();
    assert(cuboid_axes(q_identity())[0] == x);
    assert(candidate_axes(a.axes, b.axes)[0] == x);
    assert(candidate_axes(b.axes, a.axes)[0] == x);
    assert forall|k: int| 0 <= k < a.vertices.len() implies v3_dot(x, #[trigger] a.vertices[k])
        <= t by {
        let offset = corner_offset(a.half_extents, k);
        lemma_identity_turns_nothing(offset);
        lemma_projection_onto_unit_x(a.vertices[k]);
    }
    assert forall|k: int| 0 <= k < b.vertices.len() implies v3_dot(x, #[trigger] b.vertices[k])
        >= t by {
        let offset = corner_offset(b.half_extents, k);
        lemma_identity_turns_nothing(offset);
        lemma_projection_onto_unit_x(b.vertices[k]);
    }
    lemma_gap_means_no_contact(a, a_vel, b, b_vel, 0, t);
    lemma_gap_separates(a.vertices, b.vertices, x, t);
    let found = overlaps(candidate_axes(b.axes, a.axes), b.vertices, a.vertices);
    assert(found[0] <= 0);
    assert(separated(found));
}

} // verus!
