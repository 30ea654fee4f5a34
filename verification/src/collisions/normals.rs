//! The normal of a contact is one long, up to rounding.

use crate::bodies::VelocityModel;
use crate::collisions::collider_systems::{
    axis_overlap, contact_between, first_min_index, overlaps, proj_max, proj_min, separated,
};
use crate::collisions::symmetry::{lemma_first_min, lemma_pair_of_axis, pair_cross};
use crate::collisions::{candidate_axes, ColliderModel};
use crate::fixed::{in_range, LIMIT};
use crate::unit_length::{is_unit, lemma_normalized_is_unit};
use crate::vector::{v3_cross, v3_dot, v3_in_range, v3_length, v3_normalize, v3_zero, V3};
use vstd::prelude::*;

verus! {

/// Whether every component of every vector is a raw value in range.
pub open spec fn all_in_range(s: Seq<V3>) -> bool {
    forall|i: int| 0 <= i < s.len() ==> v3_in_range(#[trigger] s[i])
}

/// Onto the zero vector every point projects to zero.
pub proof fn lemma_projection_onto_nothing(points: Seq<V3>)
    requires
        points.len() > 0,
    ensures
        proj_min(points, v3_zero()) == 0,
        proj_max(points, v3_zero()) == 0,
    decreases points.len(),
{
    reveal(v3_dot);
    let p = points.last();
    assert(0 * p.x == 0 && 0 * p.y == 0 && 0 * p.z == 0);
    assert(v3_dot(v3_zero(), p) == 0);
    let rest = points.drop_last();
    if rest.len() > 0 {
        lemma_projection_onto_nothing(rest);
    } else {
        assert(proj_min(rest, v3_zero()) == LIMIT);
        assert(proj_max(rest, v3_zero()) == -LIMIT);
    }
}

/// A vector scaled to unit length is either nothing or one long.
pub proof fn lemma_normalized_or_nothing(a: V3)
    requires
        in_range(a.x),
        in_range(a.y),
        in_range(a.z),
    ensures
        v3_normalize(a) == v3_zero() || is_unit(v3_normalize(a)),
{
    reveal(v3_normalize);
    if v3_length(a) != 0 {
        lemma_normalized_is_unit(a);
    }
}

/// Every candidate axis of two boxes has its components in range.
pub proof fn lemma_candidates_in_range(a: Seq<V3>, b: Seq<V3>, i: int)
    requires
        a.len() == 3,
        b.len() == 3,
        all_in_range(a),
        all_in_range(b),
        0 <= i < candidate_axes(a, b).len(),
    ensures
        in_range(candidate_axes(a, b)[i].x),
        in_range(candidate_axes(a, b)[i].y),
        in_range(candidate_axes(a, b)[i].z),
{
    if i >= 6 {
        let p = lemma_pair_of_axis(a, b, 9, i - 6);
        let c = pair_cross(a, b, p);
        assert(in_range(c.x) && in_range(c.y) && in_range(c.z)) by {
            reveal(v3_cross);
        }
        lemma_normalized_or_nothing(c);
    }
}

/// The normal of a contact is one long, up to rounding, for boxes whose
/// axes have their components in range.
pub proof fn lemma_contact_normal_is_unit(
    a: ColliderModel,
    a_vel: VelocityModel,
    b: ColliderModel,
    b_vel: VelocityModel,
)
    requires
        a.axes.len() == 3,
        b.axes.len() == 3,
        all_in_range(a.axes),
        all_in_range(b.axes),
    ensures
        contact_between(a, a_vel, b, b_vel) matches Some(c) ==> is_unit(c.normal),
{
    let axes = candidate_axes(a.axes, b.axes);
    let found = overlaps(axes, a.vertices, b.vertices);
    if !separated(found) {
        lemma_first_min(found, found.len() as int);
        let i = first_min_index(found, found.len() as int);
        lemma_candidates_in_range(a.axes, b.axes, i);
        lemma_normalized_or_nothing(axes[i]);
        let n = v3_normalize(axes[i]);
        if n == v3_zero() {
            lemma_projection_onto_nothing(a.vertices);
            lemma_projection_onto_nothing(b.vertices);
            assert(found[i] == axis_overlap(a.vertices, b.vertices, n));
            assert(found[i] <= 0);
        }
    }
}

} // verus!
