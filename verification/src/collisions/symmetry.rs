//! Contact detection does not depend on which box is named first.

use crate::bodies::VelocityModel;
use crate::collisions::collider_systems::{
    axis_overlap, contact_between, first_min_index, interval_overlap, oriented_normal, overlaps,
    proj_max, proj_min, separated,
};
use crate::collisions::{candidate_axes, cross_axes, ColliderModel, AXIS_EPSILON};
use crate::vector::{
    lemma_cross_swapped, lemma_dot_neg, lemma_normalize_neg, v3_cross, v3_dot, v3_length_squared,
    v3_neg, v3_normalize, v3_sub, V3,
};
use vstd::prelude::*;

verus! {

/// Seen along the opposite axis, the least projection is the opposite
/// of the greatest, and the other way round.
pub proof fn lemma_projection_mirrored(points: Seq<V3>, axis: V3)
    ensures
        proj_min(points, v3_neg(axis)) == -proj_max(points, axis),
        proj_max(points, v3_neg(axis)) == -proj_min(points, axis),
    decreases points.len(),
{
    if points.len() > 0 {
        lemma_projection_mirrored(points.drop_last(), axis);
        lemma_dot_neg(axis, points.last());
    }
}

/// Two point sets overlap along an axis by as much as along the
/// opposite axis, and by as much as when taken the other way round.
pub proof fn lemma_overlap_along_opposite_axis(a: Seq<V3>, b: Seq<V3>, axis: V3)
    ensures
        axis_overlap(a, b, v3_neg(axis)) == axis_overlap(a, b, axis),
        axis_overlap(b, a, axis) == axis_overlap(a, b, axis),
{
    lemma_projection_mirrored(a, axis);
    lemma_projection_mirrored(b, axis);
}

/// The cross product of pair `p` of box axes.
pub open spec fn pair_cross(a: Seq<V3>, b: Seq<V3>, p: int) -> V3 {
    v3_cross(a[p / 3], b[p % 3])
}

/// Whether pair `p` of box axes gives a candidate axis.
pub open spec fn pair_kept(a: Seq<V3>, b: Seq<V3>, p: int) -> bool {
    v3_length_squared(pair_cross(a, b, p)) > AXIS_EPSILON
}

/// The pair with the two boxes swapped.
pub open spec fn swapped_pair(p: int) -> int {
    3 * (p % 3) + p / 3
}

/// Every candidate axis among the cross products comes from a pair
/// that is kept. Returns such a pair.
pub proof fn lemma_pair_of_axis(a: Seq<V3>, b: Seq<V3>, k: int, m: int) -> (p: int)
    requires
        0 <= m < cross_axes(a, b, k).len(),
    ensures
        0 <= p < k,
        pair_kept(a, b, p),
        cross_axes(a, b, k)[m] == v3_normalize(pair_cross(a, b, p)),
    decreases k,
{
    if k <= 0 {
        0
    } else {
        let before = cross_axes(a, b, k - 1);
        if pair_kept(a, b, k - 1) && m == before.len() {
            k - 1
        } else {
            lemma_pair_of_axis(a, b, k - 1, m)
        }
    }
}

/// Every pair that is kept gives one of the candidate axes. Returns
/// its index among them.
pub proof fn lemma_axis_of_pair(a: Seq<V3>, b: Seq<V3>, k: int, p: int) -> (m: int)
    requires
        0 <= p < k,
        pair_kept(a, b, p),
    ensures
        0 <= m < cross_axes(a, b, k).len(),
        cross_axes(a, b, k)[m] == v3_normalize(pair_cross(a, b, p)),
    decreases k,
{
    let before = cross_axes(a, b, k - 1);
    if p == k - 1 {
        before.len() as int
    } else {
        lemma_axis_of_pair(a, b, k - 1, p)
    }
}

/// Whether two vectors are equal or opposite.
pub open spec fn same_line(u: V3, v: V3) -> bool {
    u == v || u == v3_neg(v)
}

/// To every candidate axis of two boxes there is one of the same boxes
/// taken the other way round that is, scaled to unit length, the same
/// or the opposite, and along which they overlap by as much. Returns
/// its index.
pub proof fn lemma_mirrored_axis(a: ColliderModel, b: ColliderModel, i: int) -> (i2: int)
    requires
        a.axes.len() == 3,
        b.axes.len() == 3,
        0 <= i < candidate_axes(a.axes, b.axes).len(),
    ensures
        0 <= i2 < candidate_axes(b.axes, a.axes).len(),
        overlaps(candidate_axes(b.axes, a.axes), b.vertices, a.vertices)[i2] == overlaps(
            candidate_axes(a.axes, b.axes),
            a.vertices,
            b.vertices,
        )[i],
        same_line(
            v3_normalize(candidate_axes(b.axes, a.axes)[i2]),
            v3_normalize(candidate_axes(a.axes, b.axes)[i]),
        ),
{
    let ab = candidate_axes(a.axes, b.axes);
    let ba = candidate_axes(b.axes, a.axes);
    if i < 3 {
        lemma_overlap_along_opposite_axis(a.vertices, b.vertices, v3_normalize(ab[i]));
        assert(ba[i + 3] == ab[i]);
        i + 3
    } else if i < 6 {
        lemma_overlap_along_opposite_axis(a.vertices, b.vertices, v3_normalize(ab[i]));
        assert(ba[i - 3] == ab[i]);
        i - 3
    } else {
        let p = lemma_pair_of_axis(a.axes, b.axes, 9, i - 6);
        let q = swapped_pair(p);
        let c = pair_cross(a.axes, b.axes, p);
        assert(q / 3 == p % 3 && q % 3 == p / 3);
        lemma_cross_swapped(a.axes[p / 3], b.axes[p % 3]);
        assert(pair_cross(b.axes, a.axes, q) == v3_neg(c));
        lemma_normalize_neg(c);
        let m = lemma_axis_of_pair(b.axes, a.axes, 9, q);
        let axis = v3_normalize(c);
        assert(ab[i] == axis);
        assert(ba[m + 6] == v3_neg(axis));
        lemma_normalize_neg(axis);
        lemma_overlap_along_opposite_axis(a.vertices, b.vertices, v3_normalize(axis));
        m + 6
    }
}

/// The first least value among the first `k` is among them, and none
/// of them is less.
pub proof fn lemma_first_min(s: Seq<int>, k: int)
    requires
        1 <= k <= s.len(),
    ensures
        0 <= first_min_index(s, k) < k,
        forall|j: int| 0 <= j < k ==> s[first_min_index(s, k)] <= #[trigger] s[j],
        forall|j: int| 0 <= j < first_min_index(s, k) ==> s[first_min_index(s, k)] < #[trigger] s[j],
    decreases k,
{
    if k > 1 {
        lemma_first_min(s, k - 1);
    }
}

/// Two boxes that show no overlap along some candidate axis show none
/// along some candidate axis when taken the other way round.
proof fn lemma_separated_carries_over(a: ColliderModel, b: ColliderModel)
    requires
        a.axes.len() == 3,
        b.axes.len() == 3,
    ensures
        separated(overlaps(candidate_axes(a.axes, b.axes), a.vertices, b.vertices)) ==> separated(
            overlaps(candidate_axes(b.axes, a.axes), b.vertices, a.vertices),
        ),
{
    let ab = overlaps(candidate_axes(a.axes, b.axes), a.vertices, b.vertices);
    let ba = overlaps(candidate_axes(b.axes, a.axes), b.vertices, a.vertices);
    if separated(ab) {
        let i = choose|i: int| 0 <= i < ab.len() && ab[i] <= 0;
        let i2 = lemma_mirrored_axis(a, b, i);
        assert(0 <= i2 < ba.len() && ba[i2] <= 0);
    }
}

/// The depth of the contact of two boxes is at least that of the same
/// boxes taken the other way round.
proof fn lemma_depth_not_less(a: ColliderModel, b: ColliderModel)
    requires
        a.axes.len() == 3,
        b.axes.len() == 3,
    ensures
        ({
            let ab = overlaps(candidate_axes(a.axes, b.axes), a.vertices, b.vertices);
            let ba = overlaps(candidate_axes(b.axes, a.axes), b.vertices, a.vertices);
            ab[first_min_index(ab, ab.len() as int)] >= ba[first_min_index(ba, ba.len() as int)]
        }),
{
    let ab = overlaps(candidate_axes(a.axes, b.axes), a.vertices, b.vertices);
    let ba = overlaps(candidate_axes(b.axes, a.axes), b.vertices, a.vertices);
    lemma_first_min(ab, ab.len() as int);
    lemma_first_min(ba, ba.len() as int);
    let i = first_min_index(ab, ab.len() as int);
    let i2 = lemma_mirrored_axis(a, b, i);
}

/// Detection is symmetric: of two boxes, either both orders give a
/// contact or neither does, and both give the same depth. Each contact
/// holds the centers and velocities of its own first and second box.
/// Along each normal the boxes overlap by exactly the depth, and
/// neither normal points from the first box of its order toward the
/// second.
pub proof fn lemma_contact_symmetric(
    a: ColliderModel,
    a_vel: VelocityModel,
    b: ColliderModel,
    b_vel: VelocityModel,
)
    requires
        a.axes.len() == 3,
        b.axes.len() == 3,
    ensures
        contact_between(a, a_vel, b, b_vel) is Some <==> contact_between(b, b_vel, a, a_vel)
            is Some,
        contact_between(a, a_vel, b, b_vel) matches Some(ab) ==> {
            &&& contact_between(b, b_vel, a, a_vel) matches Some(ba)
            &&& ab.penetration_depth == ba.penetration_depth
            &&& ab.penetration_depth > 0
            &&& ab.contact_point_a == ba.contact_point_b
            &&& ab.contact_point_b == ba.contact_point_a
            &&& ab.a_vel == ba.b_vel
            &&& ab.b_vel == ba.a_vel
            &&& axis_overlap(a.vertices, b.vertices, ab.normal) == ab.penetration_depth
            &&& axis_overlap(a.vertices, b.vertices, ba.normal) == ab.penetration_depth
            &&& v3_dot(v3_sub(a.center, b.center), ab.normal) >= 0
            &&& v3_dot(v3_sub(b.center, a.center), ba.normal) >= 0
        },
{
    lemma_separated_carries_over(a, b);
    lemma_separated_carries_over(b, a);
    lemma_depth_not_less(a, b);
    lemma_depth_not_less(b, a);
    let axes_ab = candidate_axes(a.axes, b.axes);
    let axes_ba = candidate_axes(b.axes, a.axes);
    let ab = overlaps(axes_ab, a.vertices, b.vertices);
    let ba = overlaps(axes_ba, b.vertices, a.vertices);
    if !separated(ab) {
        lemma_first_min(ab, ab.len() as int);
        lemma_first_min(ba, ba.len() as int);
        let i = first_min_index(ab, ab.len() as int);
        let j = first_min_index(ba, ba.len() as int);
        let n_ab = v3_normalize(axes_ab[i]);
        let n_ba = v3_normalize(axes_ba[j]);
        lemma_overlap_along_opposite_axis(a.vertices, b.vertices, n_ab);
        lemma_overlap_along_opposite_axis(a.vertices, b.vertices, n_ba);
        lemma_overlap_along_opposite_axis(a.vertices, b.vertices, v3_neg(n_ba));
        lemma_dot_neg(v3_sub(a.center, b.center), n_ab);
        lemma_dot_neg(v3_sub(b.center, a.center), n_ba);
    }
}

/// Whether every candidate axis along which two boxes overlap least
/// is, scaled to unit length, the same as the first such or its
/// opposite: whether the axis of least overlap is settled up to its
/// sense.
pub open spec fn least_overlap_settled(a: ColliderModel, b: ColliderModel) -> bool {
    let axes = candidate_axes(a.axes, b.axes);
    let found = overlaps(axes, a.vertices, b.vertices);
    let first = first_min_index(found, found.len() as int);
    forall|i: int|
        0 <= i < found.len() && #[trigger] found[i] == found[first] ==> same_line(
            v3_normalize(axes[i]),
            v3_normalize(axes[first]),
        )
}

/// The two orders of two boxes give opposite normals, where the axis
/// of least overlap is settled up to its sense and the centers of the
/// boxes are not level along it.
pub proof fn lemma_normals_opposite(
    a: ColliderModel,
    a_vel: VelocityModel,
    b: ColliderModel,
    b_vel: VelocityModel,
)
    requires
        a.axes.len() == 3,
        b.axes.len() == 3,
        least_overlap_settled(a, b),
        contact_between(a, a_vel, b, b_vel) matches Some(ab) && v3_dot(
            v3_sub(a.center, b.center),
            ab.normal,
        ) != 0,
    ensures
        contact_between(b, b_vel, a, a_vel) matches Some(ba) && ba.normal == v3_neg(
            contact_between(a, a_vel, b, b_vel)->0.normal,
        ),
{
    lemma_contact_symmetric(a, a_vel, b, b_vel);
    let axes_ab = candidate_axes(a.axes, b.axes);
    let axes_ba = candidate_axes(b.axes, a.axes);
    let ab = overlaps(axes_ab, a.vertices, b.vertices);
    let ba = overlaps(axes_ba, b.vertices, a.vertices);
    lemma_first_min(ab, ab.len() as int);
    lemma_first_min(ba, ba.len() as int);
    let i = first_min_index(ab, ab.len() as int);
    let j = first_min_index(ba, ba.len() as int);
    let back = lemma_mirrored_axis(b, a, j);
    assert(ab[back] == ab[i]);
    let n = v3_normalize(axes_ab[i]);
    let m = v3_normalize(axes_ba[j]);
    assert(same_line(v3_normalize(axes_ab[back]), m));
    assert(same_line(v3_normalize(axes_ab[back]), n));
    assert(same_line(m, n));
    let d = v3_sub(a.center, b.center);
    assert(v3_sub(b.center, a.center) == v3_neg(d));
    lemma_dot_neg(d, n);
    lemma_dot_neg(d, v3_neg(n));
    lemma_dot_neg(d, m);
}

} // verus!
