//! Oriented-box colliders: their pose, and the axes and corners derived
//! from it.

pub mod collider_systems;
pub mod contact_laws;
pub mod normals;
pub mod restitution;
pub mod separation;
pub mod symmetry;

use crate::bodies::{Velocity, VelocityModel};
use crate::fixed::{Fixed, SCALE};
use crate::quat::{q_rotate, Quat, Q4};
use crate::vector::{v3, v3_add, v3_cross, v3_length_squared, v3_normalize, Vec3, V3};
use vstd::prelude::*;

verus! {

/// The values of a sequence of vectors.
pub open spec fn vec3s_view(s: Seq<Vec3>) -> Seq<V3> {
    Seq::new(s.len(), |i: int| s[i]@)
}

/// The tag of a collider's shape. Only `Cuboid` has geometry.
#[derive(PartialEq, Eq, Clone, Copy, Debug, Structural)]
pub enum ColliderShape {
    Cuboid,
    Capsule,
    Sphere,
    Ellipsoid,
}

impl Default for ColliderShape {
    fn default() -> (r: ColliderShape)
        ensures
            r == ColliderShape::Cuboid,
    {
        ColliderShape::Cuboid
    }
}

/// Corner `k` of a box with the given half extents, in the box's own
/// frame: bit 2 of `k` picks the sign along x, bit 1 along y, bit 0
/// along z, a set bit meaning the positive side.
pub open spec fn corner_offset(half: V3, k: int) -> V3 {
    v3(
        if (k / 4) % 2 == 0 {
            -half.x
        } else {
            half.x
        },
        if (k / 2) % 2 == 0 {
            -half.y
        } else {
            half.y
        },
        if k % 2 == 0 {
            -half.z
        } else {
            half.z
        },
    )
}

/// The eight corners in world space: `center + rotation * offset`.
pub open spec fn cuboid_vertices(center: V3, half: V3, rotation: Q4) -> Seq<V3> {
    Seq::new(8, |k: int| v3_add(center, q_rotate(rotation, corner_offset(half, k))))
}

/// The box's three local axes in world space.
pub open spec fn cuboid_axes(rotation: Q4) -> Seq<V3> {
    seq![
        q_rotate(rotation, v3(SCALE as int, 0, 0)),
        q_rotate(rotation, v3(0, SCALE as int, 0)),
        q_rotate(rotation, v3(0, 0, SCALE as int)),
    ]
}

/// The world-space corners of a collider.
#[derive(Clone, Copy, Debug)]
pub struct ColliderVertexInfo {
    pub vertices: [Vec3; 8],
}

impl View for ColliderVertexInfo {
    type V = Seq<V3>;

    open spec fn view(&self) -> Seq<V3> {
        vec3s_view(self.vertices@)
    }
}

impl ColliderVertexInfo {
    /// The corners of the box with the given pose and half extents.
    pub fn from_cuboid(center: &Vec3, half_size: &Vec3, rotation: &Quat) -> (r: Self)
        ensures
            r@ == cuboid_vertices(center@, half_size@, rotation@),
    {
        let lo = half_size.neg();
        let hi = *half_size;
        let vertices = [
            center.add(rotation.mul_vec3(Vec3::new(lo.x, lo.y, lo.z))),
            center.add(rotation.mul_vec3(Vec3::new(lo.x, lo.y, hi.z))),
            center.add(rotation.mul_vec3(Vec3::new(lo.x, hi.y, lo.z))),
            center.add(rotation.mul_vec3(Vec3::new(lo.x, hi.y, hi.z))),
            center.add(rotation.mul_vec3(Vec3::new(hi.x, lo.y, lo.z))),
            center.add(rotation.mul_vec3(Vec3::new(hi.x, lo.y, hi.z))),
            center.add(rotation.mul_vec3(Vec3::new(hi.x, hi.y, lo.z))),
            center.add(rotation.mul_vec3(Vec3::new(hi.x, hi.y, hi.z))),
        ];
        let r = ColliderVertexInfo { vertices };
        assert(r@ =~= cuboid_vertices(center@, half_size@, rotation@));
        r
    }
}

/// The value of a [`ContactInfo`].
pub ghost struct ContactModel {
    pub normal: V3,
    pub penetration_depth: int,
    pub contact_point_a: V3,
    pub a_vel: VelocityModel,
    pub contact_point_b: V3,
    pub b_vel: VelocityModel,
}

/// One contact between two boxes, found and used up within one step.
///
/// `normal` is the unit axis of least overlap, turned so that it points
/// from the second box toward the first: moving the first box along
/// `normal`, or the second against it, parts them. The contact points
/// are the centers of the two boxes, an approximation. The velocities
/// are those the bodies had when the contact was found.
#[derive(Clone, Copy, Debug)]
pub struct ContactInfo {
    pub normal: Vec3,
    pub penetration_depth: Fixed,
    pub contact_point_a: Vec3,
    pub a_vel: Velocity,
    pub contact_point_b: Vec3,
    pub b_vel: Velocity,
}

impl View for ContactInfo {
    type V = ContactModel;

    open spec fn view(&self) -> ContactModel {
        ContactModel {
            normal: self.normal@,
            penetration_depth: self.penetration_depth@,
            contact_point_a: self.contact_point_a@,
            a_vel: self.a_vel@,
            contact_point_b: self.contact_point_b@,
            b_vel: self.b_vel@,
        }
    }
}

/// Raw value of the least squared length that a cross product of two
/// box axes must exceed to serve as a candidate axis: one millionth.
pub const AXIS_EPSILON: i64 = 1_000;

/// The value of a [`Collider`].
pub ghost struct ColliderModel {
    pub shape: ColliderShape,
    pub center: V3,
    pub rotation: Q4,
    pub axes: Seq<V3>,
    pub half_extents: V3,
    pub vertices: Seq<V3>,
}

/// Whether the cached axes and corners are those of the current pose.
pub open spec fn collider_synced(c: ColliderModel) -> bool {
    c.axes == cuboid_axes(c.rotation) && c.vertices == cuboid_vertices(
        c.center,
        c.half_extents,
        c.rotation,
    )
}

/// The collider `c` with its axes and corners derived anew from its pose.
pub open spec fn collider_refreshed(c: ColliderModel) -> ColliderModel {
    ColliderModel {
        axes: cuboid_axes(c.rotation),
        vertices: cuboid_vertices(c.center, c.half_extents, c.rotation),
        ..c
    }
}

/// The candidate axes that the first `k` pairs of box axes give: pair
/// `p` is axis `p / 3` of the first box with axis `p % 3` of the second.
/// A pair whose cross product is no longer than [`AXIS_EPSILON`] in
/// squared length gives none; any other gives the product scaled to
/// unit length.
pub open spec fn cross_axes(a: Seq<V3>, b: Seq<V3>, k: int) -> Seq<V3>
    decreases k,
{
    if k <= 0 {
        Seq::empty()
    } else {
        let c = v3_cross(a[(k - 1) / 3], b[(k - 1) % 3]);
        let before = cross_axes(a, b, k - 1);
        if v3_length_squared(c) > AXIS_EPSILON {
            before.push(v3_normalize(c))
        } else {
            before
        }
    }
}

/// All candidate separating axes of two boxes with the given local
/// axes: those of the first, those of the second, then the cross
/// products that [`cross_axes`] keeps.
pub open spec fn candidate_axes(a: Seq<V3>, b: Seq<V3>) -> Seq<V3> {
    a + b + cross_axes(a, b, 9)
}

/// The first `k` pairs of box axes give `k` candidate axes at most.
pub proof fn lemma_cross_axes_count(a: Seq<V3>, b: Seq<V3>, k: int)
    requires
        0 <= k,
    ensures
        cross_axes(a, b, k).len() <= k,
    decreases k,
{
    if k > 0 {
        lemma_cross_axes_count(a, b, k - 1);
    }
}

/// Two boxes have between six and fifteen candidate axes.
pub proof fn lemma_candidate_count(a: Seq<V3>, b: Seq<V3>)
    requires
        a.len() == 3,
        b.len() == 3,
    ensures
        6 <= candidate_axes(a, b).len() <= 15,
{
    lemma_cross_axes_count(a, b, 9);
}

/// An oriented box in world space. `axes` and `vertex_info` are derived
/// from the pose and are to be refreshed whenever the pose changes.
#[derive(Clone, Copy, Debug)]
pub struct Collider {
    pub collider_shape: ColliderShape,
    pub center: Vec3,
    pub rotation: Quat,
    pub axes: [Vec3; 3],
    pub half_extents: Vec3,
    pub vertex_info: ColliderVertexInfo,
}

impl View for Collider {
    type V = ColliderModel;

    open spec fn view(&self) -> ColliderModel {
        ColliderModel {
            shape: self.collider_shape,
            center: self.center@,
            rotation: self.rotation@,
            axes: vec3s_view(self.axes@),
            half_extents: self.half_extents@,
            vertices: self.vertex_info@,
        }
    }
}

/// The three local axes of a box with the given rotation.
fn axes_of(rotation: &Quat) -> (r: [Vec3; 3])
    ensures
        vec3s_view(r@) == cuboid_axes(rotation@),
{
    let r = [
        rotation.mul_vec3(Vec3::unit_x()),
        rotation.mul_vec3(Vec3::unit_y()),
        rotation.mul_vec3(Vec3::unit_z()),
    ];
    assert(vec3s_view(r@) =~= cuboid_axes(rotation@));
    r
}

impl Collider {
    /// The candidate separating axes of this box and `other`.
    pub fn get_axes(&self, other: &Self) -> (axes: Vec<Vec3>)
        ensures
            vec3s_view(axes@) == candidate_axes(self@.axes, other@.axes),
    {
        let mut axes: Vec<Vec3> = Vec::new();
        let ghost a = self@.axes;
        let ghost b = other@.axes;
        axes.push(self.axes[0]);
        axes.push(self.axes[1]);
        axes.push(self.axes[2]);
        axes.push(other.axes[0]);
        axes.push(other.axes[1]);
        axes.push(other.axes[2]);
        assert(vec3s_view(axes@) =~= a + b + cross_axes(a, b, 0));
        let limit = Fixed::from_raw(AXIS_EPSILON);
        let mut i: usize = 0;
        while i < 3
            invariant
                0 <= i <= 3,
                a == self@.axes,
                b == other@.axes,
                limit@ == AXIS_EPSILON,
                vec3s_view(axes@) == a + b + cross_axes(a, b, 3 * i),
            decreases 3 - i,
        {
            let mut j: usize = 0;
            while j < 3
                invariant
                    0 <= i < 3,
                    0 <= j <= 3,
                    a == self@.axes,
                    b == other@.axes,
                    limit@ == AXIS_EPSILON,
                    vec3s_view(axes@) == a + b + cross_axes(a, b, 3 * i + j),
                decreases 3 - j,
            {
                let cross = self.axes[i].cross(other.axes[j]);
                let ghost before = axes@;
                if cross.length_squared().gt(limit) {
                    axes.push(cross.normalize());
                    assert(vec3s_view(axes@) =~= vec3s_view(before).push(v3_normalize(cross@)));
                }
                assert(vec3s_view(axes@) =~= a + b + cross_axes(a, b, 3 * i + j + 1));
                j = j + 1;
            }
            i = i + 1;
        }
        axes
    }

    /// The box with the given half extents and pose, its axes and
    /// corners derived from them.
    pub fn from_cuboid(half_size: Vec3, center: Vec3, rotation: Quat) -> (r: Self)
        ensures
            r@.shape == ColliderShape::Cuboid,
            r.center == center,
            r.rotation == rotation,
            r.half_extents == half_size,
            collider_synced(r@),
    {
        let axes = axes_of(&rotation);
        let vertex_info = ColliderVertexInfo::from_cuboid(&center, &half_size, &rotation);
        Self {
            collider_shape: ColliderShape::Cuboid,
            center,
            rotation,
            axes,
            half_extents: half_size,
            vertex_info,
        }
    }

    /// Derives the axes and corners anew from the current pose.
    pub fn refresh(&mut self)
        ensures
            final(self)@ == collider_refreshed(old(self)@),
            final(self).collider_shape == old(self).collider_shape,
            final(self).center == old(self).center,
            final(self).rotation == old(self).rotation,
            final(self).half_extents == old(self).half_extents,
    {
        self.axes = axes_of(&self.rotation);
        self.vertex_info =
            ColliderVertexInfo::from_cuboid(&self.center, &self.half_extents, &self.rotation);
    }
}

} // verus!
