//! Quaternions over [`Fixed`] as rotations of three-space.

use crate::fixed::{fx_add, fx_div, fx_mul, fx_norm4, fx_sub, in_range, quot, Fixed, SCALE};
use crate::matrix::{m3, Mat3, M3};
use crate::trig::{fx_cos, fx_sin, lemma_sin_cos_of_zero, sin_cos};
use crate::vector::{v3, v3_add, v3_cross, v3_dot, v3_scale, Vec3, V3};
use vstd::prelude::*;

verus! {

/// The raw components of a quaternion: the mathematical value of a
/// [`Quat`]. `w` is the real part.
pub ghost struct Q4 {
    pub x: int,
    pub y: int,
    pub z: int,
    pub w: int,
}

pub open spec fn q4(x: int, y: int, z: int, w: int) -> Q4 {
    Q4 { x, y, z, w }
}

pub open spec fn q_identity() -> Q4 {
    q4(0, 0, 0, SCALE as int)
}

/// The imaginary part as a vector.
pub open spec fn q_vector(q: Q4) -> V3 {
    v3(q.x, q.y, q.z)
}

/// Sum of four numbers, left to right.
pub open spec fn sum4(a: int, b: int, c: int, d: int) -> int {
    fx_add(fx_add(fx_add(a, b), c), d)
}

/// Hamilton product: the rotation `b` followed by the rotation `a`.
#[verifier::opaque]
pub open spec fn q_mul(a: Q4, b: Q4) -> Q4 {
    q4(
        sum4(fx_mul(a.w, b.x), fx_mul(a.x, b.w), fx_mul(a.y, b.z), -fx_mul(a.z, b.y)),
        sum4(fx_mul(a.w, b.y), -fx_mul(a.x, b.z), fx_mul(a.y, b.w), fx_mul(a.z, b.x)),
        sum4(fx_mul(a.w, b.z), fx_mul(a.x, b.y), -fx_mul(a.y, b.x), fx_mul(a.z, b.w)),
        sum4(fx_mul(a.w, b.w), -fx_mul(a.x, b.x), -fx_mul(a.y, b.y), -fx_mul(a.z, b.z)),
    )
}

/// The length, rounded down to a raw unit.
pub open spec fn q_length(q: Q4) -> int {
    fx_norm4(q.x, q.y, q.z, q.w)
}

/// The quaternion divided by its length; the identity where the length
/// rounds to zero.
#[verifier::opaque]
pub open spec fn q_normalize(q: Q4) -> Q4 {
    let len = q_length(q);
    if len == 0 {
        q_identity()
    } else {
        q4(fx_div(q.x, len), fx_div(q.y, len), fx_div(q.z, len), fx_div(q.w, len))
    }
}

/// The vector `v` turned by `q`: with `b` the imaginary part,
/// `v (w^2 - b.b) + b (2 (v.b)) + (b x v) (2 w)`.
#[verifier::opaque]
pub open spec fn q_rotate(q: Q4, v: V3) -> V3 {
    let b = q_vector(q);
    let keep = fx_sub(fx_mul(q.w, q.w), v3_dot(b, b));
    let along = fx_mul(v3_dot(v, b), 2 * SCALE);
    let around = fx_mul(q.w, 2 * SCALE);
    v3_add(v3_add(v3_scale(v, keep), v3_scale(b, along)), v3_scale(v3_cross(b, v), around))
}

/// The rotation by `angle` radians about `axis`, which is meant to be
/// of unit length: `(axis sin(angle / 2), cos(angle / 2))`.
#[verifier::opaque]
pub open spec fn q_from_axis_angle(axis: V3, angle: int) -> Q4 {
    let half = quot(angle, 2);
    let s = fx_sin(half);
    q4(fx_mul(axis.x, s), fx_mul(axis.y, s), fx_mul(axis.z, s), fx_cos(half))
}

/// The rotation matrix of `q`, which is meant to be of unit length.
#[verifier::opaque]
pub open spec fn q_to_mat3(q: Q4) -> M3 {
    let x2 = fx_add(q.x, q.x);
    let y2 = fx_add(q.y, q.y);
    let z2 = fx_add(q.z, q.z);
    let xx = fx_mul(q.x, x2);
    let xy = fx_mul(q.x, y2);
    let xz = fx_mul(q.x, z2);
    let yy = fx_mul(q.y, y2);
    let yz = fx_mul(q.y, z2);
    let zz = fx_mul(q.z, z2);
    let wx = fx_mul(q.w, x2);
    let wy = fx_mul(q.w, y2);
    let wz = fx_mul(q.w, z2);
    let one = SCALE as int;
    m3(
        v3(fx_sub(one, fx_add(yy, zz)), fx_add(xy, wz), fx_sub(xz, wy)),
        v3(fx_sub(xy, wz), fx_sub(one, fx_add(xx, zz)), fx_add(yz, wx)),
        v3(fx_add(xz, wy), fx_sub(yz, wx), fx_sub(one, fx_add(xx, yy))),
    )
}

#[derive(Clone, Copy, Debug, PartialEq, Eq, Structural)]
pub struct Quat {
    pub x: Fixed,
    pub y: Fixed,
    pub z: Fixed,
    pub w: Fixed,
}

impl View for Quat {
    type V = Q4;

    open spec fn view(&self) -> Q4 {
        q4(self.x@, self.y@, self.z@, self.w@)
    }
}

fn sum_of_four(a: Fixed, b: Fixed, c: Fixed, d: Fixed) -> (r: Fixed)
    ensures
        r@ == sum4(a@, b@, c@, d@),
{
    a.add(b).add(c).add(d)
}

impl Quat {
    pub fn new(x: Fixed, y: Fixed, z: Fixed, w: Fixed) -> (r: Quat)
        ensures
            r == (Quat { x, y, z, w }),
    {
        Quat { x, y, z, w }
    }

    pub fn identity() -> (r: Quat)
        ensures
            r@ == q_identity(),
    {
        Quat { x: Fixed::zero(), y: Fixed::zero(), z: Fixed::zero(), w: Fixed::one() }
    }

    /// The rotation by `angle` radians about the unit vector `axis`.
    pub fn from_axis_angle(axis: Vec3, angle: Fixed) -> (r: Quat)
        ensures
            r@ == q_from_axis_angle(axis@, angle@),
    {
        proof {
            reveal(q_from_axis_angle);
        }
        let (s, c) = sin_cos(angle.div_int(2));
        Quat { x: axis.x.mul(s), y: axis.y.mul(s), z: axis.z.mul(s), w: c }
    }

    /// Hamilton product: `rhs` is applied first.
    pub fn mul_quat(self, rhs: Quat) -> (r: Quat)
        ensures
            r@ == q_mul(self@, rhs@),
    {
        proof {
            reveal(q_mul);
        }
        let a = self;
        let b = rhs;
        Quat {
            x: sum_of_four(a.w.mul(b.x), a.x.mul(b.w), a.y.mul(b.z), a.z.mul(b.y).neg()),
            y: sum_of_four(a.w.mul(b.y), a.x.mul(b.z).neg(), a.y.mul(b.w), a.z.mul(b.x)),
            z: sum_of_four(a.w.mul(b.z), a.x.mul(b.y), a.y.mul(b.x).neg(), a.z.mul(b.w)),
            w: sum_of_four(a.w.mul(b.w), a.x.mul(b.x).neg(), a.y.mul(b.y).neg(), a.z.mul(b.z).neg()),
        }
    }

    pub fn length(self) -> (r: Fixed)
        ensures
            r@ == q_length(self@),
    {
        Fixed::norm4(self.x, self.y, self.z, self.w)
    }

    /// The quaternion scaled to unit length, or the identity where the
    /// length rounds to zero.
    pub fn normalize(self) -> (r: Quat)
        ensures
            r@ == q_normalize(self@),
    {
        proof {
            reveal(q_normalize);
        }
        let len = self.length();
        if len.is_zero() {
            Quat::identity()
        } else {
            Quat {
                x: self.x.div(len),
                y: self.y.div(len),
                z: self.z.div(len),
                w: self.w.div(len),
            }
        }
    }

    /// The vector `v` turned by this rotation.
    pub fn mul_vec3(self, v: Vec3) -> (r: Vec3)
        ensures
            r@ == q_rotate(self@, v@),
    {
        proof {
            reveal(q_rotate);
        }
        let b = Vec3::new(self.x, self.y, self.z);
        let two = Fixed::from_int(2);
        let keep = self.w.mul(self.w).sub(b.dot(b));
        let along = v.dot(b).mul(two);
        let around = self.w.mul(two);
        v.scale(keep).add(b.scale(along)).add(b.cross(v).scale(around))
    }

    /// The rotation matrix of this quaternion.
    pub fn to_mat3(self) -> (r: Mat3)
        ensures
            r@ == q_to_mat3(self@),
    {
        proof {
            reveal(q_to_mat3);
        }
        let x2 = self.x.add(self.x);
        let y2 = self.y.add(self.y);
        let z2 = self.z.add(self.z);
        let xx = self.x.mul(x2);
        let xy = self.x.mul(y2);
        let xz = self.x.mul(z2);
        let yy = self.y.mul(y2);
        let yz = self.y.mul(z2);
        let zz = self.z.mul(z2);
        let wx = self.w.mul(x2);
        let wy = self.w.mul(y2);
        let wz = self.w.mul(z2);
        let one = Fixed::one();
        Mat3 {
            x_axis: Vec3::new(one.sub(yy.add(zz)), xy.add(wz), xz.sub(wy)),
            y_axis: Vec3::new(xy.sub(wz), one.sub(xx.add(zz)), yz.add(wx)),
            z_axis: Vec3::new(xz.add(wy), yz.sub(wx), one.sub(xx.add(yy))),
        }
    }
}

/// The identity turns no vector.
pub proof fn lemma_identity_turns_nothing(v: V3)
    requires
        in_range(v.x),
        in_range(v.y),
        in_range(v.z),
    ensures
        q_rotate(q_identity(), v) == v,
{
    reveal(q_rotate);
    reveal(v3_dot);
    reveal(v3_cross);
    reveal(v3_scale);
    let s = SCALE as int;
    let zero = v3(0, 0, 0);
    assert(q_vector(q_identity()) == zero);
    assert(0 * v.x == 0 && 0 * v.y == 0 && 0 * v.z == 0);
    assert(v.x * 0 == 0 && v.y * 0 == 0 && v.z * 0 == 0);
    assert(v3_dot(zero, zero) == 0);
    assert(v3_dot(v, zero) == 0);
    assert(v3_cross(zero, v) == zero);
    assert(s * s == 1_000_000_000_000_000_000);
    assert(fx_mul(s, s) == s);
    let keep = fx_sub(fx_mul(s, s), v3_dot(zero, zero));
    assert(keep == s);
    let along = fx_mul(v3_dot(v, zero), 2 * s);
    assert(0 * (2 * s) == 0);
    assert(along == 0);
    let around = fx_mul(s, 2 * s);
    assert(0 * around == 0);
    assert(v3_scale(v, keep) == v);
    assert(v3_scale(zero, along) == zero);
    assert(v3_scale(zero, around) == zero);
}

/// A turn by no angle is the identity, about whatever axis.
pub proof fn lemma_no_angle_is_identity(axis: V3)
    ensures
        q_from_axis_angle(axis, 0) == q_identity(),
{
    reveal(q_from_axis_angle);
    lemma_sin_cos_of_zero();
    assert(axis.x * 0 == 0 && axis.y * 0 == 0 && axis.z * 0 == 0);
}

} // verus!
