//! Three-by-three matrices over [`Fixed`], stored by columns.

use crate::fixed::{fx_div, Fixed, SCALE};
use crate::vector::{v3, v3_add, v3_scale, v3_zero, Vec3, V3};
use vstd::prelude::*;

verus! {

/// The columns of a matrix: the mathematical value of a [`Mat3`].
pub ghost struct M3 {
    pub x_axis: V3,
    pub y_axis: V3,
    pub z_axis: V3,
}

pub open spec fn m3(x_axis: V3, y_axis: V3, z_axis: V3) -> M3 {
    M3 { x_axis, y_axis, z_axis }
}

pub open spec fn m3_zero() -> M3 {
    m3(v3_zero(), v3_zero(), v3_zero())
}

pub open spec fn m3_from_diagonal(d: V3) -> M3 {
    m3(v3(d.x, 0, 0), v3(0, d.y, 0), v3(0, 0, d.z))
}

pub open spec fn m3_transpose(m: M3) -> M3 {
    m3(
        v3(m.x_axis.x, m.y_axis.x, m.z_axis.x),
        v3(m.x_axis.y, m.y_axis.y, m.z_axis.y),
        v3(m.x_axis.z, m.y_axis.z, m.z_axis.z),
    )
}

/// The matrix applied to a vector: the columns weighted by the
/// vector's components, summed left to right.
#[verifier::opaque]
pub open spec fn m3_mul_vec(m: M3, v: V3) -> V3 {
    v3_add(v3_add(v3_scale(m.x_axis, v.x), v3_scale(m.y_axis, v.y)), v3_scale(m.z_axis, v.z))
}

#[verifier::opaque]
pub open spec fn m3_mul(a: M3, b: M3) -> M3 {
    m3(m3_mul_vec(a, b.x_axis), m3_mul_vec(a, b.y_axis), m3_mul_vec(a, b.z_axis))
}

/// Whether no entry on the diagonal is zero.
pub open spec fn m3_diagonal_nonzero(m: M3) -> bool {
    m.x_axis.x != 0 && m.y_axis.y != 0 && m.z_axis.z != 0
}

/// The diagonal matrix of the reciprocals of the diagonal of `m`.
#[verifier::opaque]
pub open spec fn m3_diagonal_inverse(m: M3) -> M3 {
    m3_from_diagonal(
        v3(
            fx_div(SCALE as int, m.x_axis.x),
            fx_div(SCALE as int, m.y_axis.y),
            fx_div(SCALE as int, m.z_axis.z),
        ),
    )
}

#[derive(Clone, Copy, Debug, PartialEq, Eq, Structural)]
pub struct Mat3 {
    pub x_axis: Vec3,
    pub y_axis: Vec3,
    pub z_axis: Vec3,
}

impl View for Mat3 {
    type V = M3;

    open spec fn view(&self) -> M3 {
        m3(self.x_axis@, self.y_axis@, self.z_axis@)
    }
}

impl Mat3 {
    pub fn from_cols(x_axis: Vec3, y_axis: Vec3, z_axis: Vec3) -> (r: Mat3)
        ensures
            r == (Mat3 { x_axis, y_axis, z_axis }),
    {
        Mat3 { x_axis, y_axis, z_axis }
    }

    pub fn zero() -> (r: Mat3)
        ensures
            r@ == m3_zero(),
    {
        Mat3 { x_axis: Vec3::zero(), y_axis: Vec3::zero(), z_axis: Vec3::zero() }
    }

    pub fn from_diagonal(d: Vec3) -> (r: Mat3)
        ensures
            r@ == m3_from_diagonal(d@),
    {
        let o = Fixed::zero();
        Mat3 {
            x_axis: Vec3::new(d.x, o, o),
            y_axis: Vec3::new(o, d.y, o),
            z_axis: Vec3::new(o, o, d.z),
        }
    }

    pub fn transpose(self) -> (r: Mat3)
        ensures
            r@ == m3_transpose(self@),
    {
        Mat3 {
            x_axis: Vec3::new(self.x_axis.x, self.y_axis.x, self.z_axis.x),
            y_axis: Vec3::new(self.x_axis.y, self.y_axis.y, self.z_axis.y),
            z_axis: Vec3::new(self.x_axis.z, self.y_axis.z, self.z_axis.z),
        }
    }

    pub fn mul_vec3(self, v: Vec3) -> (r: Vec3)
        ensures
            r@ == m3_mul_vec(self@, v@),
    {
        proof {
            reveal(m3_mul_vec);
        }
        self.x_axis.scale(v.x).add(self.y_axis.scale(v.y)).add(self.z_axis.scale(v.z))
    }

    pub fn mul_mat3(self, rhs: Mat3) -> (r: Mat3)
        ensures
            r@ == m3_mul(self@, rhs@),
    {
        proof {
            reveal(m3_mul);
        }
        Mat3 {
            x_axis: self.mul_vec3(rhs.x_axis),
            y_axis: self.mul_vec3(rhs.y_axis),
            z_axis: self.mul_vec3(rhs.z_axis),
        }
    }

    /// Inverse of a diagonal matrix; entries off the diagonal are not read.
    pub fn diagonal_inverse(self) -> (r: Mat3)
        requires
            m3_diagonal_nonzero(self@),
        ensures
            r@ == m3_diagonal_inverse(self@),
    {
        proof {
            reveal(m3_diagonal_inverse);
        }
        let one = Fixed::one();
        Mat3::from_diagonal(
            Vec3::new(one.div(self.x_axis.x), one.div(self.y_axis.y), one.div(self.z_axis.z)),
        )
    }
}

} // verus!
