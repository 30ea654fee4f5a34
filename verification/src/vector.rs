//! Three-component vectors over [`Fixed`].
//!
//! Each operation is built from the scalar operations component by
//! component, so it rounds and saturates exactly where they do.

use crate::fixed::{
    fx_add, fx_div, fx_mul, fx_norm3, fx_sub, in_range, lemma_fx_div_neg, lemma_fx_mul_commutes,
    lemma_fx_mul_neg, Fixed, SCALE,
};
use vstd::prelude::*;

verus! {

/// The raw components of a vector: the mathematical value of a [`Vec3`].
pub ghost struct V3 {
    pub x: int,
    pub y: int,
    pub z: int,
}

pub open spec fn v3(x: int, y: int, z: int) -> V3 {
    V3 { x, y, z }
}

pub open spec fn v3_zero() -> V3 {
    v3(0, 0, 0)
}

pub open spec fn v3_add(a: V3, b: V3) -> V3 {
    v3(fx_add(a.x, b.x), fx_add(a.y, b.y), fx_add(a.z, b.z))
}

pub open spec fn v3_sub(a: V3, b: V3) -> V3 {
    v3(fx_sub(a.x, b.x), fx_sub(a.y, b.y), fx_sub(a.z, b.z))
}

pub open spec fn v3_neg(a: V3) -> V3 {
    v3(-a.x, -a.y, -a.z)
}

#[verifier::opaque]
pub open spec fn v3_scale(a: V3, s: int) -> V3 {
    v3(fx_mul(a.x, s), fx_mul(a.y, s), fx_mul(a.z, s))
}

#[verifier::opaque]
pub open spec fn v3_dot(a: V3, b: V3) -> int {
    fx_add(fx_add(fx_mul(a.x, b.x), fx_mul(a.y, b.y)), fx_mul(a.z, b.z))
}

#[verifier::opaque]
pub open spec fn v3_cross(a: V3, b: V3) -> V3 {
    v3(
        fx_sub(fx_mul(a.y, b.z), fx_mul(a.z, b.y)),
        fx_sub(fx_mul(a.z, b.x), fx_mul(a.x, b.z)),
        fx_sub(fx_mul(a.x, b.y), fx_mul(a.y, b.x)),
    )
}

pub open spec fn v3_length_squared(a: V3) -> int {
    v3_dot(a, a)
}

/// The length, rounded down to a raw unit. It is the root of the exact
/// sum of the squares, not of [`v3_length_squared`], which rounds each
/// square.
pub open spec fn v3_length(a: V3) -> int {
    fx_norm3(a.x, a.y, a.z)
}

/// The vector divided by its length; the zero vector where the length
/// rounds to zero.
#[verifier::opaque]
pub open spec fn v3_normalize(a: V3) -> V3 {
    let len = v3_length(a);
    if len == 0 {
        v3_zero()
    } else {
        v3(fx_div(a.x, len), fx_div(a.y, len), fx_div(a.z, len))
    }
}

/// Whether every component is a raw value in range, as it is for the
/// value of every [`Vec3`].
pub open spec fn v3_in_range(a: V3) -> bool {
    in_range(a.x) && in_range(a.y) && in_range(a.z)
}

#[derive(Clone, Copy, Debug, PartialEq, Eq, Structural)]
pub struct Vec3 {
    pub x: Fixed,
    pub y: Fixed,
    pub z: Fixed,
}

impl View for Vec3 {
    type V = V3;

    open spec fn view(&self) -> V3 {
        v3(self.x@, self.y@, self.z@)
    }
}

impl Vec3 {
    pub fn new(x: Fixed, y: Fixed, z: Fixed) -> (r: Vec3)
        ensures
            r == (Vec3 { x, y, z }),
            r@ == v3(x@, y@, z@),
    {
        Vec3 { x, y, z }
    }

    pub fn zero() -> (r: Vec3)
        ensures
            r@ == v3_zero(),
    {
        Vec3 { x: Fixed::zero(), y: Fixed::zero(), z: Fixed::zero() }
    }

    /// The first cardinal axis.
    pub fn unit_x() -> (r: Vec3)
        ensures
            r@ == v3(SCALE as int, 0, 0),
    {
        Vec3 { x: Fixed::one(), y: Fixed::zero(), z: Fixed::zero() }
    }

    /// The second cardinal axis.
    pub fn unit_y() -> (r: Vec3)
        ensures
            r@ == v3(0, SCALE as int, 0),
    {
        Vec3 { x: Fixed::zero(), y: Fixed::one(), z: Fixed::zero() }
    }

    /// The third cardinal axis.
    pub fn unit_z() -> (r: Vec3)
        ensures
            r@ == v3(0, 0, SCALE as int),
    {
        Vec3 { x: Fixed::zero(), y: Fixed::zero(), z: Fixed::one() }
    }

    pub fn add(self, rhs: Vec3) -> (r: Vec3)
        ensures
            r@ == v3_add(self@, rhs@),
    {
        Vec3 { x: self.x.add(rhs.x), y: self.y.add(rhs.y), z: self.z.add(rhs.z) }
    }

    pub fn sub(self, rhs: Vec3) -> (r: Vec3)
        ensures
            r@ == v3_sub(self@, rhs@),
    {
        Vec3 { x: self.x.sub(rhs.x), y: self.y.sub(rhs.y), z: self.z.sub(rhs.z) }
    }

    pub fn neg(self) -> (r: Vec3)
        ensures
            r@ == v3_neg(self@),
    {
        Vec3 { x: self.x.neg(), y: self.y.neg(), z: self.z.neg() }
    }

    /// The vector times the scalar `s`.
    pub fn scale(self, s: Fixed) -> (r: Vec3)
        ensures
            r@ == v3_scale(self@, s@),
    {
        proof {
            reveal(v3_scale);
        }
        Vec3 { x: self.x.mul(s), y: self.y.mul(s), z: self.z.mul(s) }
    }

    pub fn dot(self, rhs: Vec3) -> (r: Fixed)
        ensures
            r@ == v3_dot(self@, rhs@),
    {
        proof {
            reveal(v3_dot);
        }
        self.x.mul(rhs.x).add(self.y.mul(rhs.y)).add(self.z.mul(rhs.z))
    }

    pub fn cross(self, rhs: Vec3) -> (r: Vec3)
        ensures
            r@ == v3_cross(self@, rhs@),
    {
        proof {
            reveal(v3_cross);
        }
        Vec3 {
            x: self.y.mul(rhs.z).sub(self.z.mul(rhs.y)),
            y: self.z.mul(rhs.x).sub(self.x.mul(rhs.z)),
            z: self.x.mul(rhs.y).sub(self.y.mul(rhs.x)),
        }
    }

    pub fn length_squared(self) -> (r: Fixed)
        ensures
            r@ == v3_length_squared(self@),
    {
        self.dot(self)
    }

    pub fn length(self) -> (r: Fixed)
        ensures
            r@ == v3_length(self@),
    {
        Fixed::norm3(self.x, self.y, self.z)
    }

    /// The vector scaled to unit length, or the zero vector where the
    /// length rounds to zero.
    pub fn normalize(self) -> (r: Vec3)
        ensures
            r@ == v3_normalize(self@),
    {
        proof {
            reveal(v3_normalize);
        }
        let len = self.length();
        if len.is_zero() {
            Vec3::zero()
        } else {
            Vec3 { x: self.x.div(len), y: self.y.div(len), z: self.z.div(len) }
        }
    }
}

/// The dot product with the opposite vector is the opposite dot
/// product, on either side.
pub proof fn lemma_dot_neg(a: V3, b: V3)
    ensures
        v3_dot(v3_neg(a), b) == -v3_dot(a, b),
        v3_dot(a, v3_neg(b)) == -v3_dot(a, b),
        v3_dot(v3_neg(a), v3_neg(b)) == v3_dot(a, b),
{
    reveal(v3_dot);
    lemma_fx_mul_neg(a.x, b.x);
    lemma_fx_mul_neg(a.y, b.y);
    lemma_fx_mul_neg(a.z, b.z);
}

/// Swapping the factors of a cross product turns it around.
pub proof fn lemma_cross_swapped(a: V3, b: V3)
    ensures
        v3_cross(b, a) == v3_neg(v3_cross(a, b)),
{
    reveal(v3_cross);
    lemma_fx_mul_commutes(a.y, b.z);
    lemma_fx_mul_commutes(a.z, b.y);
    lemma_fx_mul_commutes(a.z, b.x);
    lemma_fx_mul_commutes(a.x, b.z);
    lemma_fx_mul_commutes(a.x, b.y);
    lemma_fx_mul_commutes(a.y, b.x);
}

/// A vector and its opposite have the same length, and scaling the
/// opposite to unit length gives the opposite unit vector.
pub proof fn lemma_normalize_neg(a: V3)
    ensures
        v3_length_squared(v3_neg(a)) == v3_length_squared(a),
        v3_normalize(v3_neg(a)) == v3_neg(v3_normalize(a)),
{
    reveal(v3_normalize);
    lemma_dot_neg(a, a);
    assert((-a.x) * (-a.x) == a.x * a.x && (-a.y) * (-a.y) == a.y * a.y && (-a.z) * (-a.z) == a.z
        * a.z) by (nonlinear_arith);
    let len = v3_length(a);
    if len != 0 {
        lemma_fx_div_neg(a.x, len);
        lemma_fx_div_neg(a.y, len);
        lemma_fx_div_neg(a.z, len);
    }
}

} // verus!
