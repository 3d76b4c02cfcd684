//! Three-component vector algebra over the fixed-point scalar.

use vstd::prelude::*;

use crate::math::{
    fx_add, fx_div, fx_mul, fx_neg, fx_sqrt, fx_sub, Fx,
};

verus! {

/// Mathematical model of a vector: the three raw fixed-point components.
pub struct Vec3M {
    pub x: int,
    pub y: int,
    pub z: int,
}

/// A point or direction in space, one fixed-point scalar per axis.
#[derive(Clone, Copy, Debug, PartialEq, Eq, Structural)]
pub struct Vector3 {
    pub x: Fx,
    pub y: Fx,
    pub z: Fx,
}

impl View for Vector3 {
    type V = Vec3M;

    open spec fn view(&self) -> Vec3M {
        Vec3M { x: self.x@, y: self.y@, z: self.z@ }
    }
}

/// The zero vector.
pub open spec fn v3_zero() -> Vec3M {
    Vec3M { x: 0, y: 0, z: 0 }
}

/// Componentwise sum.
pub open spec fn v3_add(a: Vec3M, b: Vec3M) -> Vec3M {
    Vec3M { x: fx_add(a.x, b.x), y: fx_add(a.y, b.y), z: fx_add(a.z, b.z) }
}

/// Componentwise difference.
pub open spec fn v3_sub(a: Vec3M, b: Vec3M) -> Vec3M {
    Vec3M { x: fx_sub(a.x, b.x), y: fx_sub(a.y, b.y), z: fx_sub(a.z, b.z) }
}

/// Componentwise negation.
pub open spec fn v3_neg(a: Vec3M) -> Vec3M {
    Vec3M { x: fx_neg(a.x), y: fx_neg(a.y), z: fx_neg(a.z) }
}

/// The vector scaled by `s`.
pub open spec fn v3_scale(s: int, a: Vec3M) -> Vec3M {
    Vec3M { x: fx_mul(s, a.x), y: fx_mul(s, a.y), z: fx_mul(s, a.z) }
}

/// Dot product, summed left to right.
pub open spec fn v3_dot(a: Vec3M, b: Vec3M) -> int {
    fx_add(fx_add(fx_mul(a.x, b.x), fx_mul(a.y, b.y)), fx_mul(a.z, b.z))
}

/// Cross product.
pub open spec fn v3_cross(a: Vec3M, b: Vec3M) -> Vec3M {
    Vec3M {
        x: fx_sub(fx_mul(a.y, b.z), fx_mul(a.z, b.y)),
        y: fx_sub(fx_mul(a.z, b.x), fx_mul(a.x, b.z)),
        z: fx_sub(fx_mul(a.x, b.y), fx_mul(a.y, b.x)),
    }
}

/// Squared length: the dot product of the vector with itself.
pub open spec fn v3_size_sq(a: Vec3M) -> int {
    v3_dot(a, a)
}

/// Length: the square root of the squared length.
pub open spec fn v3_len(a: Vec3M) -> int {
    fx_sqrt(v3_size_sq(a))
}

/// Each component divided by `s`.
pub open spec fn v3_div_s(a: Vec3M, s: int) -> Vec3M {
    Vec3M { x: fx_div(a.x, s), y: fx_div(a.y, s), z: fx_div(a.z, s) }
}

/// The vector brought to unit length by dividing by its own length; the zero
/// vector (whose length is zero) is left as zero, where the corresponding
/// floating-point computation would produce undefined components.
pub open spec fn v3_norm(a: Vec3M) -> Vec3M {
    let l = v3_len(a);
    if l == 0 {
        v3_zero()
    } else {
        v3_div_s(a, l)
    }
}

/// A square in fixed point is never negative.
pub proof fn lemma_fx_sq_nonneg(a: int)
    ensures
        fx_mul(a, a) >= 0,
{
    let m = crate::math::mag(a);
    assert(m * m >= 0) by (nonlinear_arith)
        requires
            m >= 0,
    ;
}

/// The squared length of any vector is nonnegative.
pub proof fn lemma_size_sq_nonneg(a: Vec3M)
    ensures
        v3_size_sq(a) >= 0,
{
    lemma_fx_sq_nonneg(a.x);
    lemma_fx_sq_nonneg(a.y);
    lemma_fx_sq_nonneg(a.z);
}

impl Vector3 {
    /// The zero vector.
    pub fn zero() -> (r: Vector3)
        ensures
            r@ == v3_zero(),
    {
        Vector3 { x: Fx { v: 0 }, y: Fx { v: 0 }, z: Fx { v: 0 } }
    }

    /// Componentwise sum.
    pub fn add(self, rhs: Vector3) -> (r: Vector3)
        ensures
            r@ == v3_add(self@, rhs@),
    {
        Vector3 { x: self.x.add(rhs.x), y: self.y.add(rhs.y), z: self.z.add(rhs.z) }
    }

    /// Componentwise difference.
    pub fn sub(self, rhs: Vector3) -> (r: Vector3)
        ensures
            r@ == v3_sub(self@, rhs@),
    {
        Vector3 { x: self.x.sub(rhs.x), y: self.y.sub(rhs.y), z: self.z.sub(rhs.z) }
    }

    /// Componentwise negation.
    pub fn neg(self) -> (r: Vector3)
        ensures
            r@ == v3_neg(self@),
    {
        Vector3 { x: self.x.neg(), y: self.y.neg(), z: self.z.neg() }
    }

    /// The vector scaled by `s`.
    pub fn scale(self, s: Fx) -> (r: Vector3)
        ensures
            r@ == v3_scale(s@, self@),
    {
        Vector3 { x: s.mul(self.x), y: s.mul(self.y), z: s.mul(self.z) }
    }

    /// Dot product.
    pub fn dot(&self, rhs: &Vector3) -> (r: Fx)
        ensures
            r@ == v3_dot(self@, rhs@),
    {
        self.x.mul(rhs.x).add(self.y.mul(rhs.y)).add(self.z.mul(rhs.z))
    }

    /// Cross product.
    pub fn cross(&self, rhs: &Vector3) -> (r: Vector3)
        ensures
            r@ == v3_cross(self@, rhs@),
    {
        Vector3 {
            x: self.y.mul(rhs.z).sub(self.z.mul(rhs.y)),
            y: self.z.mul(rhs.x).sub(self.x.mul(rhs.z)),
            z: self.x.mul(rhs.y).sub(self.y.mul(rhs.x)),
        }
    }

    /// Squared length.
    pub fn size_squared(&self) -> (r: Fx)
        ensures
            r@ == v3_size_sq(self@),
            r@ >= 0,
    {
        proof {
            lemma_size_sq_nonneg(self@);
        }
        self.dot(self)
    }

    /// Length.
    pub fn length(&self) -> (r: Fx)
        ensures
            r@ == v3_len(self@),
    {
        self.size_squared().sqrt()
    }

    /// Each component divided by `s`.
    pub fn div_s(self, s: Fx) -> (r: Vector3)
        requires
            s@ != 0,
        ensures
            r@ == v3_div_s(self@, s@),
    {
        Vector3 { x: self.x.div(s), y: self.y.div(s), z: self.z.div(s) }
    }

    /// The vector brought to unit length; the zero vector stays zero.
    pub fn normalize(self) -> (r: Vector3)
        ensures
            r@ == v3_norm(self@),
    {
        let l = self.length();
        if l.v == 0 {
            Vector3::zero()
        } else {
            self.div_s(l)
        }
    }
}

} // verus!
