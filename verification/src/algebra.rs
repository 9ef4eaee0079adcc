//! The executable quaternion type and its operations.
//!
//! Every operation is exact: its contract states the result as the
//! corresponding operation of the model in [`crate::model`]. Bilinear
//! operations (the Hamilton product, the squared norm, the dot product)
//! compute through 128-bit intermediates; their `requires` ask that the
//! inputs lie within [`fits`] so that no intermediate product can leave the
//! wide type, and that the exact result fits the component type again.

use vstd::prelude::*;

use crate::model::q_add;
use crate::model::q_conj;
use crate::model::q_dot;
use crate::model::q_from_real;
use crate::model::q_mul;
use crate::model::q_neg;
use crate::model::q_normsq;
use crate::model::q_scale;
use crate::model::q_sub;
use crate::model::Quat;

verus! {

/// A quaternion `s + x i + y j + z k` with 64-bit integer components.
#[derive(Debug, Copy, Clone, PartialEq, Eq, Structural)]
pub struct Quaternion {
    pub s: i64,
    pub x: i64,
    pub y: i64,
    pub z: i64,
}

/// An exact quotient of a quaternion by a scalar: the value `num / den`.
///
/// Division does not stay inside integer components, so the operations that
/// divide ([`Quaternion::inv`], [`Quaternion::div_scalar`]) return the
/// quotient as this exact pair instead of rounding.
#[derive(Debug, Copy, Clone, PartialEq, Eq, Structural)]
pub struct ScaledQuaternion {
    pub num: Quaternion,
    pub den: i64,
}

impl View for Quaternion {
    type V = Quat;

    open spec fn view(&self) -> Quat {
        Quat { s: self.s as int, x: self.x as int, y: self.y as int, z: self.z as int }
    }
}

/// Whether every component of `q` lies in the range of `i64`.
pub open spec fn in_i64(q: Quat) -> bool {
    &&& i64::MIN <= q.s <= i64::MAX
    &&& i64::MIN <= q.x <= i64::MAX
    &&& i64::MIN <= q.y <= i64::MAX
    &&& i64::MIN <= q.z <= i64::MAX
}

/// Whether every component of `q` is at most `2^62` in magnitude, so that a
/// sum of four products of components stays within 128 bits.
pub open spec fn fits(q: Quat) -> bool {
    &&& -0x4000_0000_0000_0000 <= q.s <= 0x4000_0000_0000_0000
    &&& -0x4000_0000_0000_0000 <= q.x <= 0x4000_0000_0000_0000
    &&& -0x4000_0000_0000_0000 <= q.y <= 0x4000_0000_0000_0000
    &&& -0x4000_0000_0000_0000 <= q.z <= 0x4000_0000_0000_0000
}

/// A product of two values of magnitude at most `2^62` has magnitude at most `2^124`.
proof fn lemma_prod_bounded(a: int, b: int)
    by (nonlinear_arith)
    requires
        -0x4000_0000_0000_0000 <= a <= 0x4000_0000_0000_0000,
        -0x4000_0000_0000_0000 <= b <= 0x4000_0000_0000_0000,
    ensures
        -0x1000_0000_0000_0000_0000_0000_0000_0000 <= a * b
            <= 0x1000_0000_0000_0000_0000_0000_0000_0000,
{
}

/// A product of two values in `i64` range has magnitude at most `2^126`.
proof fn lemma_prod_i64(a: int, b: int)
    by (nonlinear_arith)
    requires
        i64::MIN <= a <= i64::MAX,
        i64::MIN <= b <= i64::MAX,
    ensures
        -0x4000_0000_0000_0000_0000_0000_0000_0000 <= a * b
            <= 0x4000_0000_0000_0000_0000_0000_0000_0000,
{
}

/// A square is never negative.
proof fn lemma_square_nonneg(a: int)
    by (nonlinear_arith)
    ensures
        a * a >= 0,
{
}

impl Quaternion {
    /// Builds the quaternion `s + x i + y j + z k`.
    pub fn new(s: i64, x: i64, y: i64, z: i64) -> (r: Self)
        ensures
            r@ == (Quat { s: s as int, x: x as int, y: y as int, z: z as int }),
    {
        Self { s, x, y, z }
    }

    /// The conjugate: the imaginary parts change sign.
    pub fn conj(self) -> (r: Self)
        requires
            in_i64(q_conj(self@)),
        ensures
            r@ == q_conj(self@),
    {
        Self { s: self.s, x: -self.x, y: -self.y, z: -self.z }
    }

    /// Component-wise negation.
    pub fn neg(self) -> (r: Self)
        requires
            in_i64(q_neg(self@)),
        ensures
            r@ == q_neg(self@),
    {
        Self { s: -self.s, x: -self.x, y: -self.y, z: -self.z }
    }

    /// Component-wise addition.
    pub fn add(self, rhs: Self) -> (r: Self)
        requires
            in_i64(q_add(self@, rhs@)),
        ensures
            r@ == q_add(self@, rhs@),
    {
        Self { s: self.s + rhs.s, x: self.x + rhs.x, y: self.y + rhs.y, z: self.z + rhs.z }
    }

    /// Adds a bare scalar, which acts on the scalar part alone.
    pub fn add_scalar(self, c: i64) -> (r: Self)
        requires
            in_i64(q_add(self@, q_from_real(c as int))),
        ensures
            r@ == q_add(self@, q_from_real(c as int)),
    {
        Self { s: self.s + c, x: self.x, y: self.y, z: self.z }
    }

    /// Adds a quaternion to a bare scalar on the left.
    pub fn scalar_add(c: i64, q: Self) -> (r: Self)
        requires
            in_i64(q_add(q_from_real(c as int), q@)),
        ensures
            r@ == q_add(q_from_real(c as int), q@),
    {
        Self { s: c + q.s, x: q.x, y: q.y, z: q.z }
    }

    /// Replaces `self` with `self + rhs`.
    pub fn add_assign(&mut self, rhs: Self)
        requires
            in_i64(q_add(old(self)@, rhs@)),
        ensures
            final(self)@ == q_add(old(self)@, rhs@),
    {
        *self = (*self).add(rhs);
    }

    /// Replaces `self` with `self + c`.
    pub fn add_assign_scalar(&mut self, c: i64)
        requires
            in_i64(q_add(old(self)@, q_from_real(c as int))),
        ensures
            final(self)@ == q_add(old(self)@, q_from_real(c as int)),
    {
        *self = (*self).add_scalar(c);
    }

    /// Component-wise subtraction.
    pub fn sub(self, rhs: Self) -> (r: Self)
        requires
            in_i64(q_sub(self@, rhs@)),
        ensures
            r@ == q_sub(self@, rhs@),
    {
        Self { s: self.s - rhs.s, x: self.x - rhs.x, y: self.y - rhs.y, z: self.z - rhs.z }
    }

    /// Subtracts a bare scalar, which acts on the scalar part alone.
    pub fn sub_scalar(self, c: i64) -> (r: Self)
        requires
            in_i64(q_sub(self@, q_from_real(c as int))),
        ensures
            r@ == q_sub(self@, q_from_real(c as int)),
    {
        Self { s: self.s - c, x: self.x, y: self.y, z: self.z }
    }

    /// Subtracts a quaternion from a bare scalar: the imaginary parts change sign.
    pub fn scalar_sub(c: i64, q: Self) -> (r: Self)
        requires
            in_i64(q_sub(q_from_real(c as int), q@)),
        ensures
            r@ == q_sub(q_from_real(c as int), q@),
    {
        Self { s: c - q.s, x: -q.x, y: -q.y, z: -q.z }
    }

    /// Replaces `self` with `self - rhs`.
    pub fn sub_assign(&mut self, rhs: Self)
        requires
            in_i64(q_sub(old(self)@, rhs@)),
        ensures
            final(self)@ == q_sub(old(self)@, rhs@),
    {
        *self = (*self).sub(rhs);
    }

    /// Replaces `self` with `self - c`.
    pub fn sub_assign_scalar(&mut self, c: i64)
        requires
            in_i64(q_sub(old(self)@, q_from_real(c as int))),
        ensures
            final(self)@ == q_sub(old(self)@, q_from_real(c as int)),
    {
        *self = (*self).sub_scalar(c);
    }

    /// The Hamilton product.
    pub fn mul(self, rhs: Self) -> (r: Self)
        requires
            fits(self@),
            fits(rhs@),
            in_i64(q_mul(self@, rhs@)),
        ensures
            r@ == q_mul(self@, rhs@),
    {
        let ps = self.s as i128;
        let px = self.x as i128;
        let py = self.y as i128;
        let pz = self.z as i128;
        let qs = rhs.s as i128;
        let qx = rhs.x as i128;
        let qy = rhs.y as i128;
        let qz = rhs.z as i128;
        proof {
            lemma_prod_bounded(self.s as int, rhs.s as int);
            lemma_prod_bounded(self.s as int, rhs.x as int);
            lemma_prod_bounded(self.s as int, rhs.y as int);
            lemma_prod_bounded(self.s as int, rhs.z as int);
            lemma_prod_bounded(self.x as int, rhs.s as int);
            lemma_prod_bounded(self.x as int, rhs.x as int);
            lemma_prod_bounded(self.x as int, rhs.y as int);
            lemma_prod_bounded(self.x as int, rhs.z as int);
            lemma_prod_bounded(self.y as int, rhs.s as int);
            lemma_prod_bounded(self.y as int, rhs.x as int);
            lemma_prod_bounded(self.y as int, rhs.y as int);
            lemma_prod_bounded(self.y as int, rhs.z as int);
            lemma_prod_bounded(self.z as int, rhs.s as int);
            lemma_prod_bounded(self.z as int, rhs.x as int);
            lemma_prod_bounded(self.z as int, rhs.y as int);
            lemma_prod_bounded(self.z as int, rhs.z as int);
        }
        let s = ps * qs - px * qx - py * qy - pz * qz;
        let x = ps * qx + px * qs + py * qz - pz * qy;
        let y = ps * qy + py * qs + pz * qx - px * qz;
        let z = ps * qz + pz * qs + px * qy - py * qx;
        Self { s: s as i64, x: x as i64, y: y as i64, z: z as i64 }
    }

    /// Multiplies by a bare scalar: uniform scaling of all four components.
    pub fn mul_scalar(self, c: i64) -> (r: Self)
        requires
            in_i64(q_scale(c as int, self@)),
        ensures
            r@ == q_scale(c as int, self@),
    {
        proof {
            lemma_prod_i64(c as int, self.s as int);
            lemma_prod_i64(c as int, self.x as int);
            lemma_prod_i64(c as int, self.y as int);
            lemma_prod_i64(c as int, self.z as int);
        }
        let w = c as i128;
        Self {
            s: (w * (self.s as i128)) as i64,
            x: (w * (self.x as i128)) as i64,
            y: (w * (self.y as i128)) as i64,
            z: (w * (self.z as i128)) as i64,
        }
    }

    /// Multiplies a bare scalar by a quaternion on the right; scaling is commutative.
    pub fn scalar_mul(c: i64, q: Self) -> (r: Self)
        requires
            in_i64(q_scale(c as int, q@)),
        ensures
            r@ == q_scale(c as int, q@),
    {
        q.mul_scalar(c)
    }

    /// Replaces `self` with `self * rhs` (Hamilton product).
    pub fn mul_assign(&mut self, rhs: Self)
        requires
            fits(old(self)@),
            fits(rhs@),
            in_i64(q_mul(old(self)@, rhs@)),
        ensures
            final(self)@ == q_mul(old(self)@, rhs@),
    {
        *self = (*self).mul(rhs);
    }

    /// Replaces `self` with `self * c`.
    pub fn mul_assign_scalar(&mut self, c: i64)
        requires
            in_i64(q_scale(c as int, old(self)@)),
        ensures
            final(self)@ == q_scale(c as int, old(self)@),
    {
        *self = (*self).mul_scalar(c);
    }

    /// The squared norm `s^2 + x^2 + y^2 + z^2`. Always nonnegative.
    pub fn normsq(self) -> (r: i64)
        requires
            fits(self@),
            q_normsq(self@) <= i64::MAX,
        ensures
            r == q_normsq(self@),
            r >= 0,
    {
        proof {
            lemma_prod_bounded(self.s as int, self.s as int);
            lemma_prod_bounded(self.x as int, self.x as int);
            lemma_prod_bounded(self.y as int, self.y as int);
            lemma_prod_bounded(self.z as int, self.z as int);
            lemma_square_nonneg(self.s as int);
            lemma_square_nonneg(self.x as int);
            lemma_square_nonneg(self.y as int);
            lemma_square_nonneg(self.z as int);
        }
        let s = self.s as i128;
        let x = self.x as i128;
        let y = self.y as i128;
        let z = self.z as i128;
        (s * s + x * x + y * y + z * z) as i64
    }

    /// The dot product of the component 4-vectors. Bilinear and symmetric.
    pub fn dot(self, rhs: Self) -> (r: i64)
        requires
            fits(self@),
            fits(rhs@),
            i64::MIN <= q_dot(self@, rhs@) <= i64::MAX,
        ensures
            r == q_dot(self@, rhs@),
    {
        proof {
            lemma_prod_bounded(self.s as int, rhs.s as int);
            lemma_prod_bounded(self.x as int, rhs.x as int);
            lemma_prod_bounded(self.y as int, rhs.y as int);
            lemma_prod_bounded(self.z as int, rhs.z as int);
        }
        let r = (self.s as i128) * (rhs.s as i128) + (self.x as i128) * (rhs.x as i128)
            + (self.y as i128) * (rhs.y as i128) + (self.z as i128) * (rhs.z as i128);
        r as i64
    }

    /// The exact multiplicative inverse `conj(self) / normsq(self)`, returned
    /// as a numerator-denominator pair. The pair denotes a quaternion only
    /// when `self` is nonzero, that is when its denominator is nonzero.
    pub fn inv(self) -> (r: ScaledQuaternion)
        requires
            fits(self@),
            q_normsq(self@) <= i64::MAX,
        ensures
            r.num@ == q_conj(self@),
            r.den == q_normsq(self@),
    {
        ScaledQuaternion { num: self.conj(), den: self.normsq() }
    }

    /// The exact quotient of a quaternion by a bare scalar.
    pub fn div_scalar(self, c: i64) -> (r: ScaledQuaternion)
        requires
            c != 0,
        ensures
            r.num == self,
            r.den == c,
    {
        ScaledQuaternion { num: self, den: c }
    }
}

} // verus!
