//! The mathematical model: quaternions with unbounded integer components.
//!
//! Everything here is specification code. The executable type in
//! [`crate::algebra`] views into [`Quat`], and the laws in [`crate::laws`]
//! are stated over the spec functions below.

use vstd::prelude::*;

verus! {

/// A quaternion `s + x i + y j + z k` over the unbounded integers.
pub struct Quat {
    pub s: int,
    pub x: int,
    pub y: int,
    pub z: int,
}

/// The zero quaternion.
pub open spec fn q_zero() -> Quat {
    Quat { s: 0, x: 0, y: 0, z: 0 }
}

/// The multiplicative identity `1 + 0i + 0j + 0k`.
pub open spec fn q_one() -> Quat {
    Quat { s: 1, x: 0, y: 0, z: 0 }
}

/// The embedding of a real (here: integer) scalar into the algebra:
/// `c` becomes `c + 0i + 0j + 0k`.
pub open spec fn q_from_real(c: int) -> Quat {
    Quat { s: c, x: 0, y: 0, z: 0 }
}

/// Component-wise addition.
pub open spec fn q_add(p: Quat, q: Quat) -> Quat {
    Quat { s: p.s + q.s, x: p.x + q.x, y: p.y + q.y, z: p.z + q.z }
}

/// Component-wise subtraction.
pub open spec fn q_sub(p: Quat, q: Quat) -> Quat {
    Quat { s: p.s - q.s, x: p.x - q.x, y: p.y - q.y, z: p.z - q.z }
}

/// Component-wise negation.
pub open spec fn q_neg(q: Quat) -> Quat {
    Quat { s: -q.s, x: -q.x, y: -q.y, z: -q.z }
}

/// Conjugation: the imaginary parts change sign.
pub open spec fn q_conj(q: Quat) -> Quat {
    Quat { s: q.s, x: -q.x, y: -q.y, z: -q.z }
}

/// The Hamilton product.
pub open spec fn q_mul(p: Quat, q: Quat) -> Quat {
    Quat {
        s: p.s * q.s - p.x * q.x - p.y * q.y - p.z * q.z,
        x: p.s * q.x + p.x * q.s + p.y * q.z - p.z * q.y,
        y: p.s * q.y + p.y * q.s + p.z * q.x - p.x * q.z,
        z: p.s * q.z + p.z * q.s + p.x * q.y - p.y * q.x,
    }
}

/// Uniform scaling of all four components by a scalar.
pub open spec fn q_scale(c: int, q: Quat) -> Quat {
    Quat { s: c * q.s, x: c * q.x, y: c * q.y, z: c * q.z }
}

/// The squared norm `s^2 + x^2 + y^2 + z^2`.
pub open spec fn q_normsq(q: Quat) -> int {
    q.s * q.s + q.x * q.x + q.y * q.y + q.z * q.z
}

/// The euclidean dot product of the two 4-vectors of components.
pub open spec fn q_dot(p: Quat, q: Quat) -> int {
    p.s * q.s + p.x * q.x + p.y * q.y + p.z * q.z
}

} // verus!
