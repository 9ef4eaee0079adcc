//! The algebraic laws of the quaternion algebra, stated and proved over the
//! model in [`crate::model`].
//!
//! The executable operations in [`crate::algebra`] each return exactly the
//! model operation of their arguments' views, so every law below carries over
//! to the executable results.

use vstd::prelude::*;

use crate::model::q_add;
use crate::model::q_conj;
use crate::model::q_dot;
use crate::model::q_from_real;
use crate::model::q_mul;
use crate::model::q_neg;
use crate::model::q_normsq;
use crate::model::q_one;
use crate::model::q_scale;
use crate::model::q_sub;
use crate::model::Quat;

verus! {

/// Multiplication distributes over a two-term sum.
proof fn lemma_int_distrib(a: int, b: int, c: int)
    by (nonlinear_arith)
    ensures
        a * (b + c) == a * b + a * c,
        (a + b) * c == a * c + b * c,
{
}

/// Multiplication distributes over the four-term combinations that the
/// Hamilton product builds, from either side.
proof fn lemma_int_distrib4(a: int, b: int, c: int, d: int, e: int)
    by (nonlinear_arith)
    ensures
        a * (b + c + d - e) == a * b + a * c + a * d - a * e,
        a * (b - c - d - e) == a * b - a * c - a * d - a * e,
        (b + c + d - e) * a == b * a + c * a + d * a - e * a,
        (b - c - d - e) * a == b * a - c * a - d * a - e * a,
{
}

/// Multiplication of integers is associative.
proof fn lemma_int_assoc(a: int, b: int, c: int)
    by (nonlinear_arith)
    ensures
        a * (b * c) == (a * b) * c,
{
}

/// A scalar factor moves out over the first factor of a product.
proof fn lemma_int_swap(a: int, c: int, b: int)
    by (nonlinear_arith)
    ensures
        a * (c * b) == c * (a * b),
{
}

/// Conjugation is an involution: conjugating twice gives the value back.
pub proof fn lemma_conj_involution(q: Quat)
    ensures
        q_conj(q_conj(q)) == q,
{
}

/// Conjugation is a homomorphism over addition.
pub proof fn lemma_conj_add(p: Quat, q: Quat)
    ensures
        q_conj(q_add(p, q)) == q_add(q_conj(p), q_conj(q)),
{
}

/// Conjugation is an anti-automorphism over the Hamilton product:
/// it reverses the order of the factors.
pub proof fn lemma_conj_mul(p: Quat, q: Quat)
    by (nonlinear_arith)
    ensures
        q_conj(q_mul(p, q)) == q_mul(q_conj(q), q_conj(p)),
{
}

/// A quaternion commutes with its own conjugate, and their product is the
/// squared norm embedded as a pure-scalar quaternion. For nonzero `q` this is
/// the exact inverse law: the inverse is `conj(q) / normsq(q)`, and
/// `q * conj(q) == normsq(q) * 1` says that `q` times that ratio is one.
pub proof fn lemma_mul_conj(q: Quat)
    by (nonlinear_arith)
    ensures
        q_mul(q, q_conj(q)) == q_mul(q_conj(q), q),
        q_mul(q, q_conj(q)) == q_scale(q_normsq(q), q_one()),
{
}

/// Conjugation preserves the squared norm.
pub proof fn lemma_normsq_conj(q: Quat)
    by (nonlinear_arith)
    ensures
        q_normsq(q_conj(q)) == q_normsq(q),
{
}

/// Scaling the left factor scales the Hamilton product: `(c p) q == c (p q)`.
pub proof fn lemma_scale_mul_left(c: int, p: Quat, q: Quat)
    ensures
        q_mul(q_scale(c, p), q) == q_scale(c, q_mul(p, q)),
{
    lemma_int_assoc(c, p.s, q.s);
    lemma_int_assoc(c, p.s, q.x);
    lemma_int_assoc(c, p.s, q.y);
    lemma_int_assoc(c, p.s, q.z);
    lemma_int_assoc(c, p.x, q.s);
    lemma_int_assoc(c, p.x, q.x);
    lemma_int_assoc(c, p.x, q.y);
    lemma_int_assoc(c, p.x, q.z);
    lemma_int_assoc(c, p.y, q.s);
    lemma_int_assoc(c, p.y, q.x);
    lemma_int_assoc(c, p.y, q.y);
    lemma_int_assoc(c, p.y, q.z);
    lemma_int_assoc(c, p.z, q.s);
    lemma_int_assoc(c, p.z, q.x);
    lemma_int_assoc(c, p.z, q.y);
    lemma_int_assoc(c, p.z, q.z);
    lemma_int_distrib4(c, p.s * q.s, p.x * q.x, p.y * q.y, p.z * q.z);
    lemma_int_distrib4(c, p.s * q.x, p.x * q.s, p.y * q.z, p.z * q.y);
    lemma_int_distrib4(c, p.s * q.y, p.y * q.s, p.z * q.x, p.x * q.z);
    lemma_int_distrib4(c, p.s * q.z, p.z * q.s, p.x * q.y, p.y * q.x);
}

/// Scaling the right factor scales the Hamilton product: `p (c q) == c (p q)`.
pub proof fn lemma_scale_mul_right(c: int, p: Quat, q: Quat)
    ensures
        q_mul(p, q_scale(c, q)) == q_scale(c, q_mul(p, q)),
{
    lemma_int_swap(p.s, c, q.s);
    lemma_int_swap(p.s, c, q.x);
    lemma_int_swap(p.s, c, q.y);
    lemma_int_swap(p.s, c, q.z);
    lemma_int_swap(p.x, c, q.s);
    lemma_int_swap(p.x, c, q.x);
    lemma_int_swap(p.x, c, q.y);
    lemma_int_swap(p.x, c, q.z);
    lemma_int_swap(p.y, c, q.s);
    lemma_int_swap(p.y, c, q.x);
    lemma_int_swap(p.y, c, q.y);
    lemma_int_swap(p.y, c, q.z);
    lemma_int_swap(p.z, c, q.s);
    lemma_int_swap(p.z, c, q.x);
    lemma_int_swap(p.z, c, q.y);
    lemma_int_swap(p.z, c, q.z);
    lemma_int_distrib4(c, p.s * q.s, p.x * q.x, p.y * q.y, p.z * q.z);
    lemma_int_distrib4(c, p.s * q.x, p.x * q.s, p.y * q.z, p.z * q.y);
    lemma_int_distrib4(c, p.s * q.y, p.y * q.s, p.z * q.x, p.x * q.z);
    lemma_int_distrib4(c, p.s * q.z, p.z * q.s, p.x * q.y, p.y * q.x);
}

/// Two scalings compose by multiplying the scalars.
pub proof fn lemma_scale_scale(a: int, b: int, q: Quat)
    ensures
        q_scale(a, q_scale(b, q)) == q_scale(a * b, q),
{
    lemma_int_assoc(a, b, q.s);
    lemma_int_assoc(a, b, q.x);
    lemma_int_assoc(a, b, q.y);
    lemma_int_assoc(a, b, q.z);
}

/// The squared norm is multiplicative over the Hamilton product
/// (Euler's four-square identity). The proof rewrites `(p q) conj(p q)`
/// into `normsq(q) (p conj(p))` by the conjugation, associativity and
/// scaling laws and reads the identity off the scalar component.
pub proof fn lemma_normsq_mul(p: Quat, q: Quat)
    ensures
        q_normsq(q_mul(p, q)) == q_normsq(p) * q_normsq(q),
{
    let pq = q_mul(p, q);
    let np = q_normsq(p);
    let nq = q_normsq(q);
    lemma_mul_conj(pq);
    lemma_conj_mul(p, q);
    lemma_mul_associates(pq, q_conj(q), q_conj(p));
    lemma_mul_associates(p, q, q_conj(q));
    lemma_mul_conj(q);
    lemma_scale_mul_right(nq, p, q_one());
    lemma_mul_one(p);
    lemma_scale_mul_left(nq, p, q_conj(p));
    lemma_mul_conj(p);
    lemma_scale_scale(nq, np, q_one());
    assert(q_scale(q_normsq(pq), q_one()) == q_scale(nq * np, q_one()));
    assert(q_normsq(pq) == nq * np);
    assert(nq * np == np * nq) by (nonlinear_arith);
}

/// A nonzero quaternion times its exact inverse is one. The inverse is the
/// ratio `conj(q) / normsq(q)`; multiplying `q` by its numerator, on either
/// side, gives the denominator times the identity, so the quotient is
/// exactly the identity quaternion.
pub proof fn lemma_inv_is_one(q: Quat)
    requires
        q_normsq(q) != 0,
    ensures
        q_mul(q, q_conj(q)) == q_scale(q_normsq(q), q_one()),
        q_mul(q_conj(q), q) == q_scale(q_normsq(q), q_one()),
{
    lemma_mul_conj(q);
}

/// The dot product of a quaternion with itself is its squared norm.
pub proof fn lemma_dot_self(q: Quat)
    ensures
        q_dot(q, q) == q_normsq(q),
{
}

/// The dot product is symmetric.
pub proof fn lemma_dot_symmetric(p: Quat, q: Quat)
    by (nonlinear_arith)
    ensures
        q_dot(p, q) == q_dot(q, p),
{
}

/// Addition is commutative.
pub proof fn lemma_add_commutes(p: Quat, q: Quat)
    ensures
        q_add(p, q) == q_add(q, p),
{
}

/// Addition is associative.
pub proof fn lemma_add_associates(p: Quat, q: Quat, r: Quat)
    ensures
        q_add(p, q_add(q, r)) == q_add(q_add(p, q), r),
{
}

/// Subtraction adds the negation.
pub proof fn lemma_sub_is_add_neg(p: Quat, q: Quat)
    ensures
        q_sub(p, q) == q_add(p, q_neg(q)),
{
}

/// The Hamilton product is associative.
pub proof fn lemma_mul_associates(p: Quat, q: Quat, r: Quat)
    ensures
        q_mul(p, q_mul(q, r)) == q_mul(q_mul(p, q), r),
{
    lemma_int_assoc(p.s, q.s, r.s);
    lemma_int_assoc(p.s, q.s, r.x);
    lemma_int_assoc(p.s, q.s, r.y);
    lemma_int_assoc(p.s, q.s, r.z);
    lemma_int_assoc(p.s, q.x, r.s);
    lemma_int_assoc(p.s, q.x, r.x);
    lemma_int_assoc(p.s, q.x, r.y);
    lemma_int_assoc(p.s, q.x, r.z);
    lemma_int_assoc(p.s, q.y, r.s);
    lemma_int_assoc(p.s, q.y, r.x);
    lemma_int_assoc(p.s, q.y, r.y);
    lemma_int_assoc(p.s, q.y, r.z);
    lemma_int_assoc(p.s, q.z, r.s);
    lemma_int_assoc(p.s, q.z, r.x);
    lemma_int_assoc(p.s, q.z, r.y);
    lemma_int_assoc(p.s, q.z, r.z);
    lemma_int_assoc(p.x, q.s, r.s);
    lemma_int_assoc(p.x, q.s, r.x);
    lemma_int_assoc(p.x, q.s, r.y);
    lemma_int_assoc(p.x, q.s, r.z);
    lemma_int_assoc(p.x, q.x, r.s);
    lemma_int_assoc(p.x, q.x, r.x);
    lemma_int_assoc(p.x, q.x, r.y);
    lemma_int_assoc(p.x, q.x, r.z);
    lemma_int_assoc(p.x, q.y, r.s);
    lemma_int_assoc(p.x, q.y, r.x);
    lemma_int_assoc(p.x, q.y, r.y);
    lemma_int_assoc(p.x, q.y, r.z);
    lemma_int_assoc(p.x, q.z, r.s);
    lemma_int_assoc(p.x, q.z, r.x);
    lemma_int_assoc(p.x, q.z, r.y);
    lemma_int_assoc(p.x, q.z, r.z);
    lemma_int_assoc(p.y, q.s, r.s);
    lemma_int_assoc(p.y, q.s, r.x);
    lemma_int_assoc(p.y, q.s, r.y);
    lemma_int_assoc(p.y, q.s, r.z);
    lemma_int_assoc(p.y, q.x, r.s);
    lemma_int_assoc(p.y, q.x, r.x);
    lemma_int_assoc(p.y, q.x, r.y);
    lemma_int_assoc(p.y, q.x, r.z);
    lemma_int_assoc(p.y, q.y, r.s);
    lemma_int_assoc(p.y, q.y, r.x);
    lemma_int_assoc(p.y, q.y, r.y);
    lemma_int_assoc(p.y, q.y, r.z);
    lemma_int_assoc(p.y, q.z, r.s);
    lemma_int_assoc(p.y, q.z, r.x);
    lemma_int_assoc(p.y, q.z, r.y);
    lemma_int_assoc(p.y, q.z, r.z);
    lemma_int_assoc(p.z, q.s, r.s);
    lemma_int_assoc(p.z, q.s, r.x);
    lemma_int_assoc(p.z, q.s, r.y);
    lemma_int_assoc(p.z, q.s, r.z);
    lemma_int_assoc(p.z, q.x, r.s);
    lemma_int_assoc(p.z, q.x, r.x);
    lemma_int_assoc(p.z, q.x, r.y);
    lemma_int_assoc(p.z, q.x, r.z);
    lemma_int_assoc(p.z, q.y, r.s);
    lemma_int_assoc(p.z, q.y, r.x);
    lemma_int_assoc(p.z, q.y, r.y);
    lemma_int_assoc(p.z, q.y, r.z);
    lemma_int_assoc(p.z, q.z, r.s);
    lemma_int_assoc(p.z, q.z, r.x);
    lemma_int_assoc(p.z, q.z, r.y);
    lemma_int_assoc(p.z, q.z, r.z);
    lemma_int_distrib4(p.s, q.s * r.s, q.x * r.x, q.y * r.y, q.z * r.z);
    lemma_int_distrib4(p.s, q.s * r.x, q.x * r.s, q.y * r.z, q.z * r.y);
    lemma_int_distrib4(p.s, q.s * r.y, q.y * r.s, q.z * r.x, q.x * r.z);
    lemma_int_distrib4(p.s, q.s * r.z, q.z * r.s, q.x * r.y, q.y * r.x);
    lemma_int_distrib4(p.x, q.s * r.s, q.x * r.x, q.y * r.y, q.z * r.z);
    lemma_int_distrib4(p.x, q.s * r.x, q.x * r.s, q.y * r.z, q.z * r.y);
    lemma_int_distrib4(p.x, q.s * r.y, q.y * r.s, q.z * r.x, q.x * r.z);
    lemma_int_distrib4(p.x, q.s * r.z, q.z * r.s, q.x * r.y, q.y * r.x);
    lemma_int_distrib4(p.y, q.s * r.s, q.x * r.x, q.y * r.y, q.z * r.z);
    lemma_int_distrib4(p.y, q.s * r.x, q.x * r.s, q.y * r.z, q.z * r.y);
    lemma_int_distrib4(p.y, q.s * r.y, q.y * r.s, q.z * r.x, q.x * r.z);
    lemma_int_distrib4(p.y, q.s * r.z, q.z * r.s, q.x * r.y, q.y * r.x);
    lemma_int_distrib4(p.z, q.s * r.s, q.x * r.x, q.y * r.y, q.z * r.z);
    lemma_int_distrib4(p.z, q.s * r.x, q.x * r.s, q.y * r.z, q.z * r.y);
    lemma_int_distrib4(p.z, q.s * r.y, q.y * r.s, q.z * r.x, q.x * r.z);
    lemma_int_distrib4(p.z, q.s * r.z, q.z * r.s, q.x * r.y, q.y * r.x);
    lemma_int_distrib4(r.s, p.s * q.s, p.x * q.x, p.y * q.y, p.z * q.z);
    lemma_int_distrib4(r.x, p.s * q.s, p.x * q.x, p.y * q.y, p.z * q.z);
    lemma_int_distrib4(r.y, p.s * q.s, p.x * q.x, p.y * q.y, p.z * q.z);
    lemma_int_distrib4(r.z, p.s * q.s, p.x * q.x, p.y * q.y, p.z * q.z);
    lemma_int_distrib4(r.s, p.s * q.x, p.x * q.s, p.y * q.z, p.z * q.y);
    lemma_int_distrib4(r.x, p.s * q.x, p.x * q.s, p.y * q.z, p.z * q.y);
    lemma_int_distrib4(r.y, p.s * q.x, p.x * q.s, p.y * q.z, p.z * q.y);
    lemma_int_distrib4(r.z, p.s * q.x, p.x * q.s, p.y * q.z, p.z * q.y);
    lemma_int_distrib4(r.s, p.s * q.y, p.y * q.s, p.z * q.x, p.x * q.z);
    lemma_int_distrib4(r.x, p.s * q.y, p.y * q.s, p.z * q.x, p.x * q.z);
    lemma_int_distrib4(r.y, p.s * q.y, p.y * q.s, p.z * q.x, p.x * q.z);
    lemma_int_distrib4(r.z, p.s * q.y, p.y * q.s, p.z * q.x, p.x * q.z);
    lemma_int_distrib4(r.s, p.s * q.z, p.z * q.s, p.x * q.y, p.y * q.x);
    lemma_int_distrib4(r.x, p.s * q.z, p.z * q.s, p.x * q.y, p.y * q.x);
    lemma_int_distrib4(r.y, p.s * q.z, p.z * q.s, p.x * q.y, p.y * q.x);
    lemma_int_distrib4(r.z, p.s * q.z, p.z * q.s, p.x * q.y, p.y * q.x);
}

/// The Hamilton product distributes over addition on both sides.
pub proof fn lemma_mul_distributes(p: Quat, q: Quat, r: Quat)
    ensures
        q_mul(p, q_add(q, r)) == q_add(q_mul(p, q), q_mul(p, r)),
        q_mul(q_add(p, q), r) == q_add(q_mul(p, r), q_mul(q, r)),
{
    lemma_int_distrib(p.s, q.s, r.s);
    lemma_int_distrib(p.s, q.x, r.x);
    lemma_int_distrib(p.s, q.y, r.y);
    lemma_int_distrib(p.s, q.z, r.z);
    lemma_int_distrib(p.x, q.s, r.s);
    lemma_int_distrib(p.x, q.x, r.x);
    lemma_int_distrib(p.x, q.y, r.y);
    lemma_int_distrib(p.x, q.z, r.z);
    lemma_int_distrib(p.y, q.s, r.s);
    lemma_int_distrib(p.y, q.x, r.x);
    lemma_int_distrib(p.y, q.y, r.y);
    lemma_int_distrib(p.y, q.z, r.z);
    lemma_int_distrib(p.z, q.s, r.s);
    lemma_int_distrib(p.z, q.x, r.x);
    lemma_int_distrib(p.z, q.y, r.y);
    lemma_int_distrib(p.z, q.z, r.z);
    lemma_int_distrib(p.s, q.s, r.s);
    lemma_int_distrib(p.s, q.s, r.x);
    lemma_int_distrib(p.s, q.s, r.y);
    lemma_int_distrib(p.s, q.s, r.z);
    lemma_int_distrib(p.x, q.x, r.s);
    lemma_int_distrib(p.x, q.x, r.x);
    lemma_int_distrib(p.x, q.x, r.y);
    lemma_int_distrib(p.x, q.x, r.z);
    lemma_int_distrib(p.y, q.y, r.s);
    lemma_int_distrib(p.y, q.y, r.x);
    lemma_int_distrib(p.y, q.y, r.y);
    lemma_int_distrib(p.y, q.y, r.z);
    lemma_int_distrib(p.z, q.z, r.s);
    lemma_int_distrib(p.z, q.z, r.x);
    lemma_int_distrib(p.z, q.z, r.y);
    lemma_int_distrib(p.z, q.z, r.z);
}

/// One is a two-sided identity of the Hamilton product.
pub proof fn lemma_mul_one(q: Quat)
    ensures
        q_mul(q, q_one()) == q,
        q_mul(q_one(), q) == q,
{
}

/// Multiplying by an embedded scalar, on either side, is uniform scaling;
/// in particular a bare scalar commutes with every quaternion.
pub proof fn lemma_scale_embeds(c: int, q: Quat)
    by (nonlinear_arith)
    ensures
        q_mul(q, q_from_real(c)) == q_scale(c, q),
        q_mul(q_from_real(c), q) == q_scale(c, q),
{
}

} // verus!
