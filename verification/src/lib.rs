//! Exact quaternion algebra.
//!
//! A [`algebra::Quaternion`] is a value of the quaternion algebra H with
//! integer components: a scalar part `s` and three imaginary parts `x`, `y`,
//! `z` along the basis units i, j, k. The crate provides the Hamilton
//! product, conjugation, the squared norm, the dot product and the exact
//! multiplicative inverse, together with proofs of the algebraic laws they
//! obey: conjugation is an involution and an anti-automorphism, the squared
//! norm is multiplicative, and a nonzero quaternion times its inverse is one.
//!
//! The spec-level model lives in [`model`]; the laws are stated and proved in
//! [`laws`]. Transcendental maps on quaternions (exponential, logarithm,
//! real powers) need floating-point arithmetic and are outside this crate's
//! verified scope.

pub mod algebra;
pub mod display;
pub mod laws;
pub mod model;

pub use algebra::Quaternion;
pub use algebra::ScaledQuaternion;
