//! Small integer powers.
//!
//! The engine computes `x^n` for integer `n` by repeated squaring — `x^8`
//! costs three multiplications — and offers shorthands for the small fixed
//! exponents.  The scalar arithmetic lives outside the library, so the
//! trait is declared here for the library's callers to implement over
//! their scalar type.

use vstd::prelude::*;

verus! {

/// Small integer powers of a scalar.
pub trait Pow: Sized {
    /// The power `x^n` for integer `n`, computed by repeated squaring.
    fn pow_int(&self, n: i32) -> Self;

    /// The power `x^n` for unsigned integer `n`, computed by repeated
    /// squaring.
    fn pow_uint(&self, n: u32) -> Self;

    /// The square `x^2`.
    fn pow2(&self) -> Self;

    /// The cube `x^3`.
    fn pow3(&self) -> Self;

    /// The power `x^4`.
    fn pow4(&self) -> Self;

    /// The power `x^5`.
    fn pow5(&self) -> Self;

    /// The power `x^6`.
    fn pow6(&self) -> Self;

    /// The power `x^7`.
    fn pow7(&self) -> Self;

    /// The power `x^8`.
    fn pow8(&self) -> Self;

    /// The power `x^9`.
    fn pow9(&self) -> Self;
}

} // verus!
