//! Complex scalars carried as raw component payloads.
//!
//! A complex scalar is a pair of real components.  As everywhere in this
//! library, each component is carried as its stored bit pattern, so the
//! structural operations — building a value from components, taking the
//! conjugate or the negative, both of which only flip stored sign bits —
//! have exact contracts, while arithmetic on the represented numbers stays
//! outside the library.

use vstd::prelude::*;

verus! {

/// The sign bit of the 64-bit scalar format.
pub const SIGN_BIT_F64: u64 = 0x8000_0000_0000_0000;

/// The sign bit of the 32-bit scalar format.
pub const SIGN_BIT_F32: u32 = 0x8000_0000;

/// `x` with its stored sign reversed, in the 64-bit format.
pub open spec fn sign_flipped_f64(x: u64) -> u64 {
    x ^ SIGN_BIT_F64
}

/// `x` with its stored sign reversed, in the 32-bit format.
pub open spec fn sign_flipped_f32(x: u32) -> u32 {
    x ^ SIGN_BIT_F32
}

/// A double-precision complex scalar: real and imaginary component
/// payloads, stored side by side.
#[derive(Clone, Copy, Debug, PartialEq, Eq, Structural)]
pub struct ComplexF64 {
    /// Payload of the real component.
    pub re: u64,
    /// Payload of the imaginary component.
    pub im: u64,
}

/// A single-precision complex scalar: real and imaginary component
/// payloads, stored side by side.
#[derive(Clone, Copy, Debug, PartialEq, Eq, Structural)]
pub struct ComplexF32 {
    /// Payload of the real component.
    pub re: u32,
    /// Payload of the imaginary component.
    pub im: u32,
}

impl ComplexF64 {
    /// The complex scalar with rectangular components `re` and `im`.
    pub fn rect(re: u64, im: u64) -> (r: ComplexF64)
        ensures
            r == (ComplexF64 { re, im }),
    {
        ComplexF64 { re, im }
    }

    /// The complex conjugate: the imaginary component changes sign.
    pub fn conjugate(&self) -> (r: ComplexF64)
        ensures
            r.re == self.re,
            r.im == sign_flipped_f64(self.im),
    {
        ComplexF64 { re: self.re, im: self.im ^ SIGN_BIT_F64 }
    }

    /// The negative: both components change sign.
    pub fn negative(&self) -> (r: ComplexF64)
        ensures
            r.re == sign_flipped_f64(self.re),
            r.im == sign_flipped_f64(self.im),
    {
        ComplexF64 { re: self.re ^ SIGN_BIT_F64, im: self.im ^ SIGN_BIT_F64 }
    }
}

impl ComplexF32 {
    /// The complex scalar with rectangular components `re` and `im`.
    pub fn rect(re: u32, im: u32) -> (r: ComplexF32)
        ensures
            r == (ComplexF32 { re, im }),
    {
        ComplexF32 { re, im }
    }

    /// The complex conjugate: the imaginary component changes sign.
    pub fn conjugate(&self) -> (r: ComplexF32)
        ensures
            r.re == self.re,
            r.im == sign_flipped_f32(self.im),
    {
        ComplexF32 { re: self.re, im: self.im ^ SIGN_BIT_F32 }
    }

    /// The negative: both components change sign.
    pub fn negative(&self) -> (r: ComplexF32)
        ensures
            r.re == sign_flipped_f32(self.re),
            r.im == sign_flipped_f32(self.im),
    {
        ComplexF32 { re: self.re ^ SIGN_BIT_F32, im: self.im ^ SIGN_BIT_F32 }
    }
}

} // verus!
