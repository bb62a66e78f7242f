//! A small complex-number value type, verified with Verus.
//!
//! A complex number holds two IEEE 754 binary64 values, carried throughout as
//! their 64-bit encodings, together with a tag that says whether the pair is
//! to be read as Cartesian coordinates (real and imaginary part) or as polar
//! coordinates (modulus and angle). The arithmetic operators, the modulus and
//! the conjugate work on Cartesian values; conversions take a value between
//! the two forms and are no-ops on values already in the target form.

pub mod complex;
pub mod float_bits;
pub mod laws;
