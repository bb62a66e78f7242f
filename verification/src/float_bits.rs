//! Arithmetic on IEEE 754 binary64 encodings.
//!
//! Throughout the crate a double-precision value is carried as its 64-bit
//! encoding (a `u64`). The four arithmetic operations are computed in
//! software by the `rustc_apfloat` crate and the square root by its
//! companion `ieee-apsqrt`; both produce the correctly rounded IEEE 754
//! binary64 result directly on the encodings, rounding to nearest with ties
//! to even. Because each of these operations is correctly rounded, its result
//! is a function of the operands' encodings alone; the spec functions below
//! name those results, and the contracts of the crate are stated over these
//! names.

use vstd::prelude::*;
use rustc_apfloat::Float;
use rustc_apfloat::Round;
use rustc_apfloat::ieee::Double;

verus! {

/// The sign bit of a binary64 encoding.
pub const SIGN_BIT: u64 = 0x8000_0000_0000_0000;

/// The encoding of the IEEE 754 binary64 sum of the two encoded operands.
pub uninterp spec fn add_bits(a: u64, b: u64) -> u64;

/// The encoding of the IEEE 754 binary64 difference of the two encoded operands.
pub uninterp spec fn sub_bits(a: u64, b: u64) -> u64;

/// The encoding of the IEEE 754 binary64 product of the two encoded operands.
pub uninterp spec fn mul_bits(a: u64, b: u64) -> u64;

/// The encoding of the IEEE 754 binary64 quotient of the two encoded operands.
pub uninterp spec fn div_bits(a: u64, b: u64) -> u64;

/// The encoding of the IEEE 754 binary64 square root of the encoded operand.
pub uninterp spec fn sqrt_bits(a: u64) -> u64;

/// The encoding of the negation of the encoded operand. IEEE 754 negation is
/// exact: it flips the sign bit and leaves the rest of the encoding unchanged,
/// so unlike the operations above it needs no outside arithmetic.
pub open spec fn negate_bits(a: u64) -> u64 {
    a ^ SIGN_BIT
}

/// Relies on `rustc_apfloat::Float::add_r` for `ieee::Double`: correctly
/// rounded IEEE 754 binary64 addition on the encodings, rounding to nearest
/// with ties to even.
#[verifier::external_body]
pub(crate) fn float_add(a: u64, b: u64) -> (r: u64)
    ensures
        r == add_bits(a, b),
{
    let x = Double::from_bits(a as u128);
    let y = Double::from_bits(b as u128);
    x.add_r(y, Round::NearestTiesToEven).value.to_bits() as u64
}

/// Relies on `rustc_apfloat::Float::sub_r` for `ieee::Double`: correctly
/// rounded IEEE 754 binary64 subtraction on the encodings, rounding to
/// nearest with ties to even.
#[verifier::external_body]
pub(crate) fn float_sub(a: u64, b: u64) -> (r: u64)
    ensures
        r == sub_bits(a, b),
{
    let x = Double::from_bits(a as u128);
    let y = Double::from_bits(b as u128);
    x.sub_r(y, Round::NearestTiesToEven).value.to_bits() as u64
}

/// Relies on `rustc_apfloat::Float::mul_r` for `ieee::Double`: correctly
/// rounded IEEE 754 binary64 multiplication on the encodings, rounding to
/// nearest with ties to even.
#[verifier::external_body]
pub(crate) fn float_mul(a: u64, b: u64) -> (r: u64)
    ensures
        r == mul_bits(a, b),
{
    let x = Double::from_bits(a as u128);
    let y = Double::from_bits(b as u128);
    x.mul_r(y, Round::NearestTiesToEven).value.to_bits() as u64
}

/// Relies on `rustc_apfloat::Float::div_r` for `ieee::Double`: correctly
/// rounded IEEE 754 binary64 division on the encodings, rounding to nearest
/// with ties to even. A zero divisor gives the IEEE infinity or NaN encoding,
/// never a failure.
#[verifier::external_body]
pub(crate) fn float_div(a: u64, b: u64) -> (r: u64)
    ensures
        r == div_bits(a, b),
{
    let x = Double::from_bits(a as u128);
    let y = Double::from_bits(b as u128);
    x.div_r(y, Round::NearestTiesToEven).value.to_bits() as u64
}

/// Relies on `ieee_apsqrt::sqrt_accurate` over `u64`: correctly rounded
/// IEEE 754 binary64 square root on the encoding, rounding to nearest with
/// ties to even. A negative operand gives a NaN encoding, never a failure.
#[verifier::external_body]
pub(crate) fn float_sqrt(a: u64) -> (r: u64)
    ensures
        r == sqrt_bits(a),
{
    ieee_apsqrt::sqrt_accurate(a, Round::NearestTiesToEven).0.value
}

} // verus!
