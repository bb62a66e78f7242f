//! Laws that relate the operations of [`crate::complex`] to one another.
//!
//! Each proof function states one such law over the spec functions that the
//! operations' own contracts use, so the law carries over to the executable
//! operations at every call site.

use vstd::prelude::*;
use crate::complex::{Complex, spec_conjugate, spec_to_cartesian, spec_to_polar};
use crate::float_bits::{negate_bits, SIGN_BIT};

verus! {

/// Conjugation keeps the real part, negates the imaginary part, and is an
/// involution on Cartesian values: taking the conjugate twice gives back the
/// original value exactly, since IEEE negation is a sign-bit flip and never
/// rounds.
pub proof fn lemma_conjugate_involution(z: Complex)
    requires
        z.is_cartesian,
    ensures
        spec_conjugate(z).real == z.real,
        spec_conjugate(z).imaginary == negate_bits(z.imaginary),
        spec_conjugate(spec_conjugate(z)) == z,
{
    let m = z.imaginary;
    assert(SIGN_BIT == 0x8000_0000_0000_0000u64);
    assert((m ^ 0x8000_0000_0000_0000u64) ^ 0x8000_0000_0000_0000u64 == m) by (bit_vector);
}

/// Converting to polar form always yields a polar-tagged value, and a value
/// already polar comes back unchanged; so a second conversion, with whatever
/// angle and sine encodings, is a no-op.
pub proof fn lemma_to_polar_idempotent(
    z: Complex,
    theta1: u64,
    sin_theta1: u64,
    theta2: u64,
    sin_theta2: u64,
)
    ensures
        spec_to_polar(spec_to_polar(z, theta1, sin_theta1), theta2, sin_theta2) == spec_to_polar(
            z,
            theta1,
            sin_theta1,
        ),
{
}

/// Converting to Cartesian form always yields a Cartesian-tagged value, and a
/// value already Cartesian comes back unchanged; so a second conversion, with
/// whatever cosine and sine encodings, is a no-op.
pub proof fn lemma_to_cartesian_idempotent(
    z: Complex,
    cos_theta1: u64,
    sin_theta1: u64,
    cos_theta2: u64,
    sin_theta2: u64,
)
    ensures
        spec_to_cartesian(spec_to_cartesian(z, cos_theta1, sin_theta1), cos_theta2, sin_theta2)
            == spec_to_cartesian(z, cos_theta1, sin_theta1),
{
}

} // verus!
