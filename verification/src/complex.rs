//! The complex-number value type and its operations.
//!
//! A [`Complex`] is two binary64 encodings and a tag. When the tag is set the
//! pair is Cartesian (real and imaginary part); when it is clear the pair is
//! polar (modulus and angle in radians, carried in the same two fields). The
//! arithmetic operators, the modulus and the conjugate read their operands as
//! Cartesian, so they ask for Cartesian-tagged operands; a polar value must be
//! converted first. Every operation returns a fresh value and leaves its
//! operands unchanged.
//!
//! The two conversions need the trigonometric functions, which have no
//! machine-independent result and therefore no place in the verified core:
//! the caller evaluates the arctangent, sine and cosine with ordinary
//! floating point and passes the encodings in. The contracts here hold for
//! whatever values the caller supplies; what is verified is how those values
//! are combined, that the tag is always set correctly, and that a value
//! already in the target form comes back unchanged.

use vstd::prelude::*;
use crate::float_bits::{add_bits, sub_bits, mul_bits, div_bits, sqrt_bits, negate_bits, SIGN_BIT};
use crate::float_bits::{float_add, float_sub, float_mul, float_div, float_sqrt};

verus! {

/// A complex number: two IEEE 754 binary64 encodings plus the tag that says
/// how to read them.
///
/// With `is_cartesian` set, `real` and `imaginary` encode the real and the
/// imaginary part. With it clear, `real` encodes the modulus and `imaginary`
/// the angle in radians.
#[derive(Clone, Copy, Debug, PartialEq, Eq, Structural)]
pub struct Complex {
    /// Encoding of the real part (Cartesian) or of the modulus (polar).
    pub real: u64,
    /// Encoding of the imaginary part (Cartesian) or of the angle (polar).
    pub imaginary: u64,
    /// Which way the two fields are to be read.
    pub is_cartesian: bool,
}

/// The conjugate of `z` read as Cartesian: the real part kept, the imaginary
/// part negated, the result tagged Cartesian.
pub open spec fn spec_conjugate(z: Complex) -> Complex {
    Complex { real: z.real, imaginary: negate_bits(z.imaginary), is_cartesian: true }
}

/// What converting `z` to polar form yields, given the encodings `theta` of
/// the angle and `sin_theta` of its sine: a polar-tagged value whose modulus
/// is `imaginary / sin theta`, or `z` itself unchanged when it is already
/// polar.
pub open spec fn spec_to_polar(z: Complex, theta: u64, sin_theta: u64) -> Complex {
    if z.is_cartesian {
        Complex {
            real: div_bits(z.imaginary, sin_theta),
            imaginary: theta,
            is_cartesian: false,
        }
    } else {
        z
    }
}

/// What converting `z` to Cartesian form yields, given the encodings
/// `cos_theta` and `sin_theta` of the cosine and sine of its angle: a
/// Cartesian-tagged value with real part `cos theta * modulus` and imaginary
/// part `sin theta * modulus`, or `z` itself unchanged when it is already
/// Cartesian.
pub open spec fn spec_to_cartesian(z: Complex, cos_theta: u64, sin_theta: u64) -> Complex {
    if z.is_cartesian {
        z
    } else {
        Complex {
            real: mul_bits(cos_theta, z.real),
            imaginary: mul_bits(sin_theta, z.real),
            is_cartesian: true,
        }
    }
}

impl Complex {
    /// A Cartesian value from the encodings of its real and imaginary part.
    /// Any encoding is accepted, finite or not.
    pub fn new(re: u64, im: u64) -> (r: Complex)
        ensures
            r == (Complex { real: re, imaginary: im, is_cartesian: true }),
    {
        Complex { real: re, imaginary: im, is_cartesian: true }
    }

    /// A polar value from the encodings of its modulus and its angle in
    /// radians. Any encoding is accepted; a negative modulus is not rejected.
    pub fn new_polar(rho: u64, theta: u64) -> (r: Complex)
        ensures
            r == (Complex { real: rho, imaginary: theta, is_cartesian: false }),
    {
        Complex { real: rho, imaginary: theta, is_cartesian: false }
    }

    /// The sum `(a+bi) + (c+di) = (a+c) + (b+d)i`, both operands read as
    /// Cartesian.
    pub fn add(&self, rhs: &Complex) -> (r: Complex)
        requires
            self.is_cartesian,
            rhs.is_cartesian,
        ensures
            r == (Complex {
                real: add_bits(self.real, rhs.real),
                imaginary: add_bits(self.imaginary, rhs.imaginary),
                is_cartesian: true,
            }),
    {
        Complex {
            real: float_add(self.real, rhs.real),
            imaginary: float_add(self.imaginary, rhs.imaginary),
            is_cartesian: true,
        }
    }

    /// The difference `(a+bi) - (c+di) = (a-c) + (b-d)i`, both operands read
    /// as Cartesian.
    pub fn sub(&self, rhs: &Complex) -> (r: Complex)
        requires
            self.is_cartesian,
            rhs.is_cartesian,
        ensures
            r == (Complex {
                real: sub_bits(self.real, rhs.real),
                imaginary: sub_bits(self.imaginary, rhs.imaginary),
                is_cartesian: true,
            }),
    {
        Complex {
            real: float_sub(self.real, rhs.real),
            imaginary: float_sub(self.imaginary, rhs.imaginary),
            is_cartesian: true,
        }
    }

    /// The product `(a+bi)(c+di) = (ac-bd) + (ad+bc)i`, both operands read as
    /// Cartesian.
    pub fn mul(&self, rhs: &Complex) -> (r: Complex)
        requires
            self.is_cartesian,
            rhs.is_cartesian,
        ensures
            r == (Complex {
                real: sub_bits(
                    mul_bits(self.real, rhs.real),
                    mul_bits(self.imaginary, rhs.imaginary),
                ),
                imaginary: add_bits(
                    mul_bits(self.real, rhs.imaginary),
                    mul_bits(self.imaginary, rhs.real),
                ),
                is_cartesian: true,
            }),
    {
        let ac = float_mul(self.real, rhs.real);
        let bd = float_mul(self.imaginary, rhs.imaginary);
        let ad = float_mul(self.real, rhs.imaginary);
        let bc = float_mul(self.imaginary, rhs.real);
        Complex { real: float_sub(ac, bd), imaginary: float_add(ad, bc), is_cartesian: true }
    }

    /// The quotient `(a+bi) / (c+di) = ((ac+bd) + (bc-ad)i) / (c^2+d^2)`,
    /// both operands read as Cartesian. A zero divisor gives IEEE infinity or
    /// NaN encodings in the result, never a failure.
    pub fn div(&self, rhs: &Complex) -> (r: Complex)
        requires
            self.is_cartesian,
            rhs.is_cartesian,
        ensures
            r == (Complex {
                real: div_bits(
                    add_bits(
                        mul_bits(self.real, rhs.real),
                        mul_bits(self.imaginary, rhs.imaginary),
                    ),
                    add_bits(mul_bits(rhs.real, rhs.real), mul_bits(rhs.imaginary, rhs.imaginary)),
                ),
                imaginary: div_bits(
                    sub_bits(
                        mul_bits(self.imaginary, rhs.real),
                        mul_bits(self.real, rhs.imaginary),
                    ),
                    add_bits(mul_bits(rhs.real, rhs.real), mul_bits(rhs.imaginary, rhs.imaginary)),
                ),
                is_cartesian: true,
            }),
    {
        let denominator = float_add(
            float_mul(rhs.real, rhs.real),
            float_mul(rhs.imaginary, rhs.imaginary),
        );
        let numerator_re = float_add(
            float_mul(self.real, rhs.real),
            float_mul(self.imaginary, rhs.imaginary),
        );
        let numerator_im = float_sub(
            float_mul(self.imaginary, rhs.real),
            float_mul(self.real, rhs.imaginary),
        );
        Complex {
            real: float_div(numerator_re, denominator),
            imaginary: float_div(numerator_im, denominator),
            is_cartesian: true,
        }
    }

    /// The modulus of this Cartesian value: the encoding of
    /// `sqrt(real^2 + imaginary^2)`. Never negative; the encoding of zero for
    /// the zero value.
    pub fn modulus(&self) -> (r: u64)
        requires
            self.is_cartesian,
        ensures
            r == sqrt_bits(
                add_bits(mul_bits(self.real, self.real), mul_bits(self.imaginary, self.imaginary)),
            ),
    {
        float_sqrt(
            float_add(
                float_mul(self.real, self.real),
                float_mul(self.imaginary, self.imaginary),
            ),
        )
    }

    /// The conjugate: the real part kept, the imaginary part negated. IEEE
    /// negation is exact (it flips the sign bit), so this operation involves
    /// no rounding at all.
    pub fn conjugate(&self) -> (r: Complex)
        requires
            self.is_cartesian,
        ensures
            r == spec_conjugate(*self),
            r.real == self.real,
            r.imaginary == negate_bits(self.imaginary),
    {
        Complex {
            real: self.real,
            imaginary: self.imaginary ^ SIGN_BIT,
            is_cartesian: true,
        }
    }

    /// The tangent of the angle of this Cartesian value: the encoding of
    /// `imaginary / real`. Converting to polar form starts from the
    /// arctangent of this quotient; the caller evaluates that arctangent and
    /// hands the result to [`Complex::to_polar`].
    pub fn angle_tangent(&self) -> (r: u64)
        requires
            self.is_cartesian,
        ensures
            r == div_bits(self.imaginary, self.real),
    {
        float_div(self.imaginary, self.real)
    }

    /// Conversion to polar form. A value already polar comes back unchanged,
    /// whatever the other arguments hold. For a Cartesian value the caller
    /// passes the encodings of the angle `theta` (the arctangent of
    /// [`Complex::angle_tangent`]) and of `sin theta`; the modulus is then
    /// `imaginary / sin theta` and the result is tagged polar.
    ///
    /// Known quirk, kept deliberately: when the imaginary part is zero and
    /// the real part is not, the angle is `atan(0) = 0` and the modulus
    /// formula degenerates to `0 / sin(0) = 0 / 0`, a NaN, even though the
    /// true modulus there is the magnitude of the real part. The NaN outcome
    /// is kept, not trapped.
    pub fn to_polar(&self, theta: u64, sin_theta: u64) -> (r: Complex)
        ensures
            r == spec_to_polar(*self, theta, sin_theta),
            !r.is_cartesian,
    {
        if !self.is_cartesian {
            *self
        } else {
            Complex {
                real: float_div(self.imaginary, sin_theta),
                imaginary: theta,
                is_cartesian: false,
            }
        }
    }

    /// Conversion to Cartesian form. A value already Cartesian comes back
    /// unchanged, whatever the other arguments hold. For a polar value the
    /// caller passes the encodings of the cosine and sine of its angle (the
    /// `imaginary` field); the parts are then `cos theta * modulus` and
    /// `sin theta * modulus` and the result is tagged Cartesian.
    pub fn to_cartesian(&self, cos_theta: u64, sin_theta: u64) -> (r: Complex)
        ensures
            r == spec_to_cartesian(*self, cos_theta, sin_theta),
            r.is_cartesian,
    {
        if self.is_cartesian {
            *self
        } else {
            Complex {
                real: float_mul(cos_theta, self.real),
                imaginary: float_mul(sin_theta, self.real),
                is_cartesian: true,
            }
        }
    }
}

} // verus!
