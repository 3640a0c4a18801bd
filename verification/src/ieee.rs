//! Floating-point numbers held by their IEEE-754 bit patterns.
//!
//! The audio device takes its volume and its seek target as 32-bit floats.
//! This module reads such a number from its bits alone: every finite pattern
//! stands for an integer multiple of 2^-149, so ordering and clamping are
//! stated over integers. Callers convert with `f32::to_bits` and
//! `f32::from_bits`.

use vstd::prelude::*;
use vstd::arithmetic::power2::*;
use vstd::arithmetic::mul::*;

verus! {

/// The sign bit of a pattern.
pub const SIGN_BIT: u32 = 0x8000_0000;

/// The pattern of positive infinity; larger magnitudes are NaNs.
pub const INFINITY_BITS: u32 = 0x7f80_0000;

/// The pattern of `1.0`.
pub const ONE_BITS: u32 = 0x3f80_0000;

/// Number of values of the 23-bit fraction field.
pub const FRACTION_SPAN: u32 = 0x0080_0000;

/// A single-precision number, kept as its bit pattern.
#[derive(Clone, Copy, Debug, PartialEq, Eq, Structural)]
pub struct Single {
    pub bits: u32,
}

/// The value `1.0` in units of 2^-149.
pub open spec fn unit_scaled() -> int {
    pow2(149) as int
}

impl Single {
    /// The pattern without its sign bit.
    pub open spec fn magnitude(self) -> nat {
        (self.bits % SIGN_BIT) as nat
    }

    pub open spec fn is_negative(self) -> bool {
        self.bits >= SIGN_BIT
    }

    pub open spec fn is_nan(self) -> bool {
        self.magnitude() > INFINITY_BITS
    }

    pub open spec fn is_infinite(self) -> bool {
        self.magnitude() == INFINITY_BITS
    }

    pub open spec fn is_finite(self) -> bool {
        self.magnitude() < INFINITY_BITS
    }

    /// The biased exponent field.
    pub open spec fn exponent(self) -> nat {
        self.magnitude() / (FRACTION_SPAN as nat)
    }

    /// The fraction field.
    pub open spec fn fraction(self) -> nat {
        self.magnitude() % (FRACTION_SPAN as nat)
    }

    /// The absolute value of a finite number, in units of 2^-149.
    pub open spec fn scaled_magnitude(self) -> nat {
        if self.exponent() == 0 {
            self.fraction()
        } else {
            (FRACTION_SPAN as nat + self.fraction()) * pow2((self.exponent() - 1) as nat)
        }
    }

    /// The value of a finite number, in units of 2^-149.
    pub open spec fn scaled(self) -> int {
        if self.is_negative() {
            -(self.scaled_magnitude() as int)
        } else {
            self.scaled_magnitude() as int
        }
    }

    /// A finite number between zero and one, both included.
    pub open spec fn in_unit_interval(self) -> bool {
        self.is_finite() && 0 <= self.scaled() <= unit_scaled()
    }

    pub open spec fn spec_zero() -> Single {
        Single { bits: 0 }
    }

    pub open spec fn spec_one() -> Single {
        Single { bits: ONE_BITS }
    }

    /// The nearest number of the unit interval. Negative infinity goes to
    /// zero and positive infinity to one; a NaN, which has no nearest number,
    /// goes to zero.
    pub open spec fn clamp_unit_spec(self) -> Single {
        if self.is_nan() {
            Self::spec_zero()
        } else if self.is_infinite() {
            if self.is_negative() {
                Self::spec_zero()
            } else {
                Self::spec_one()
            }
        } else if self.scaled() < 0 {
            Self::spec_zero()
        } else if self.scaled() > unit_scaled() {
            Self::spec_one()
        } else {
            self
        }
    }

    /// The number itself where it is zero or more, else zero. Positive
    /// infinity stays; negative infinity and NaNs go to zero.
    pub open spec fn clamp_non_negative_spec(self) -> Single {
        if self.is_nan() {
            Self::spec_zero()
        } else if self.is_infinite() {
            if self.is_negative() {
                Self::spec_zero()
            } else {
                self
            }
        } else if self.scaled() < 0 {
            Self::spec_zero()
        } else {
            self
        }
    }

    /// Zero or more, and no NaN.
    pub open spec fn is_non_negative(self) -> bool {
        !self.is_nan() && (self.is_infinite() ==> !self.is_negative()) && (self.is_finite()
            ==> self.scaled() >= 0)
    }

    pub fn from_bits(bits: u32) -> (r: Single)
        ensures
            r.bits == bits,
    {
        Single { bits }
    }

    pub fn to_bits(self) -> (r: u32)
        ensures
            r == self.bits,
    {
        self.bits
    }

    /// `0.0`
    #[verifier::when_used_as_spec(spec_zero)]
    pub fn zero() -> (r: Single)
        ensures
            r == Self::spec_zero(),
    {
        Single { bits: 0 }
    }

    /// `1.0`
    #[verifier::when_used_as_spec(spec_one)]
    pub fn one() -> (r: Single)
        ensures
            r == Self::spec_one(),
    {
        Single { bits: ONE_BITS }
    }

    /// A finite pattern is zero in value exactly when its magnitude bits are.
    pub proof fn lemma_scaled_zero(self)
        requires
            self.is_finite(),
        ensures
            self.scaled_magnitude() == 0 <==> self.magnitude() == 0,
    {
        let e = self.exponent();
        let f = self.fraction();
        if e != 0 {
            lemma_pow2_pos((e - 1) as nat);
            lemma_mul_strictly_positive(
                (FRACTION_SPAN as nat + f) as int,
                pow2((e - 1) as nat) as int,
            );
        }
    }

    /// Among finite patterns, the value compares to one as the magnitude bits
    /// compare to the pattern of one.
    pub proof fn lemma_scaled_against_one(self)
        requires
            self.is_finite(),
        ensures
            self.scaled_magnitude() > unit_scaled() <==> self.magnitude() > ONE_BITS,
            self.scaled_magnitude() == unit_scaled() <==> self.magnitude() == ONE_BITS,
    {
        let e = self.exponent();
        let f = self.fraction();
        let span = FRACTION_SPAN as nat;
        lemma2_to64();
        assert(pow2(23) == span);
        assert(pow2(24) == 2 * span);
        if e == 0 {
            lemma_pow2_strictly_increases(23, 149);
        } else {
            let p = pow2((e - 1) as nat);
            lemma_pow2_pos((e - 1) as nat);
            lemma_pow2_adds(23, (e - 1) as nat);
            lemma_pow2_adds(24, (e - 1) as nat);
            assert((span + f) * p == span * p + f * p) by (nonlinear_arith);
            if e < 127 {
                assert((span + f) * p < (2 * span) * p) by (nonlinear_arith)
                    requires
                        f < span,
                        p > 0,
                ;
                if e + 23 < 149 {
                    lemma_pow2_strictly_increases((e + 23) as nat, 149);
                }
            } else if e == 127 {
                assert(f * p > 0 <==> f > 0) by (nonlinear_arith)
                    requires
                        p > 0,
                        f >= 0,
                ;
            } else {
                assert(f * p >= 0) by (nonlinear_arith)
                    requires
                        p > 0,
                        f >= 0,
                ;
                lemma_pow2_strictly_increases(149, (e + 22) as nat);
            }
        }
    }

    /// Brings the number into the unit interval.
    pub fn clamp_unit(self) -> (r: Single)
        ensures
            r == self.clamp_unit_spec(),
            r.in_unit_interval(),
    {
        let magnitude: u32 = self.bits % SIGN_BIT;
        let negative: bool = self.bits >= SIGN_BIT;
        proof {
            Self::lemma_clamp_unit_in_range(self);
            if magnitude < INFINITY_BITS {
                self.lemma_scaled_zero();
                self.lemma_scaled_against_one();
            }
        }
        if magnitude > INFINITY_BITS {
            Single::zero()
        } else if magnitude == INFINITY_BITS {
            if negative {
                Single::zero()
            } else {
                Single::one()
            }
        } else if negative && magnitude > 0 {
            Single::zero()
        } else if !negative && magnitude > ONE_BITS {
            Single::one()
        } else {
            self
        }
    }

    /// Brings the number to zero or above.
    pub fn clamp_non_negative(self) -> (r: Single)
        ensures
            r == self.clamp_non_negative_spec(),
            r.is_non_negative(),
    {
        let magnitude: u32 = self.bits % SIGN_BIT;
        let negative: bool = self.bits >= SIGN_BIT;
        proof {
            Self::lemma_clamp_non_negative_in_range(self);
            if magnitude < INFINITY_BITS {
                self.lemma_scaled_zero();
            }
        }
        if magnitude > INFINITY_BITS {
            Single::zero()
        } else if negative && magnitude > 0 {
            Single::zero()
        } else {
            self
        }
    }

    /// Whatever is clamped from below is zero or more.
    pub proof fn lemma_clamp_non_negative_in_range(x: Single)
        ensures
            x.clamp_non_negative_spec().is_non_negative(),
            x.is_non_negative() ==> x.clamp_non_negative_spec() == x,
            x.is_finite() ==> x.clamp_non_negative_spec().scaled() == if x.scaled() < 0 {
                0
            } else {
                x.scaled()
            },
    {
        Self::spec_zero().lemma_scaled_zero();
    }

    /// Whatever is clamped lies in the unit interval.
    pub proof fn lemma_clamp_unit_in_range(x: Single)
        ensures
            x.clamp_unit_spec().in_unit_interval(),
    {
        Self::spec_one().lemma_scaled_against_one();
        Self::spec_zero().lemma_scaled_zero();
        lemma_pow2_pos(149);
    }

    /// On finite numbers, clamping is the clamp of the values: zero below
    /// zero, one above one, the number itself between.
    pub proof fn lemma_clamp_unit_value(x: Single)
        requires
            x.is_finite(),
        ensures
            x.clamp_unit_spec().scaled() == if x.scaled() < 0 {
                0
            } else if x.scaled() > unit_scaled() {
                unit_scaled()
            } else {
                x.scaled()
            },
    {
        Self::spec_one().lemma_scaled_against_one();
        Self::spec_zero().lemma_scaled_zero();
    }

    /// A number of the unit interval is left as it is, so clamping twice is
    /// clamping once.
    pub proof fn lemma_clamp_unit_fixes_interval(x: Single)
        ensures
            x.in_unit_interval() ==> x.clamp_unit_spec() == x,
            x.clamp_unit_spec().clamp_unit_spec() == x.clamp_unit_spec(),
    {
        Self::lemma_clamp_unit_in_range(x);
    }
}

/// The pattern of double-precision positive infinity. The patterns up to it
/// are the numbers from zero upwards; those above it have the sign bit set or
/// are NaNs.
pub const DOUBLE_INFINITY_BITS: u64 = 0x7ff0_0000_0000_0000;

/// A double-precision number, kept as its bit pattern. The engine carries
/// track lengths in this form and never computes on them.
#[derive(Clone, Copy, Debug, PartialEq, Eq, Structural)]
pub struct Double {
    pub bits: u64,
}

impl Double {
    pub open spec fn spec_zero() -> Double {
        Double { bits: 0 }
    }

    /// Zero or more: the sign bit is clear and the pattern is no NaN.
    pub open spec fn spec_is_non_negative(self) -> bool {
        self.bits <= DOUBLE_INFINITY_BITS
    }

    /// Whether the number is zero or more.
    #[verifier::when_used_as_spec(spec_is_non_negative)]
    pub fn is_non_negative(self) -> (r: bool)
        ensures
            r == self.spec_is_non_negative(),
    {
        self.bits <= DOUBLE_INFINITY_BITS
    }

    pub fn from_bits(bits: u64) -> (r: Double)
        ensures
            r.bits == bits,
    {
        Double { bits }
    }

    pub fn to_bits(self) -> (r: u64)
        ensures
            r == self.bits,
    {
        self.bits
    }

    /// `0.0`
    #[verifier::when_used_as_spec(spec_zero)]
    pub fn zero() -> (r: Double)
        ensures
            r == Self::spec_zero(),
    {
        Double { bits: 0 }
    }
}

} // verus!
