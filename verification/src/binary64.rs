//! Numbers in the IEEE 754 binary64 format, read from their bit patterns.
//!
//! A pattern has a sign bit, eleven bits of biased exponent and fifty-two
//! bits of fraction. A finite pattern stands for the rational number
//! `significand * 2^exponent`, negated where the sign bit is set.

use vstd::prelude::*;
use vstd::arithmetic::div_mod::{lemma_basic_div, lemma_remainder_lower, lemma_remainder_upper};
use vstd::arithmetic::power2::{
    lemma2_to64, lemma2_to64_rest, lemma_pow2_pos, lemma_pow2_strictly_increases, pow2,
};
use vstd::bits::{lemma_u64_shl_is_mul, lemma_u64_shr_is_div};

verus! {

/// The sign bit of a pattern.
pub const SIGN_BIT: u64 = 0x8000_0000_0000_0000;

/// Two to the power of fifty-two: the bit that a normal number's significand
/// has above its fraction.
pub const HIDDEN_BIT: u64 = 0x0010_0000_0000_0000;

/// The biased exponent that marks the infinities and the NaNs.
pub const EXPONENT_SPECIAL: u64 = 0x7ff;

/// A binary64 number, held by its bit pattern.
#[derive(Clone, Copy, Debug, PartialEq, Eq, Structural)]
pub struct Binary64 {
    pub bits: u64,
}

impl Binary64 {
    /// Whether the sign bit is set. This holds of the negative numbers, of
    /// negative zero and of some NaNs.
    pub open spec fn is_sign_negative(self) -> bool {
        self.bits >= SIGN_BIT
    }

    /// The eleven bits below the sign bit.
    pub open spec fn biased_exponent(self) -> nat {
        ((self.bits / HIDDEN_BIT) % 0x800) as nat
    }

    /// The low fifty-two bits.
    pub open spec fn fraction(self) -> nat {
        (self.bits % HIDDEN_BIT) as nat
    }

    pub open spec fn is_nan(self) -> bool {
        self.biased_exponent() == EXPONENT_SPECIAL && self.fraction() != 0
    }

    pub open spec fn is_infinite(self) -> bool {
        self.biased_exponent() == EXPONENT_SPECIAL && self.fraction() == 0
    }

    pub open spec fn is_finite(self) -> bool {
        self.biased_exponent() < EXPONENT_SPECIAL
    }

    /// The integer that a finite pattern multiplies by a power of two.
    pub open spec fn significand(self) -> nat {
        if self.biased_exponent() == 0 {
            self.fraction()
        } else {
            HIDDEN_BIT as nat + self.fraction()
        }
    }

    /// The power of two that a finite pattern multiplies its significand by.
    pub open spec fn exponent(self) -> int {
        if self.biased_exponent() == 0 {
            -1074
        } else {
            self.biased_exponent() - 1075
        }
    }

    /// Whether the pattern is one of the two zeros.
    pub open spec fn spec_is_zero(self) -> bool {
        self.is_finite() && self.significand() == 0
    }

    /// Whether the number is zero or more, and less than one. Zero is so
    /// with either sign; no NaN is.
    pub open spec fn is_below_one(self) -> bool {
        self.is_zero() || (!self.is_sign_negative() && self.biased_exponent() < 1023)
    }

    /// Whether `self` is at most `other` as a number, for two patterns of
    /// which none is a NaN. The two zeros are equal; among negative
    /// numbers the greater pattern is the lesser number.
    pub open spec fn at_most(self, other: Binary64) -> bool
        recommends
            !self.is_nan(),
            !other.is_nan(),
    {
        if self.is_sign_negative() {
            other.is_sign_negative() ==> self.bits >= other.bits
        } else if other.is_sign_negative() {
            self.is_zero() && other.is_zero()
        } else {
            self.bits <= other.bits
        }
    }

    /// Whether the number is one or more. No NaN is.
    pub open spec fn is_at_least_one(self) -> bool {
        !self.is_sign_negative() && !self.is_nan() && self.biased_exponent() >= 1023
    }

    /// The greatest integer that is at most `|self| * 2^k`, for a finite
    /// pattern.
    pub open spec fn floor_scaled(self, k: int) -> nat
        recommends
            self.is_finite(),
    {
        let e = self.exponent() + k;
        if e >= 0 {
            self.significand() * pow2(e as nat)
        } else {
            self.significand() / pow2((-e) as nat)
        }
    }

    /// The integer in `[0, max]` that is nearest to the floor of
    /// `self * 2^k`. A NaN gives 0.
    pub open spec fn saturating_floor(self, k: int, max: nat) -> nat {
        if self.is_nan() || self.is_sign_negative() {
            0
        } else if self.is_infinite() {
            max
        } else if self.floor_scaled(k) > max {
            max
        } else {
            self.floor_scaled(k)
        }
    }

    pub fn from_bits(bits: u64) -> (number: Self)
        ensures
            number.bits == bits,
    {
        Binary64 { bits }
    }

    /// Tells whether the number is zero, of either sign.
    #[verifier::when_used_as_spec(spec_is_zero)]
    pub fn is_zero(self) -> (zero: bool)
        ensures
            zero == self.spec_is_zero(),
    {
        let bits = self.bits;
        assert((bits & !SIGN_BIT == 0) <==> ((bits / HIDDEN_BIT) % 0x800 == 0 && bits % HIDDEN_BIT
            == 0)) by (bit_vector);
        bits & !SIGN_BIT == 0
    }

    /// Multiplies by `2^k`, drops what follows the binary point and clips
    /// the result to `[0, max]`. A NaN gives 0.
    pub fn saturating_floor_u64(self, k: u8, max: u64) -> (out: u64)
        ensures
            out == self.saturating_floor(k as int, max as nat),
    {
        let bits = self.bits;
        let biased: u64 = (bits >> 52) & EXPONENT_SPECIAL;
        let fraction: u64 = bits & (HIDDEN_BIT - 1);
        proof {
            assert((bits >> 52) & EXPONENT_SPECIAL == (bits / HIDDEN_BIT) % 0x800)
                by (bit_vector);
            assert(bits & ((HIDDEN_BIT - 1) as u64) == bits % HIDDEN_BIT) by (bit_vector);
        }
        if bits >= SIGN_BIT {
            return 0;
        }
        if biased == EXPONENT_SPECIAL {
            return if fraction == 0 { max } else { 0 };
        }
        // A subnormal number has no hidden bit, and the exponent of the
        // least normal one.
        let significand: u64 = if biased == 0 { fraction } else { HIDDEN_BIT + fraction };
        let lifted: u64 = if biased == 0 { 1 + k as u64 } else { biased + k as u64 };
        // What is asked for is the floor of `significand * 2^(lifted - 1075)`.
        assert(self.exponent() + k == lifted - 1075);
        let whole: u64 = if lifted >= 1075 {
            let up: u64 = lifted - 1075;
            proof {
                lemma2_to64();
            }
            if up >= 12 {
                // The hidden bit alone is shifted beyond sixty-four bits.
                proof {
                    if up > 12 {
                        lemma_pow2_strictly_increases(12, up as nat);
                    }
                    assert(significand * pow2(up as nat) > u64::MAX) by (nonlinear_arith)
                        requires
                            significand >= 0x0010_0000_0000_0000,
                            pow2(up as nat) >= 0x1000,
                    ;
                }
                return max;
            }
            proof {
                if up < 11 {
                    lemma_pow2_strictly_increases(up as nat, 11);
                }
                assert(significand * pow2(up as nat) <= u64::MAX) by (nonlinear_arith)
                    requires
                        significand < 0x0020_0000_0000_0000,
                        pow2(up as nat) <= 0x800,
                ;
                lemma_u64_shl_is_mul(significand, up);
            }
            significand << up
        } else {
            let down: u64 = 1075 - lifted;
            if down >= 53 {
                // Every bit of the significand falls behind the binary point.
                proof {
                    lemma2_to64_rest();
                    if down > 53 {
                        lemma_pow2_strictly_increases(53, down as nat);
                    }
                    lemma_basic_div(significand as int, pow2(down as nat) as int);
                }
                return 0;
            }
            proof {
                lemma_u64_shr_is_div(significand, down);
            }
            significand >> down
        };
        if whole > max {
            max
        } else {
            whole
        }
    }

    /// Multiplies by `2^k`, drops what follows the binary point and clips
    /// the result to a byte.
    pub fn saturating_floor_u8(self, k: u8) -> (out: u8)
        ensures
            out == self.saturating_floor(k as int, 255),
    {
        self.saturating_floor_u64(k, 255) as u8
    }

    /// Drops what follows the binary point and clips the result to
    /// thirty-two bits.
    pub fn saturating_floor_u32(self) -> (out: u32)
        ensures
            out == self.saturating_floor(0, u32::MAX as nat),
    {
        self.saturating_floor_u64(0, 0xffff_ffff) as u32
    }
}

/// `floor_scaled` is the floor of `|number| * 2^k`: no more than it, and
/// less than one below it. Where the power of two that the significand
/// meets is negative, both bounds are stated times its inverse.
pub proof fn lemma_floor_scaled_is_floor(number: Binary64, k: int)
    ensures
        number.exponent() + k >= 0 ==> number.floor_scaled(k) == number.significand() * pow2(
            (number.exponent() + k) as nat,
        ),
        number.exponent() + k < 0 ==> number.floor_scaled(k) * pow2(
            (-(number.exponent() + k)) as nat,
        ) <= number.significand() < (number.floor_scaled(k) + 1) * pow2(
            (-(number.exponent() + k)) as nat,
        ),
{
    let e = number.exponent() + k;
    if e < 0 {
        let d = pow2((-e) as nat) as int;
        let s = number.significand() as int;
        lemma_pow2_pos((-e) as nat);
        lemma_remainder_lower(s, d);
        lemma_remainder_upper(s, d);
        assert((s / d + 1) * d == s / d * d + d) by (nonlinear_arith);
    }
}

} // verus!
