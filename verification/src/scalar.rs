//! Real numbers as IEEE-754 binary32 encodings.
//!
//! A `Scalar` is the 32-bit word of a single-precision number: one sign bit,
//! eight exponent bits and twenty-three fraction bits. The crate never
//! rounds: it only classifies and orders encodings, clears or toggles the
//! sign, and hands encodings on unchanged.

use vstd::arithmetic::power2::lemma2_to64_rest;
use vstd::arithmetic::power2::lemma_pow2_adds;
use vstd::arithmetic::power2::lemma_pow2_pos;
use vstd::arithmetic::power2::lemma_pow2_strictly_increases;
use vstd::arithmetic::power2::pow2;
use vstd::bits::lemma_u64_shl_is_mul;
use vstd::prelude::*;

verus! {

/// The word whose only set bit is the sign.
pub const SIGN_BIT: u32 = 0x8000_0000;

/// The encoding of positive infinity; every magnitude above it is a NaN.
pub const INFINITY_BITS: u32 = 0x7f80_0000;

/// The encoding of 1.
pub const ONE_BITS: u32 = 0x3f80_0000;

/// The least magnitude with a non-zero exponent field.
pub const MIN_NORMAL_BITS: u32 = 0x0080_0000;

proof fn lemma_scaled_order(a: int, b: int, c: int)
    requires
        c > 0,
    ensures
        (a * c > b * c) == (a > b),
{
    assert((a * c > b * c) == (a > b)) by (nonlinear_arith)
        requires
            c > 0,
    ;
}

proof fn lemma_significand_product(a: int, b: int)
    requires
        1 <= a < 0x100_0000,
        1 <= b < 0x100_0000,
    ensures
        1 <= a * b < 0x1_0000_0000_0000,
{
    assert(1 <= a * b < 0x1_0000_0000_0000) by (nonlinear_arith)
        requires
            1 <= a < 0x100_0000,
            1 <= b < 0x100_0000,
    ;
}

/// Negation keeps the magnitude and changes the sign; taken twice it gives
/// the encoding back. The absolute value keeps the magnitude and has no sign.
pub proof fn sign_changes_keep_magnitude(s: Scalar)
    ensures
        s.negated().magnitude() == s.magnitude(),
        s.negated().sign() == !s.sign(),
        s.negated().negated() == s,
        s.absolute().magnitude() == s.magnitude(),
        !s.absolute().sign(),
{
}

/// A binary32 encoding.
#[derive(Clone, Copy, Debug, PartialEq, Eq, Structural)]
pub struct Scalar {
    pub bits: u32,
}

impl Scalar {
    /// The encoding without its sign bit.
    pub open spec fn magnitude(self) -> int {
        self.bits as int % 0x8000_0000
    }

    /// Whether the sign bit is set.
    pub open spec fn sign(self) -> bool {
        self.bits >= SIGN_BIT
    }

    /// Whether the encoding is a NaN.
    pub open spec fn nan(self) -> bool {
        self.magnitude() > INFINITY_BITS
    }

    /// The place of a number on the number line: encodings that are no NaN
    /// are ordered as numbers exactly as their ordinals are ordered as
    /// integers, and both zeros share the ordinal 0.
    pub open spec fn ordinal(self) -> int {
        if self.sign() {
            -self.magnitude()
        } else {
            self.magnitude()
        }
    }

    /// Numeric `<`: false as soon as either side is a NaN.
    pub open spec fn less(self, other: Scalar) -> bool {
        !self.nan() && !other.nan() && self.ordinal() < other.ordinal()
    }

    /// Numeric `==`: false as soon as either side is a NaN, true of the two zeros.
    pub open spec fn equals(self, other: Scalar) -> bool {
        !self.nan() && !other.nan() && self.ordinal() == other.ordinal()
    }

    /// Whether the number is +0 or -0.
    pub open spec fn zero_valued(self) -> bool {
        self.magnitude() == 0
    }

    /// Whether the number is greater than zero.
    pub open spec fn positive(self) -> bool {
        !self.nan() && self.ordinal() > 0
    }

    /// Whether the number is less than zero.
    pub open spec fn negative(self) -> bool {
        !self.nan() && self.ordinal() < 0
    }

    /// The absolute value: the same encoding with the sign bit cleared.
    pub open spec fn absolute(self) -> Scalar {
        Scalar { bits: (self.bits % SIGN_BIT) as u32 }
    }

    /// The negation: the same encoding with the sign bit toggled.
    pub open spec fn negated(self) -> Scalar {
        Scalar {
            bits: if self.bits >= SIGN_BIT {
                (self.bits - SIGN_BIT) as u32
            } else {
                (self.bits + SIGN_BIT) as u32
            },
        }
    }

    /// Whether the number is an infinity.
    pub open spec fn infinite(self) -> bool {
        self.magnitude() == INFINITY_BITS
    }

    /// The exponent field of the encoding, between 0 and 255.
    pub open spec fn exponent_field(self) -> int {
        self.magnitude() / 0x80_0000
    }

    /// The fraction field of the encoding, below 2^23.
    pub open spec fn fraction_field(self) -> int {
        self.magnitude() % 0x80_0000
    }

    /// The integer significand of a finite number: its absolute value is
    /// `significand * 2^(unit_exponent - 149)`.
    pub open spec fn significand(self) -> int {
        if self.exponent_field() == 0 {
            self.fraction_field()
        } else {
            0x80_0000 + self.fraction_field()
        }
    }

    /// The exponent of a finite number in units of the least positive
    /// number, 2^-149.
    pub open spec fn unit_exponent(self) -> int {
        if self.exponent_field() == 0 {
            0
        } else {
            self.exponent_field() - 1
        }
    }

    /// Whether the rounded binary32 product of the two numbers is greater
    /// than zero. Neither may be a NaN or a zero, the signs agree, and the
    /// exact product of two finite numbers must exceed 2^-150, half the least
    /// positive number: at or below that, rounding to nearest gives zero.
    pub open spec fn product_positive(self, other: Scalar) -> bool {
        &&& !self.nan() && !other.nan()
        &&& !self.zero_valued() && !other.zero_valued()
        &&& self.sign() == other.sign()
        &&& (self.infinite() || other.infinite() || self.significand() * other.significand()
            * pow2((self.unit_exponent() + other.unit_exponent()) as nat) > pow2(148))
    }

    pub fn from_bits(bits: u32) -> (s: Scalar)
        ensures
            s.bits == bits,
    {
        Scalar { bits }
    }

    pub fn to_bits(&self) -> (bits: u32)
        ensures
            bits == self.bits,
    {
        self.bits
    }

    /// Positive zero.
    pub fn zero() -> (s: Scalar)
        ensures
            s.bits == 0,
            s.zero_valued(),
    {
        Scalar { bits: 0 }
    }

    /// The number 1.
    pub fn one() -> (s: Scalar)
        ensures
            s.bits == ONE_BITS,
    {
        Scalar { bits: ONE_BITS }
    }

    fn magnitude_bits(&self) -> (m: u32)
        ensures
            m == self.magnitude(),
            m < SIGN_BIT,
    {
        self.bits % SIGN_BIT
    }

    pub fn is_nan(&self) -> (r: bool)
        ensures
            r == self.nan(),
    {
        self.magnitude_bits() > INFINITY_BITS
    }

    pub fn is_zero(&self) -> (r: bool)
        ensures
            r == self.zero_valued(),
    {
        self.magnitude_bits() == 0
    }

    pub fn is_positive(&self) -> (r: bool)
        ensures
            r == self.positive(),
    {
        let m: u32 = self.magnitude_bits();
        self.bits < SIGN_BIT && m != 0 && m <= INFINITY_BITS
    }

    pub fn is_negative(&self) -> (r: bool)
        ensures
            r == self.negative(),
    {
        let m: u32 = self.magnitude_bits();
        self.bits >= SIGN_BIT && m != 0 && m <= INFINITY_BITS
    }

    /// Numeric `<`.
    pub fn lt(&self, other: &Scalar) -> (r: bool)
        ensures
            r == self.less(*other),
    {
        let a: u32 = self.magnitude_bits();
        let b: u32 = other.magnitude_bits();
        if a > INFINITY_BITS || b > INFINITY_BITS {
            false
        } else if self.bits >= SIGN_BIT {
            if other.bits >= SIGN_BIT {
                b < a
            } else {
                a != 0 || b != 0
            }
        } else {
            if other.bits >= SIGN_BIT {
                false
            } else {
                a < b
            }
        }
    }

    /// Numeric `==`.
    pub fn eq_value(&self, other: &Scalar) -> (r: bool)
        ensures
            r == self.equals(*other),
    {
        let a: u32 = self.magnitude_bits();
        let b: u32 = other.magnitude_bits();
        if a > INFINITY_BITS || b > INFINITY_BITS {
            false
        } else if a == 0 && b == 0 {
            true
        } else {
            self.bits == other.bits
        }
    }

    /// The absolute value.
    pub fn abs(&self) -> (s: Scalar)
        ensures
            s == self.absolute(),
    {
        Scalar { bits: self.magnitude_bits() }
    }

    /// The negation.
    pub fn neg(&self) -> (s: Scalar)
        ensures
            s == self.negated(),
    {
        if self.bits >= SIGN_BIT {
            Scalar { bits: self.bits - SIGN_BIT }
        } else {
            Scalar { bits: self.bits + SIGN_BIT }
        }
    }

    /// The significand and unit exponent of a finite number.
    fn decode(&self) -> (parts: (u64, u32))
        requires
            self.magnitude() < INFINITY_BITS,
        ensures
            parts.0 == self.significand(),
            parts.1 == self.unit_exponent(),
            parts.0 < 0x100_0000,
            parts.1 <= 253,
            parts.0 == 0 <==> self.zero_valued(),
    {
        let m: u32 = self.magnitude_bits();
        let e: u32 = m / MIN_NORMAL_BITS;
        let f: u32 = m % MIN_NORMAL_BITS;
        if e == 0 {
            (f as u64, 0)
        } else {
            ((MIN_NORMAL_BITS + f) as u64, e - 1)
        }
    }

    /// Whether the rounded product of the two numbers is greater than zero.
    pub fn product_is_positive(&self, other: &Scalar) -> (r: bool)
        ensures
            r == self.product_positive(*other),
    {
        let a: u32 = self.magnitude_bits();
        let b: u32 = other.magnitude_bits();
        if a > INFINITY_BITS || b > INFINITY_BITS || a == 0 || b == 0 {
            return false;
        }
        if (self.bits >= SIGN_BIT) != (other.bits >= SIGN_BIT) {
            return false;
        }
        if a == INFINITY_BITS || b == INFINITY_BITS {
            return true;
        }
        let (ma, ua) = self.decode();
        let (mb, ub) = other.decode();
        proof {
            lemma_significand_product(ma as int, mb as int);
        }
        let p: u64 = ma * mb;
        let s: u32 = ua + ub;
        proof {
            lemma_pow2_pos(s as nat);
            lemma_pow2_pos(148);
        }
        if s >= 148 {
            proof {
                if s > 148 {
                    lemma_pow2_strictly_increases(148, s as nat);
                    assert(p * pow2(s as nat) >= pow2(s as nat)) by (nonlinear_arith)
                        requires
                            p >= 1,
                            pow2(s as nat) > 0,
                    ;
                } else {
                    lemma_scaled_order(p as int, 1, pow2(148) as int);
                }
            }
            s > 148 || p > 1
        } else {
            let d: u32 = 148 - s;
            proof {
                lemma_pow2_adds(d as nat, s as nat);
                lemma_pow2_pos(d as nat);
                lemma_scaled_order(p as int, pow2(d as nat) as int, pow2(s as nat) as int);
                lemma2_to64_rest();
                assert((p * pow2(s as nat) > pow2(148)) == (p > pow2(d as nat)));
            }
            if d >= 48 {
                proof {
                    if d > 48 {
                        lemma_pow2_strictly_increases(48, d as nat);
                    }
                    assert(p < pow2(d as nat));
                }
                false
            } else {
                proof {
                    lemma_pow2_strictly_increases(d as nat, 48);
                    assert(1 * pow2(d as nat) <= u64::MAX);
                    lemma_u64_shl_is_mul(1u64, d as u64);
                    assert((1u64 << (d as u64)) == pow2(d as nat));
                }
                p > (1u64 << (d as u64))
            }
        }
    }
}

} // verus!
