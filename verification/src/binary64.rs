//! Double-precision numbers read from their 64-bit patterns.
//!
//! A length arrives as the bit pattern of an IEEE 754 binary64 number.
//! This module says which mathematical value a pattern denotes and decides,
//! in integer arithmetic only, the three questions the bounding box asks of a
//! length: is it at least zero, is it above the largest `i32`, and what is
//! its integer part.

use vstd::prelude::*;
use vstd::arithmetic::power2::pow2;

verus! {

/// The pattern's sign bit.
pub const SIGN_BIT: u64 = 0x8000_0000_0000_0000;

/// Two to the 52nd: the weight of the leading bit of a normal significand.
pub const HIDDEN_BIT: u64 = 0x10_0000_0000_0000;

/// The biased exponent that marks infinities and NaNs.
pub const EXPONENT_SPECIAL: u64 = 0x7ff;

/// What a binary64 pattern denotes.
///
/// A finite value has the magnitude `numerator / denominator`; the sign is kept
/// apart so that the two zeros stay distinct.
pub enum Binary64Value {
    Nan,
    Infinite { negative: bool },
    Finite { negative: bool, numerator: nat, denominator: nat },
}

impl Binary64Value {
    /// The comparison `self >= 0`. It fails for NaN and holds for both zeros.
    pub open spec fn is_non_negative(self) -> bool {
        match self {
            Binary64Value::Nan => false,
            Binary64Value::Infinite { negative } => !negative,
            Binary64Value::Finite { negative, numerator, .. } => !negative || numerator == 0,
        }
    }

    /// The comparison `self > bound`. It fails for NaN.
    pub open spec fn exceeds(self, bound: int) -> bool {
        match self {
            Binary64Value::Nan => false,
            Binary64Value::Infinite { negative } => !negative,
            Binary64Value::Finite { negative, numerator, denominator } => if negative {
                -(numerator as int) > bound * denominator
            } else {
                numerator as int > bound * denominator
            },
        }
    }

    /// The comparison `self < bound`. It fails for NaN.
    pub open spec fn below(self, bound: int) -> bool {
        match self {
            Binary64Value::Nan => false,
            Binary64Value::Infinite { negative } => negative,
            Binary64Value::Finite { negative, numerator, denominator } => if negative {
                -(numerator as int) < bound * denominator
            } else {
                (numerator as int) < bound * denominator
            },
        }
    }

    /// The integer part of a finite value: rounding toward zero.
    pub open spec fn trunc(self) -> int {
        match self {
            Binary64Value::Finite { negative, numerator, denominator } => if negative {
                -((numerator / denominator) as int)
            } else {
                (numerator / denominator) as int
            },
            _ => 0,
        }
    }

    /// The greatest integer not above a finite value.
    pub open spec fn floor(self) -> int {
        match self {
            Binary64Value::Finite { negative, numerator, denominator } => if negative {
                -(((numerator + denominator - 1) / (denominator as int)) as int)
            } else {
                (numerator / denominator) as int
            },
            _ => 0,
        }
    }

    /// The value as an `i32`: the integer part, held to the range of `i32`;
    /// zero for NaN.
    pub open spec fn saturating_i32(self) -> int {
        match self {
            Binary64Value::Nan => 0,
            Binary64Value::Infinite { negative } => if negative {
                i32::MIN as int
            } else {
                i32::MAX as int
            },
            Binary64Value::Finite { .. } => if self.trunc() < i32::MIN {
                i32::MIN as int
            } else if self.trunc() > i32::MAX {
                i32::MAX as int
            } else {
                self.trunc()
            },
        }
    }
}

/// A binary64 number, held as its bit pattern.
///
/// Equality is equality of patterns: the two zeros differ, and a NaN equals
/// itself.
#[derive(Clone, Copy, Debug, PartialEq, Eq, Hash, Structural)]
pub struct Binary64 {
    pub bits: u64,
}

impl Binary64 {
    /// Whether the sign bit is set.
    pub open spec fn sign_bit(self) -> bool {
        self.bits >= SIGN_BIT
    }

    /// The eleven exponent bits, as a number.
    pub open spec fn biased_exponent(self) -> nat {
        ((self.bits / HIDDEN_BIT) % 0x800) as nat
    }

    /// The 52 fraction bits, as a number.
    pub open spec fn fraction(self) -> nat {
        (self.bits % HIDDEN_BIT) as nat
    }

    /// The fraction, with the leading bit that a normal number implies.
    pub open spec fn significand(self) -> nat {
        if self.biased_exponent() == 0 {
            self.fraction()
        } else {
            HIDDEN_BIT as nat + self.fraction()
        }
    }

    /// The power of two by which the significand is scaled: a finite number's
    /// magnitude is `significand() * 2^scale()`.
    pub open spec fn scale(self) -> int {
        if self.biased_exponent() == 0 {
            -1074
        } else {
            self.biased_exponent() - 1075
        }
    }
}

impl View for Binary64 {
    type V = Binary64Value;

    open spec fn view(&self) -> Binary64Value {
        if self.biased_exponent() == EXPONENT_SPECIAL {
            if self.fraction() == 0 {
                Binary64Value::Infinite { negative: self.sign_bit() }
            } else {
                Binary64Value::Nan
            }
        } else if self.scale() >= 0 {
            Binary64Value::Finite {
                negative: self.sign_bit(),
                numerator: self.significand() * pow2(self.scale() as nat),
                denominator: 1,
            }
        } else {
            Binary64Value::Finite {
                negative: self.sign_bit(),
                numerator: self.significand(),
                denominator: pow2((-self.scale()) as nat),
            }
        }
    }
}

impl Binary64 {
    /// The number with the given bit pattern.
    pub fn from_bits(bits: u64) -> (v: Self)
        ensures
            v.bits == bits,
    {
        Binary64 { bits }
    }

    /// The number's bit pattern.
    pub fn to_bits(&self) -> (bits: u64)
        ensures
            bits == self.bits,
    {
        self.bits
    }

    /// Whether the number is at least zero.
    pub fn is_non_negative(&self) -> (r: bool)
        ensures
            r == self@.is_non_negative(),
    {
        let exponent: u64 = (self.bits / HIDDEN_BIT) % 0x800;
        let fraction: u64 = self.bits % HIDDEN_BIT;
        proof {
            self.lemma_finite_value();
        }
        if exponent == EXPONENT_SPECIAL {
            fraction == 0 && self.bits < SIGN_BIT
        } else {
            self.bits < SIGN_BIT || (exponent == 0 && fraction == 0)
        }
    }

    /// Whether the number is above `i32::MAX`.
    pub fn exceeds_i32_max(&self) -> (r: bool)
        ensures
            r == self@.exceeds(i32::MAX as int),
    {
        let exponent: u64 = (self.bits / HIDDEN_BIT) % 0x800;
        let fraction: u64 = self.bits % HIDDEN_BIT;
        proof {
            self.lemma_finite_value();
            self.lemma_magnitude_by_exponent();
        }
        if self.bits >= SIGN_BIT {
            proof {
                if exponent != EXPONENT_SPECIAL {
                    let d = self@->Finite_denominator;
                    assert(0 <= i32::MAX as int * d) by (nonlinear_arith)
                        requires
                            d > 0,
                    ;
                }
            }
            false
        } else if exponent == EXPONENT_SPECIAL {
            fraction == 0
        } else if exponent >= 1054 {
            true
        } else if exponent < 1053 {
            false
        } else {
            proof {
                vstd::arithmetic::power2::lemma2_to64();
            }
            HIDDEN_BIT + fraction > 0x7fff_ffff * 0x40_0000
        }
    }

    /// The number as an `i32`, as a cast would give it: the integer part, held
    /// to the range of `i32`, and zero for NaN.
    pub fn to_i32(&self) -> (r: i32)
        ensures
            r == self@.saturating_i32(),
    {
        let negative: bool = self.bits >= SIGN_BIT;
        let exponent: u64 = (self.bits / HIDDEN_BIT) % 0x800;
        let fraction: u64 = self.bits % HIDDEN_BIT;
        proof {
            self.lemma_finite_value();
            self.lemma_magnitude_by_exponent();
        }
        if exponent == EXPONENT_SPECIAL {
            if fraction != 0 {
                0
            } else if negative {
                i32::MIN
            } else {
                i32::MAX
            }
        } else if exponent < 1023 {
            proof {
                let n = self@->Finite_numerator;
                let d = self@->Finite_denominator;
                assert(n / d == 0) by (nonlinear_arith)
                    requires
                        n < d,
                ;
            }
            0
        } else if exponent >= 1054 {
            proof {
                let n = self@->Finite_numerator;
                let d = self@->Finite_denominator;
                assert(n / d >= 0x8000_0000) by (nonlinear_arith)
                    requires
                        n >= 0x8000_0000 * d,
                        d > 0,
                ;
            }
            if negative {
                i32::MIN
            } else {
                i32::MAX
            }
        } else {
            let shift: u64 = 1075 - exponent;
            let significand: u64 = HIDDEN_BIT + fraction;
            let magnitude: u64 = significand >> shift;
            proof {
                vstd::bits::lemma_u64_shr_is_div(significand, shift);
                assert(magnitude == self@->Finite_numerator / self@->Finite_denominator);
            }
            if negative {
                -(magnitude as i32)
            } else {
                magnitude as i32
            }
        }
    }

    /// A finite number's value is a fraction with a positive denominator.
    pub proof fn lemma_finite_value(self)
        ensures
            self.biased_exponent() < 0x800,
            self.fraction() < HIDDEN_BIT,
            self.biased_exponent() != EXPONENT_SPECIAL ==> (self@ is Finite
                && self@->Finite_negative == self.sign_bit() && self@->Finite_denominator > 0),
            self.biased_exponent() != EXPONENT_SPECIAL ==> (self@->Finite_numerator == 0
                <==> self.biased_exponent() == 0 && self.fraction() == 0),
    {
        if self.biased_exponent() != EXPONENT_SPECIAL {
            if self.scale() >= 0 {
                let p = pow2(self.scale() as nat);
                let s = self.significand();
                vstd::arithmetic::power2::lemma_pow2_pos(self.scale() as nat);
                assert(s * p > 0) by (nonlinear_arith)
                    requires
                        s > 0,
                        p > 0,
                ;
            } else {
                vstd::arithmetic::power2::lemma_pow2_pos((-self.scale()) as nat);
            }
        }
    }

    /// A number from zero to `i32::MAX` is finite, and its integer part is its
    /// floor, which lies in that range too.
    pub proof fn lemma_accepted_integer_part(self)
        requires
            self@.is_non_negative(),
            !self@.exceeds(i32::MAX as int),
        ensures
            self@ is Finite,
            self@.trunc() == self@.floor(),
            0 <= self@.trunc() <= i32::MAX,
            self@.saturating_i32() == self@.trunc(),
    {
        self.lemma_finite_value();
        let n = self@->Finite_numerator;
        let d = self@->Finite_denominator;
        assert(0 <= n / d <= i32::MAX) by (nonlinear_arith)
            requires
                d > 0,
                n <= i32::MAX * d,
        ;
        if self@->Finite_negative {
            assert((0 + d - 1) / (d as int) == 0) by (nonlinear_arith)
                requires
                    d > 0,
            ;
        }
    }

    /// Where a finite number's magnitude lies, by its exponent: below one,
    /// below two to the 30th, below two to the 31st, or from there on.
    pub proof fn lemma_magnitude_by_exponent(self)
        ensures
            self.biased_exponent() < 1023 ==> self@->Finite_numerator < self@->Finite_denominator,
            self.biased_exponent() < 1053 ==> self@->Finite_numerator <= 0x4000_0000
                * self@->Finite_denominator,
            1023 <= self.biased_exponent() < 1054 ==> {
                &&& self@->Finite_numerator == HIDDEN_BIT + self.fraction()
                &&& self@->Finite_denominator == pow2((1075 - self.biased_exponent()) as nat)
                &&& self@->Finite_numerator / self@->Finite_denominator < 0x8000_0000
            },
            self.biased_exponent() == 1053 ==> self@->Finite_denominator == 0x40_0000,
            1054 <= self.biased_exponent() < EXPONENT_SPECIAL ==> self@->Finite_numerator
                >= 0x8000_0000 * self@->Finite_denominator,
    {
        let e = self.biased_exponent();
        let n = self.significand();
        vstd::arithmetic::power2::lemma2_to64();
        vstd::arithmetic::power2::lemma2_to64_rest();
        if e < 1054 {
            // The significand is below 2^53 and is divided by 2^k, where k is
            // at least 53, 23 or 22.
            let k = (-self.scale()) as nat;
            let d = pow2(k);
            if e < 1023 {
                lemma_pow2_increases(53, k);
            } else if e < 1053 {
                lemma_pow2_increases(23, k);
            } else {
                assert(k == 22);
            }
            if e >= 1023 {
                lemma_pow2_increases(22, k);
                assert(n / d < 0x8000_0000) by (nonlinear_arith)
                    requires
                        n < 0x20_0000_0000_0000,
                        d >= 0x40_0000,
                ;
            }
        } else if e < EXPONENT_SPECIAL {
            // The significand is at least 2^52 and is divided by at most 2^21.
            if self.scale() >= 0 {
                let p = pow2(self.scale() as nat);
                vstd::arithmetic::power2::lemma_pow2_pos(self.scale() as nat);
                assert(n * p >= 0x8000_0000) by (nonlinear_arith)
                    requires
                        n >= 0x10_0000_0000_0000,
                        p > 0,
                ;
            } else {
                lemma_pow2_increases((-self.scale()) as nat, 21);
            }
        }
    }
}

/// Powers of two do not fall as the exponent rises.
proof fn lemma_pow2_increases(a: nat, b: nat)
    requires
        a <= b,
    ensures
        pow2(a) <= pow2(b),
{
    if a < b {
        vstd::arithmetic::power2::lemma_pow2_strictly_increases(a, b);
    }
}

} // verus!
