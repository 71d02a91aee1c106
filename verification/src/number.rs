//! Numbers as a forecast document carries them: IEEE 754 binary64 values,
//! held by their bit pattern and compared as the standard orders them.

use vstd::prelude::*;
use vstd::arithmetic::mul::{lemma_mul_inequality, lemma_mul_strict_inequality};
use vstd::arithmetic::power2::{
    lemma_pow2_pos, lemma_pow2_strictly_increases, lemma_pow2_unfold, pow2,
};

verus! {

/// The bit pattern of the least negative-signed value, negative zero.
pub const SIGN: u64 = 0x8000_0000_0000_0000;

/// The bit pattern of positive infinity; a larger magnitude is not a number.
pub const INFINITY: u64 = 0x7ff0_0000_0000_0000;

/// Two to the power 52: the weight of the lowest exponent bit, and of the
/// leading bit that every normal number has above its fraction.
pub const HIDDEN: u64 = 0x0010_0000_0000_0000;

/// How far a magnitude is from zero, in units of two to the power -1074:
/// the significand, shifted left by what the exponent says.
pub open spec fn size(magnitude: int) -> int {
    let exponent = magnitude / (HIDDEN as int);
    let fraction = magnitude % (HIDDEN as int);
    if exponent == 0 {
        fraction
    } else {
        (fraction + HIDDEN) * pow2((exponent - 1) as nat)
    }
}

/// A binary64 value, identified by its 64 bits: one sign bit, eleven
/// exponent bits, fifty-two fraction bits.
#[derive(Clone, Copy, Debug, PartialEq, Eq, Structural)]
pub struct Number {
    pub bits: u64,
}

impl Number {
    /// Whether the sign bit is set.
    pub open spec fn is_negative(self) -> bool {
        self.bits >= SIGN
    }

    /// The bits without the sign. Among numbers of one sign, a larger
    /// magnitude is further from zero.
    pub open spec fn magnitude(self) -> int {
        if self.is_negative() {
            self.bits - SIGN
        } else {
            self.bits as int
        }
    }

    /// Whether the bits encode no number at all.
    pub open spec fn is_nan(self) -> bool {
        self.magnitude() > INFINITY
    }

    /// Whether the bits encode a number that is not an infinity.
    pub open spec fn is_finite(self) -> bool {
        self.magnitude() < INFINITY
    }

    /// The value of a finite number, in units of two to the power -1074,
    /// of which every such value is a whole multiple.
    pub open spec fn scaled(self) -> int {
        if self.is_negative() {
            -size(self.magnitude())
        } else {
            size(self.magnitude())
        }
    }

    /// The order `<=` of binary64: false whenever either side is not a
    /// number, both zeros equal, negative below positive, and within one
    /// sign by magnitude.
    pub open spec fn le(self, other: Number) -> bool {
        &&& !self.is_nan()
        &&& !other.is_nan()
        &&& if self.magnitude() == 0 && other.magnitude() == 0 {
            true
        } else if self.is_negative() != other.is_negative() {
            self.is_negative()
        } else if self.is_negative() {
            self.magnitude() >= other.magnitude()
        } else {
            self.magnitude() <= other.magnitude()
        }
    }

    /// Whether `low <= self <= high`, the closed range's test.
    pub open spec fn within(self, low: Number, high: Number) -> bool {
        low.le(self) && self.le(high)
    }

    /// The number with the given bits.
    pub fn from_bits(bits: u64) -> (number: Number)
        ensures
            number.bits == bits,
    {
        Number { bits }
    }

    /// Compares two numbers as binary64 does.
    pub fn at_most(&self, other: &Number) -> (holds: bool)
        ensures
            holds == self.le(*other),
    {
        let left_negative = self.bits >= SIGN;
        let right_negative = other.bits >= SIGN;
        let left: u64 = if left_negative { self.bits - SIGN } else { self.bits };
        let right: u64 = if right_negative { other.bits - SIGN } else { other.bits };
        if left > INFINITY || right > INFINITY {
            false
        } else if left == 0 && right == 0 {
            true
        } else if left_negative != right_negative {
            left_negative
        } else if left_negative {
            left >= right
        } else {
            left <= right
        }
    }

    /// Tests membership in the closed range from `low` to `high`.
    pub fn is_within(&self, low: &Number, high: &Number) -> (holds: bool)
        ensures
            holds == self.within(*low, *high),
    {
        low.at_most(self) && self.at_most(high)
    }
}

/// Among finite magnitudes, a larger one is further from zero.
pub proof fn lemma_size_grows(small: int, large: int)
    requires
        0 <= small < large < INFINITY,
    ensures
        0 <= size(small) < size(large),
{
    let unit = HIDDEN as int;
    let e1 = small / unit;
    let f1 = small % unit;
    let e2 = large / unit;
    let f2 = large % unit;
    assert(e1 <= e2 && (e1 == e2 ==> f1 < f2));
    if e1 == 0 {
        if e2 > 0 {
            lemma_pow2_pos((e2 - 1) as nat);
            lemma_mul_inequality(1, pow2((e2 - 1) as nat) as int, f2 + unit);
            assert((f2 + unit) * pow2((e2 - 1) as nat) == pow2((e2 - 1) as nat) * (f2 + unit))
                by (nonlinear_arith);
        }
    } else {
        let p1 = pow2((e1 - 1) as nat) as int;
        let p2 = pow2((e2 - 1) as nat) as int;
        lemma_pow2_pos((e1 - 1) as nat);
        lemma_pow2_pos((e2 - 1) as nat);
        assert(0 <= (f1 + unit) * p1) by (nonlinear_arith)
            requires
                0 <= f1 + unit,
                0 < p1,
        ;
        if e1 == e2 {
            lemma_mul_strict_inequality(f1 + unit, f2 + unit, p1);
        } else {
            lemma_pow2_unfold(e1 as nat);
            if e1 < e2 - 1 {
                lemma_pow2_strictly_increases(e1 as nat, (e2 - 1) as nat);
            }
            assert(2 * p1 <= p2);
            assert((f1 + unit) * p1 < (f2 + unit) * p2) by (nonlinear_arith)
                requires
                    0 <= f1 < unit,
                    0 <= f2,
                    0 < p1,
                    2 * p1 <= p2,
                    unit > 0,
            ;
        }
    }
}

/// The order of finite numbers is the order of their values.
pub proof fn lemma_order_is_by_value(a: Number, b: Number)
    requires
        a.is_finite(),
        b.is_finite(),
    ensures
        a.le(b) <==> a.scaled() <= b.scaled(),
{
    let m = a.magnitude();
    let n = b.magnitude();
    assert(size(0) == 0);
    if 0 < m {
        lemma_size_grows(0, m);
    }
    if 0 < n {
        lemma_size_grows(0, n);
    }
    if m < n {
        lemma_size_grows(m, n);
    } else if n < m {
        lemma_size_grows(n, m);
    }
}

} // verus!
