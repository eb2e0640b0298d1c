//! Real numbers as IEEE-754 binary32 bit patterns, and the order on them.
//!
//! A pattern has a sign bit, eight exponent bits and twenty-three fraction
//! bits. Its magnitude is the pattern without the sign bit. Magnitudes above
//! that of infinity are not numbers. Among numbers, the order of the values
//! is the order of the signed magnitudes, and the two zeros are equal.

use vstd::prelude::*;
use vstd::arithmetic::power2::{lemma_pow2_pos, lemma_pow2_strictly_increases, lemma_pow2_unfold, pow2};

verus! {

/// The sign bit of a pattern.
pub const SIGN_BIT: u32 = 0x8000_0000;

/// Every bit of a pattern but the sign bit.
pub const MAGNITUDE_MASK: u32 = 0x7fff_ffff;

/// The magnitude of infinity: all exponent bits set, no fraction bit.
pub const INFINITY_BITS: u32 = 0x7f80_0000;

/// The fraction bits of a pattern.
pub const FRACTION_MASK: u32 = 0x007f_ffff;

/// The pattern of the number one.
pub const ONE_BITS: u32 = 0x3f80_0000;

/// A binary32 value, held by its bit pattern. Two scalars are `==` when
/// their patterns are: the comparisons of numbers are `lt`, `le` and `same`.
#[derive(Clone, Copy, Debug, PartialEq, Eq, Structural)]
pub struct Scalar {
    pub bits: u32,
}

impl Scalar {
    /// The pattern without its sign bit.
    pub open spec fn magnitude(self) -> u32 {
        self.bits & MAGNITUDE_MASK
    }

    /// Whether the sign bit is set.
    pub open spec fn sign(self) -> bool {
        self.bits & SIGN_BIT != 0
    }

    /// Whether the pattern is not a number.
    pub open spec fn nan(self) -> bool {
        self.magnitude() > INFINITY_BITS
    }

    /// The signed magnitude. For numbers it is ordered as the values are.
    pub open spec fn rank(self) -> int {
        if self.sign() {
            -(self.magnitude() as int)
        } else {
            self.magnitude() as int
        }
    }

    /// The eight exponent bits.
    pub open spec fn exponent(self) -> int {
        (self.magnitude() >> 23) as int
    }

    /// The twenty-three fraction bits.
    pub open spec fn fraction(self) -> int {
        (self.magnitude() & FRACTION_MASK) as int
    }

    /// How many times 2^-149, the smallest positive number, goes into the
    /// absolute value of a finite number. With no exponent bit set the
    /// fraction counts them; otherwise the fraction, with a leading one
    /// before it, is doubled once for every step of the exponent above one.
    /// For infinity the same rule gives a count above every finite one.
    pub open spec fn units(self) -> int {
        if self.exponent() == 0 {
            self.fraction()
        } else {
            (FRACTION_MASK + 1 + self.fraction()) * pow2((self.exponent() - 1) as nat)
        }
    }

    /// The value of a number in units of 2^-149.
    pub open spec fn signed_units(self) -> int {
        if self.sign() {
            -self.units()
        } else {
            self.units()
        }
    }

    /// `self < other` as numbers: false as soon as one is not a number.
    pub open spec fn below(self, other: Scalar) -> bool {
        !self.nan() && !other.nan() && self.rank() < other.rank()
    }

    /// `self <= other` as numbers: false as soon as one is not a number.
    pub open spec fn at_most(self, other: Scalar) -> bool {
        !self.nan() && !other.nan() && self.rank() <= other.rank()
    }

    /// `self == other` as numbers: false as soon as one is not a number.
    pub open spec fn equals(self, other: Scalar) -> bool {
        !self.nan() && !other.nan() && self.rank() == other.rank()
    }

    /// A number that is zero or more: what a ray parameter in front of the
    /// origin looks like.
    pub open spec fn non_negative(self) -> bool {
        !self.nan() && self.rank() >= 0
    }

    /// The scalar with the given pattern.
    pub fn from_bits(bits: u32) -> (s: Scalar)
        ensures
            s.bits == bits,
    {
        Scalar { bits }
    }

    /// The pattern.
    pub fn to_bits(&self) -> (bits: u32)
        ensures
            bits == self.bits,
    {
        self.bits
    }

    /// Positive zero.
    pub fn zero() -> (s: Scalar)
        ensures
            s.bits == 0,
            s.rank() == 0,
            !s.nan(),
    {
        assert(0u32 & MAGNITUDE_MASK == 0) by (bit_vector);
        assert(0u32 & SIGN_BIT == 0) by (bit_vector);
        Scalar { bits: 0 }
    }

    /// The number one.
    pub fn one() -> (s: Scalar)
        ensures
            s.bits == ONE_BITS,
            s.rank() == ONE_BITS,
            !s.nan(),
    {
        assert(ONE_BITS & MAGNITUDE_MASK == ONE_BITS) by (bit_vector);
        assert(ONE_BITS & SIGN_BIT == 0) by (bit_vector);
        Scalar { bits: ONE_BITS }
    }

    /// Whether the pattern is not a number.
    pub fn is_nan(&self) -> (r: bool)
        ensures
            r == self.nan(),
    {
        (self.bits & MAGNITUDE_MASK) > INFINITY_BITS
    }

    /// Whether the sign bit is set. Negative zero has it set.
    pub fn is_sign_negative(&self) -> (r: bool)
        ensures
            r == self.sign(),
    {
        (self.bits & SIGN_BIT) != 0
    }

    /// The same magnitude with the sign bit cleared.
    pub fn abs(&self) -> (r: Scalar)
        ensures
            r.bits == self.magnitude(),
            r.magnitude() == self.magnitude(),
            !r.sign(),
            r.nan() == self.nan(),
            r.rank() == self.magnitude(),
    {
        let bits: u32 = self.bits;
        assert((bits & MAGNITUDE_MASK) & MAGNITUDE_MASK == bits & MAGNITUDE_MASK) by (bit_vector);
        assert((bits & MAGNITUDE_MASK) & SIGN_BIT == 0) by (bit_vector);
        Scalar { bits: bits & MAGNITUDE_MASK }
    }

    /// `self < other` as numbers.
    pub fn lt(&self, other: &Scalar) -> (r: bool)
        ensures
            r == self.below(*other),
    {
        if self.is_nan() || other.is_nan() {
            return false;
        }
        let a: u32 = self.bits & MAGNITUDE_MASK;
        let b: u32 = other.bits & MAGNITUDE_MASK;
        if self.is_sign_negative() {
            if other.is_sign_negative() {
                b < a
            } else {
                a != 0 || b != 0
            }
        } else {
            if other.is_sign_negative() {
                false
            } else {
                a < b
            }
        }
    }

    /// `self <= other` as numbers.
    pub fn le(&self, other: &Scalar) -> (r: bool)
        ensures
            r == self.at_most(*other),
    {
        if self.is_nan() || other.is_nan() {
            return false;
        }
        !other.lt(self)
    }

    /// `self == other` as numbers: the zeros are equal, and what is not a
    /// number equals nothing.
    pub fn same(&self, other: &Scalar) -> (r: bool)
        ensures
            r == self.equals(*other),
    {
        self.le(other) && other.le(self)
    }

    /// Whether this is a number that is zero or more.
    pub fn is_non_negative(&self) -> (r: bool)
        ensures
            r == self.non_negative(),
    {
        if self.is_nan() {
            return false;
        }
        !self.is_sign_negative() || (self.bits & MAGNITUDE_MASK) == 0
    }
}

/// A magnitude is its exponent bits followed by its fraction bits.
proof fn magnitude_splits(m: u32)
    by (bit_vector)
    requires
        m <= 0x7fff_ffff,
    ensures
        m == (m >> 23) * 0x0080_0000 + (m & 0x007f_ffff),
        (m & 0x007f_ffff) < 0x0080_0000,
        (m >> 23) <= 255,
{
}

/// The greater magnitude stands for the greater absolute value.
proof fn units_ascend(a: Scalar, b: Scalar)
    requires
        a.magnitude() < b.magnitude(),
    ensures
        0 <= a.units() < b.units(),
{
    let (e1, f1) = (a.exponent(), a.fraction());
    let (e2, f2) = (b.exponent(), b.fraction());
    let (x, y) = (a.bits, b.bits);
    assert(x & MAGNITUDE_MASK <= 0x7fff_ffff) by (bit_vector);
    assert(y & MAGNITUDE_MASK <= 0x7fff_ffff) by (bit_vector);
    magnitude_splits(a.magnitude());
    magnitude_splits(b.magnitude());
    if e1 == 0 {
        if e2 > 0 {
            let upper = pow2((e2 - 1) as nat);
            lemma_pow2_pos((e2 - 1) as nat);
            assert((0x0080_0000 + f2) * upper >= 0x0080_0000) by (nonlinear_arith)
                requires
                    f2 >= 0,
                    upper >= 1,
            ;
        }
    } else {
        let lower = pow2((e1 - 1) as nat);
        let upper = pow2((e2 - 1) as nat);
        lemma_pow2_pos((e1 - 1) as nat);
        if e1 == e2 {
            assert(0 <= (0x0080_0000 + f1) * lower < (0x0080_0000 + f2) * lower) by (nonlinear_arith)
                requires
                    0 <= f1 < f2,
                    lower >= 1,
            ;
        } else {
            lemma_pow2_unfold(e1 as nat);
            if e1 < e2 - 1 {
                lemma_pow2_strictly_increases(e1 as nat, (e2 - 1) as nat);
            }
            assert(0 <= (0x0080_0000 + f1) * lower < (0x0080_0000 + f2) * upper) by (nonlinear_arith)
                requires
                    0 <= f1 < 0x0080_0000,
                    0 <= f2,
                    lower >= 1,
                    upper >= 2 * lower,
            ;
        }
    }
}

/// The signed magnitudes are ordered as the values are: comparing patterns
/// by `rank` compares the numbers they stand for, and only the two zeros
/// share a value.
pub proof fn rank_orders_as_values(a: Scalar, b: Scalar)
    ensures
        a.rank() < b.rank() <==> a.signed_units() < b.signed_units(),
        a.rank() == b.rank() <==> a.signed_units() == b.signed_units(),
        a.rank() == 0 <==> a.signed_units() == 0,
{
    let zero = Scalar { bits: 0 };
    assert(0u32 & MAGNITUDE_MASK == 0) by (bit_vector);
    assert((0u32 >> 23) == 0 && (0u32 & FRACTION_MASK) == 0) by (bit_vector);
    if a.magnitude() > 0 {
        units_ascend(zero, a);
    }
    if b.magnitude() > 0 {
        units_ascend(zero, b);
    }
    if a.magnitude() < b.magnitude() {
        units_ascend(a, b);
    } else if b.magnitude() < a.magnitude() {
        units_ascend(b, a);
    }
}

/// Among numbers exactly one of `a < b`, `a == b`, `b < a` holds, and `<`
/// is transitive: the comparisons are a total order on what is a number.
pub proof fn order_is_total(a: Scalar, b: Scalar, c: Scalar)
    requires
        !a.nan(),
        !b.nan(),
        !c.nan(),
    ensures
        a.below(b) || a.equals(b) || b.below(a),
        !(a.below(b) && b.below(a)),
        !(a.below(b) && a.equals(b)),
        a.below(b) && b.below(c) ==> a.below(c),
        a.at_most(b) <==> !b.below(a),
{
}

/// What is not a number compares false with everything, itself included.
pub proof fn nan_is_unordered(a: Scalar, b: Scalar)
    requires
        a.nan(),
    ensures
        !a.below(b),
        !b.below(a),
        !a.at_most(b),
        !b.at_most(a),
        !a.equals(a),
        !a.non_negative(),
{
}

} // verus!
