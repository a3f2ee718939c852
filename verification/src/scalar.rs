//! Real numbers as the renderer carries them.
//!
//! A [`Scalar`] is the bit pattern of an IEEE 754 binary32 number. The
//! library never does arithmetic on scalars: it orders them, tests their
//! sign and changes it, all of which are exact on the encoding. Sums,
//! products, quotients and roots are the business of whoever embeds the
//! library.
//!
//! The order is computed on the encodings and proved to be the order of the
//! numbers that they encode.

use vstd::arithmetic::power2::{
    lemma2_to64, lemma_pow2_pos, lemma_pow2_strictly_increases, lemma_pow2_unfold, pow2,
};
use vstd::prelude::*;

verus! {

/// Mask of the sign bit of a binary32 number.
pub const SIGN_BIT: u32 = 0x8000_0000;

/// Encoding of positive infinity; every magnitude above it is not a number.
pub const INFINITY_BITS: u32 = 0x7f80_0000;

/// Encoding of the number one.
pub const ONE_BITS: u32 = 0x3f80_0000;

/// The weight of the leading bit of a significand, which the encoding of a
/// normal number leaves out: two to the power of 23.
pub const HIDDEN_BIT: u32 = 0x0080_0000;

/// A binary32 number, held by its encoding.
#[derive(Clone, Copy, PartialEq, Eq, Structural, Debug)]
pub struct Scalar {
    pub bits: u32,
}

impl Scalar {
    /// The encoding without its sign bit.
    pub open spec fn magnitude(self) -> int {
        if self.bits >= SIGN_BIT {
            self.bits - SIGN_BIT
        } else {
            self.bits as int
        }
    }

    /// Whether the sign bit is set.
    pub open spec fn sign(self) -> bool {
        self.bits >= SIGN_BIT
    }

    /// Whether the encoding stands for no number at all.
    pub open spec fn nan(self) -> bool {
        self.magnitude() > INFINITY_BITS
    }

    /// The place of a number in the order of the reals: an integer that
    /// grows with the number encoded. Both zeros have rank zero.
    pub open spec fn rank(self) -> int {
        if self.sign() {
            -self.magnitude()
        } else {
            self.magnitude()
        }
    }

    /// `self < other` as IEEE 754 defines it: false once either is not a number.
    pub open spec fn below(self, other: Scalar) -> bool {
        !self.nan() && !other.nan() && self.rank() < other.rank()
    }

    /// `self <= other` as IEEE 754 defines it.
    pub open spec fn at_most(self, other: Scalar) -> bool {
        !self.nan() && !other.nan() && self.rank() <= other.rank()
    }

    /// `self == other` as IEEE 754 defines it: the two zeros are equal, and
    /// what is not a number equals nothing.
    pub open spec fn same(self, other: Scalar) -> bool {
        !self.nan() && !other.nan() && self.rank() == other.rank()
    }

    /// `self > 0`.
    pub open spec fn positive(self) -> bool {
        !self.nan() && self.rank() > 0
    }

    /// `self < 0`.
    pub open spec fn negative(self) -> bool {
        !self.nan() && self.rank() < 0
    }

    /// `self == 0`, for either zero.
    pub open spec fn null(self) -> bool {
        self.magnitude() == 0
    }

    /// The exponent field of the encoding.
    pub open spec fn exponent(self) -> nat {
        (self.magnitude() / (HIDDEN_BIT as int)) as nat
    }

    /// The fraction field of the encoding.
    pub open spec fn fraction(self) -> nat {
        (self.magnitude() % (HIDDEN_BIT as int)) as nat
    }

    /// The absolute value of the number encoded, in units of two to the
    /// power of -149, of which every binary32 number is a whole multiple: the
    /// fraction alone where the exponent field is zero, and otherwise the
    /// fraction with its leading bit, doubled once for each step of the
    /// exponent above one. Infinity counts as two to the power of 128, the
    /// first power beyond the numbers.
    pub open spec fn size(self) -> nat {
        if self.exponent() == 0 {
            self.fraction()
        } else {
            ((HIDDEN_BIT + self.fraction()) * pow2((self.exponent() - 1) as nat)) as nat
        }
    }

    /// The number encoded, in units of two to the power of -149.
    pub open spec fn units(self) -> int {
        if self.sign() {
            -(self.size() as int)
        } else {
            self.size() as int
        }
    }

    /// The number with the opposite sign.
    pub open spec fn opposite(self) -> Scalar {
        Scalar {
            bits: if self.bits >= SIGN_BIT {
                (self.bits - SIGN_BIT) as u32
            } else {
                (self.bits + SIGN_BIT) as u32
            },
        }
    }

    /// The scalar with the given encoding.
    pub fn from_bits(bits: u32) -> (r: Scalar)
        ensures
            r.bits == bits,
    {
        Scalar { bits }
    }

    /// The encoding of the scalar.
    pub fn to_bits(&self) -> (r: u32)
        ensures
            r == self.bits,
    {
        self.bits
    }

    /// Positive zero.
    pub fn zero() -> (r: Scalar)
        ensures
            r.bits == 0,
    {
        Scalar { bits: 0 }
    }

    /// The number one.
    pub fn one() -> (r: Scalar)
        ensures
            r.bits == ONE_BITS,
    {
        Scalar { bits: ONE_BITS }
    }

    /// Positive infinity.
    pub fn infinity() -> (r: Scalar)
        ensures
            r.bits == INFINITY_BITS,
    {
        Scalar { bits: INFINITY_BITS }
    }

    /// Whether the scalar is not a number.
    pub fn is_nan(&self) -> (r: bool)
        ensures
            r == self.nan(),
    {
        let magnitude: u32 = if self.bits >= SIGN_BIT { self.bits - SIGN_BIT } else { self.bits };
        magnitude > INFINITY_BITS
    }

    fn rank_of(&self) -> (r: i64)
        ensures
            r == self.rank(),
    {
        if self.bits >= SIGN_BIT {
            let magnitude: u32 = self.bits - SIGN_BIT;
            0 - (magnitude as i64)
        } else {
            self.bits as i64
        }
    }

    /// `self < other`.
    pub fn less_than(&self, other: &Scalar) -> (r: bool)
        ensures
            r == self.below(*other),
    {
        !self.is_nan() && !other.is_nan() && self.rank_of() < other.rank_of()
    }

    /// `self <= other`.
    pub fn less_or_equal(&self, other: &Scalar) -> (r: bool)
        ensures
            r == self.at_most(*other),
    {
        !self.is_nan() && !other.is_nan() && self.rank_of() <= other.rank_of()
    }

    /// `self == other` as numbers.
    pub fn equals(&self, other: &Scalar) -> (r: bool)
        ensures
            r == self.same(*other),
    {
        !self.is_nan() && !other.is_nan() && self.rank_of() == other.rank_of()
    }

    /// `self > 0`.
    pub fn is_positive(&self) -> (r: bool)
        ensures
            r == self.positive(),
    {
        !self.is_nan() && self.rank_of() > 0
    }

    /// `self < 0`.
    pub fn is_negative(&self) -> (r: bool)
        ensures
            r == self.negative(),
    {
        !self.is_nan() && self.rank_of() < 0
    }

    /// `self == 0`.
    pub fn is_zero(&self) -> (r: bool)
        ensures
            r == self.null(),
    {
        self.bits == 0 || self.bits == SIGN_BIT
    }

    /// The number with the opposite sign; exact, as only the sign bit changes.
    pub fn negated(&self) -> (r: Scalar)
        ensures
            r == self.opposite(),
    {
        if self.bits >= SIGN_BIT {
            Scalar { bits: self.bits - SIGN_BIT }
        } else {
            Scalar { bits: self.bits + SIGN_BIT }
        }
    }
}

/// A larger encoding, the sign left aside, is that of a larger absolute value.
pub proof fn lemma_size_grows(a: Scalar, b: Scalar)
    requires
        a.magnitude() < b.magnitude(),
    ensures
        a.size() < b.size(),
{
    let ea = a.exponent();
    let eb = b.exponent();
    let fa = a.fraction() as int;
    let fb = b.fraction() as int;
    let hidden = HIDDEN_BIT as int;
    lemma2_to64();
    if ea == eb {
        if ea > 0 {
            let p = pow2((ea - 1) as nat) as int;
            lemma_pow2_pos((ea - 1) as nat);
            assert((hidden + fa) * p < (hidden + fb) * p) by (nonlinear_arith)
                requires
                    fa < fb,
                    p > 0,
            ;
        }
    } else {
        assert(ea < eb);
        // The size of `a` stays below the hidden bit at the next exponent.
        let bound = hidden * pow2(ea) as int;
        if ea == 0 {
            assert(a.size() < bound);
        } else {
            let p = pow2((ea - 1) as nat) as int;
            lemma_pow2_pos((ea - 1) as nat);
            lemma_pow2_unfold(ea);
            assert((hidden + fa) * p < hidden * (2 * p)) by (nonlinear_arith)
                requires
                    fa < hidden,
                    p > 0,
            ;
            assert(a.size() < bound);
        }
        // The size of `b` starts at the hidden bit at its own exponent.
        let q = pow2((eb - 1) as nat) as int;
        lemma_pow2_pos((eb - 1) as nat);
        if ea < eb - 1 {
            lemma_pow2_strictly_increases(ea, (eb - 1) as nat);
        }
        assert(hidden * pow2(ea) <= hidden * q) by (nonlinear_arith)
            requires
                pow2(ea) <= q,
                hidden > 0,
        ;
        assert(hidden * q <= (hidden + fb) * q) by (nonlinear_arith)
            requires
                fb >= 0,
                q > 0,
        ;
    }
}

/// The order computed on the encodings is the order of the numbers encoded:
/// of two that are numbers, one is below the other, or equal to it, exactly
/// when it is so in units, and the sign of a number is the sign of its units.
pub proof fn lemma_order_is_that_of_the_numbers(a: Scalar, b: Scalar)
    requires
        !a.nan(),
        !b.nan(),
    ensures
        a.below(b) <==> a.units() < b.units(),
        a.at_most(b) <==> a.units() <= b.units(),
        a.same(b) <==> a.units() == b.units(),
        a.positive() <==> a.units() > 0,
        a.negative() <==> a.units() < 0,
        a.null() <==> a.units() == 0,
{
    let zero = Scalar { bits: 0 };
    assert(zero.size() == 0);
    if a.magnitude() > 0 {
        lemma_size_grows(zero, a);
    }
    if b.magnitude() > 0 {
        lemma_size_grows(zero, b);
    }
    if a.magnitude() < b.magnitude() {
        lemma_size_grows(a, b);
    } else if b.magnitude() < a.magnitude() {
        lemma_size_grows(b, a);
    } else {
        assert(a.size() == b.size());
    }
}

/// Changing the sign of a number changes the sign of its units, and nothing
/// else.
pub proof fn lemma_opposite_negates(a: Scalar)
    ensures
        a.opposite().units() == -a.units(),
        a.opposite().nan() == a.nan(),
        a.opposite().opposite() == a,
{
}

} // verus!
