//! Monetary values as IEEE-754 binary64 numbers, held by their bit pattern.
//!
//! Prices, quantities and limits travel through the services unchanged; the
//! only thing the library decides about them is how two of them compare,
//! which is stated here over the bit pattern exactly as IEEE-754 orders
//! binary64 values (`NaN` is unordered, the two zeros are equal).
use vstd::prelude::*;

verus! {

/// Bit of the sign.
pub const SIGN_MASK: u64 = 0x8000_0000_0000_0000;

/// Bits of the exponent and the fraction together.
pub const MAGNITUDE_MASK: u64 = 0x7fff_ffff_ffff_ffff;

/// Bits of the exponent.
pub const EXPONENT_MASK: u64 = 0x7ff0_0000_0000_0000;

/// Bits of the fraction.
pub const FRACTION_MASK: u64 = 0x000f_ffff_ffff_ffff;

/// A binary64 number, kept as its bit pattern (`f64::to_bits`).
#[derive(Clone, Copy, Debug)]
pub struct Amount {
    pub bits: u64,
}

impl Amount {
    /// The value is a `NaN`: all exponent bits set and a nonzero fraction.
    pub open spec fn is_nan(self) -> bool {
        self.bits & EXPONENT_MASK == EXPONENT_MASK && self.bits & FRACTION_MASK != 0
    }

    /// The sign bit is set.
    pub open spec fn is_negative(self) -> bool {
        self.bits & SIGN_MASK != 0
    }

    /// Exponent and fraction read as one unsigned number; for values of one
    /// sign this grows with the absolute value.
    pub open spec fn magnitude(self) -> int {
        (self.bits & MAGNITUDE_MASK) as int
    }

    /// A number that orders non-`NaN` values as the real line does; both
    /// zeros get rank 0.
    pub open spec fn rank(self) -> int {
        if self.is_negative() {
            -self.magnitude()
        } else {
            self.magnitude()
        }
    }

    /// `self > other` on binary64 values.
    pub open spec fn greater_than(self, other: Amount) -> bool {
        !self.is_nan() && !other.is_nan() && self.rank() > other.rank()
    }

    /// `self <= other` on binary64 values.
    pub open spec fn at_most_spec(self, other: Amount) -> bool {
        !self.is_nan() && !other.is_nan() && self.rank() <= other.rank()
    }

    /// The value whose bit pattern is `bits`.
    pub fn from_bits(bits: u64) -> (a: Amount)
        ensures
            a.bits == bits,
    {
        Amount { bits }
    }

    /// The bit pattern of the value.
    pub fn to_bits(&self) -> (bits: u64)
        ensures
            bits == self.bits,
    {
        self.bits
    }

    /// Whether the value is a `NaN`.
    pub fn nan(&self) -> (r: bool)
        ensures
            r == self.is_nan(),
    {
        (self.bits & EXPONENT_MASK) == EXPONENT_MASK && (self.bits & FRACTION_MASK) != 0
    }

    /// `self > other`, as `f64` compares.
    pub fn exceeds(&self, other: &Amount) -> (r: bool)
        ensures
            r == self.greater_than(*other),
    {
        if self.nan() || other.nan() {
            return false;
        }
        let a_neg = (self.bits & SIGN_MASK) != 0;
        let b_neg = (other.bits & SIGN_MASK) != 0;
        let a_mag = self.bits & MAGNITUDE_MASK;
        let b_mag = other.bits & MAGNITUDE_MASK;
        if !a_neg && !b_neg {
            a_mag > b_mag
        } else if a_neg && b_neg {
            a_mag < b_mag
        } else if a_neg {
            false
        } else {
            a_mag != 0 || b_mag != 0
        }
    }

    /// `self <= other`, as `f64` compares.
    pub fn at_most(&self, other: &Amount) -> (r: bool)
        ensures
            r == self.at_most_spec(*other),
    {
        if self.nan() || other.nan() {
            return false;
        }
        !self.exceeds(other)
    }
}

/// How a bit pattern's magnitude relates to the pattern: without the sign
/// bit it is the pattern itself, with it the pattern less the sign bit.
proof fn lemma_magnitude(a: Amount)
    ensures
        a.bits & 0x8000_0000_0000_0000u64 == 0 ==> a.magnitude() == a.bits,
        a.bits & 0x8000_0000_0000_0000u64 != 0 ==> a.magnitude() == a.bits - 0x8000_0000_0000_0000u64,
{
    let x = a.bits;
    assert(x & 0x8000_0000_0000_0000u64 == 0 ==> x & 0x7fff_ffff_ffff_ffffu64 == x) by (bit_vector);
    assert(x & 0x8000_0000_0000_0000u64 != 0 ==> x & 0x7fff_ffff_ffff_ffffu64 == x
        - 0x8000_0000_0000_0000u64) by (bit_vector);
}

/// The binary64 order on numbers (no `NaN`): `<=` is the negation of `>`;
/// `>` is asymmetric and transitive; two non-negative numbers compare as
/// their bit patterns do, two negative ones the other way round; a
/// non-negative number is above a negative one unless both are zeros.
pub proof fn law_binary64_order(a: Amount, b: Amount, c: Amount)
    requires
        !a.is_nan(),
        !b.is_nan(),
        !c.is_nan(),
    ensures
        a.at_most_spec(b) <==> !a.greater_than(b),
        a.greater_than(b) ==> !b.greater_than(a),
        a.greater_than(b) && b.greater_than(c) ==> a.greater_than(c),
        a.bits & 0x8000_0000_0000_0000u64 == 0 && b.bits & 0x8000_0000_0000_0000u64 == 0 ==> (
        a.greater_than(b) <==> a.bits > b.bits),
        a.bits & 0x8000_0000_0000_0000u64 != 0 && b.bits & 0x8000_0000_0000_0000u64 != 0 ==> (
        a.greater_than(b) <==> a.bits < b.bits),
        a.bits & 0x8000_0000_0000_0000u64 == 0 && b.bits & 0x8000_0000_0000_0000u64 != 0 ==> (
        a.greater_than(b) <==> !(a.bits == 0 && b.bits == 0x8000_0000_0000_0000u64)),
{
    lemma_magnitude(a);
    lemma_magnitude(b);
    lemma_magnitude(c);
}

} // verus!
