//! Classification of IEEE-754 binary64 values by their bit patterns.
//!
//! Grain parameters are real-valued. They cross this library as the raw
//! 64 bits of a double (e.g. 25.0 is `0x4039_0000_0000_0000`), so that
//! every decision taken on them is a fact about integers.

use vstd::prelude::*;

verus! {

/// A double-precision number, held as its 64-bit pattern.
///
/// Two of them are equal when their patterns are: `0` and `-0` differ, and
/// a NaN equals itself.
#[derive(Clone, Copy, Debug, PartialEq, Eq, Structural)]
pub struct Float64 {
    pub bits: u64,
}

/// The sign bit: set for negative numbers, for `-0` and for some NaNs.
pub open spec fn sign_bit(bits: u64) -> bool {
    bits >> 63 == 1
}

/// The eleven bits of the biased exponent.
pub open spec fn exponent_field(bits: u64) -> u64 {
    (bits >> 52) & 0x7ff
}

/// The fifty-two bits of the fraction.
pub open spec fn fraction_field(bits: u64) -> u64 {
    bits & 0xf_ffff_ffff_ffff
}

impl Float64 {
    /// Not a number: the exponent is all ones and the fraction is not zero.
    pub open spec fn is_nan(self) -> bool {
        exponent_field(self.bits) == 0x7ff && fraction_field(self.bits) != 0
    }

    /// Positive or negative zero.
    pub open spec fn is_zero(self) -> bool {
        exponent_field(self.bits) == 0 && fraction_field(self.bits) == 0
    }

    /// Strictly greater than zero: a positive subnormal, normal or infinite
    /// value. No NaN is positive.
    pub open spec fn is_positive(self) -> bool {
        !sign_bit(self.bits) && !self.is_nan() && !self.is_zero()
    }

    /// Whether the value is strictly greater than zero.
    pub fn positive(&self) -> (r: bool)
        ensures
            r == self.is_positive(),
    {
        let bits = self.bits;
        assert((0 < bits && bits <= 0x7ff0_0000_0000_0000) <==> (!sign_bit(bits)
            && !(exponent_field(bits) == 0x7ff && fraction_field(bits) != 0)
            && !(exponent_field(bits) == 0 && fraction_field(bits) == 0))) by (bit_vector);
        0 < bits && bits <= 0x7ff0_0000_0000_0000
    }
}

} // verus!
