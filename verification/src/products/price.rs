use vstd::prelude::*;

verus! {

/// A price, held as the bit pattern of an IEEE 754 binary64 number.
///
/// Bit 63 is the sign, bits 62 to 52 the biased exponent and bits 51 to 0
/// the fraction.
#[derive(Clone, Copy, Debug, PartialEq, Eq, Structural)]
pub struct Price {
    pub bits: u64,
}

impl Price {
    /// The sign bit is set.
    pub open spec fn sign(self) -> bool {
        self.bits >> 63 == 1
    }

    /// The biased exponent, 11 bits wide.
    pub open spec fn exponent(self) -> u64 {
        (self.bits >> 52) & 0x7ff
    }

    /// The fraction, 52 bits wide.
    pub open spec fn fraction(self) -> u64 {
        self.bits & 0xf_ffff_ffff_ffff
    }

    /// The pattern encodes no number: the exponent is all ones and the
    /// fraction is not zero.
    pub open spec fn is_nan(self) -> bool {
        self.exponent() == 0x7ff && self.fraction() != 0
    }

    /// The pattern encodes zero, of either sign.
    pub open spec fn is_zero(self) -> bool {
        self.exponent() == 0 && self.fraction() == 0
    }

    /// The encoded number is greater than zero. Positive infinity counts;
    /// zero, negative numbers and NaN do not.
    pub open spec fn positive(self) -> bool {
        !self.sign() && !self.is_nan() && !self.is_zero()
    }

    pub fn from_bits(bits: u64) -> (price: Price)
        ensures
            price.bits == bits,
    {
        Price { bits }
    }

    pub fn to_bits(&self) -> (bits: u64)
        ensures
            bits == self.bits,
    {
        self.bits
    }

    /// Whether the encoded number is greater than zero.
    pub fn is_positive(&self) -> (yes: bool)
        ensures
            yes == self.positive(),
    {
        let bits: u64 = self.bits;
        assert((0 < bits && bits <= 0x7ff0_0000_0000_0000) == (!(bits >> 63 == 1) && !((bits >> 52)
            & 0x7ff == 0x7ff && bits & 0xf_ffff_ffff_ffff != 0) && !((bits >> 52) & 0x7ff == 0
            && bits & 0xf_ffff_ffff_ffff == 0))) by (bit_vector);
        0 < bits && bits <= 0x7ff0_0000_0000_0000
    }
}

} // verus!
