//! Decimal parameters carried as bit patterns.
//!
//! The verified code never computes with fractional numbers.  A decimal
//! parameter travels through it as the 64 bits of its IEEE 754 binary64
//! encoding, and the few questions asked of it (is it zero, is it at least
//! zero, does it lie in the unit interval) are answered on the bits: among
//! patterns with a clear sign bit, the order of the numbers is the order of
//! the patterns read as unsigned integers.

use vstd::prelude::*;

verus! {

/// Bits of positive zero.
pub const ZERO_BITS: u64 = 0;

/// Bits of negative zero.
pub const NEGATIVE_ZERO_BITS: u64 = 0x8000_0000_0000_0000;

/// Bits of one.
pub const ONE_BITS: u64 = 0x3FF0_0000_0000_0000;

/// Bits of positive infinity; every larger pattern with a clear sign bit is
/// not a number.
pub const INFINITY_BITS: u64 = 0x7FF0_0000_0000_0000;

/// A binary64 number, held as its bit pattern.
#[derive(Clone, Copy, Debug, PartialEq, Eq, Structural)]
pub struct Decimal {
    pub bits: u64,
}

impl Decimal {
    /// The number is zero, of either sign.
    pub open spec fn is_zero(self) -> bool {
        self.bits == ZERO_BITS || self.bits == NEGATIVE_ZERO_BITS
    }

    /// The number is at least zero: a zero, a positive number or positive
    /// infinity, and not a NaN.
    pub open spec fn is_non_negative(self) -> bool {
        self.bits <= INFINITY_BITS || self.bits == NEGATIVE_ZERO_BITS
    }

    /// The number is greater than zero and at most one.
    pub open spec fn is_unit_fraction(self) -> bool {
        ZERO_BITS < self.bits <= ONE_BITS
    }

    /// The number with the given bit pattern.
    pub fn from_bits(bits: u64) -> (d: Decimal)
        ensures
            d.bits == bits,
    {
        Decimal { bits }
    }

    /// The bit pattern of the number.
    pub fn to_bits(&self) -> (bits: u64)
        ensures
            bits == self.bits,
    {
        self.bits
    }

    /// Positive zero.
    pub fn zero() -> (d: Decimal)
        ensures
            d.bits == ZERO_BITS,
            d.is_zero(),
    {
        Decimal { bits: ZERO_BITS }
    }

    /// Whether the number is zero, of either sign.
    pub fn zero_valued(&self) -> (b: bool)
        ensures
            b == self.is_zero(),
    {
        self.bits == ZERO_BITS || self.bits == NEGATIVE_ZERO_BITS
    }

    /// Whether the number is at least zero.
    pub fn non_negative(&self) -> (b: bool)
        ensures
            b == self.is_non_negative(),
    {
        self.bits <= INFINITY_BITS || self.bits == NEGATIVE_ZERO_BITS
    }

    /// Whether the number is greater than zero and at most one.
    pub fn unit_fraction(&self) -> (b: bool)
        ensures
            b == self.is_unit_fraction(),
    {
        ZERO_BITS < self.bits && self.bits <= ONE_BITS
    }
}

} // verus!
