//! Numbers as the language writes and stores them.

use vstd::prelude::*;

verus! {

/// A number, kept exactly as it was written or computed.
///
/// An integer literal stays an integer. Every other number is carried as the
/// 64 bits of an IEEE-754 binary64 value. The library moves numbers around
/// and never calculates with them.
#[derive(Debug, Clone, Copy, PartialEq, Eq, Structural)]
pub enum Number {
    /// A non-negative integer.
    PosInt(u64),
    /// A negative integer.
    NegInt(i64),
    /// The bit pattern of a binary64 value.
    Float(u64),
}

impl Number {
    /// The bits of `0.0`.
    pub const ZERO_BITS: u64 = 0;

    /// The bits of `1.0`.
    pub const ONE_BITS: u64 = 0x3FF0_0000_0000_0000;

    /// The bits of `-1.0`.
    pub const MINUS_ONE_BITS: u64 = 0xBFF0_0000_0000_0000;

    /// The binary64 value `0.0`.
    pub open spec fn spec_zero() -> Number {
        Number::Float(0)
    }

    /// The binary64 value `1.0`.
    pub open spec fn spec_one() -> Number {
        Number::Float(0x3FF0_0000_0000_0000)
    }

    /// The binary64 value `-1.0`.
    pub open spec fn spec_minus_one() -> Number {
        Number::Float(0xBFF0_0000_0000_0000)
    }

    /// The binary64 value `0.0`.
    #[verifier::when_used_as_spec(spec_zero)]
    pub fn zero() -> (r: Number)
        ensures
            r == Number::spec_zero(),
    {
        Number::Float(0)
    }

    /// The binary64 value `1.0`.
    #[verifier::when_used_as_spec(spec_one)]
    pub fn one() -> (r: Number)
        ensures
            r == Number::spec_one(),
    {
        Number::Float(0x3FF0_0000_0000_0000)
    }

    /// The binary64 value `-1.0`.
    #[verifier::when_used_as_spec(spec_minus_one)]
    pub fn minus_one() -> (r: Number)
        ensures
            r == Number::spec_minus_one(),
    {
        Number::Float(0xBFF0_0000_0000_0000)
    }

    /// A binary64 value from its bits.
    pub fn from_bits(bits: u64) -> (r: Number)
        ensures
            r == Number::Float(bits),
    {
        Number::Float(bits)
    }
}

} // verus!
