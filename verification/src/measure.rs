//! Measured quantities.

use vstd::prelude::*;

verus! {

/// A measured quantity (a temperature, a speed, a rain volume), held as the bit pattern
/// of the binary64 number that the weather service reported.
///
/// The library moves such values from a service's answer into the common model and
/// never computes with them, so two measures are equal exactly when their bits are.
#[derive(Clone, Copy, Debug, PartialEq, Eq, Structural, Default)]
pub struct Measure {
    pub bits: u64,
}

impl Measure {
    /// The measure with the given bit pattern.
    pub fn from_bits(bits: u64) -> (m: Measure)
        ensures
            m.bits == bits,
    {
        Measure { bits }
    }

    /// The bit pattern of the measure.
    pub fn to_bits(self) -> (bits: u64)
        ensures
            bits == self.bits,
    {
        self.bits
    }

    /// Positive zero, whose bits are all clear.
    pub open spec fn spec_zero() -> Measure {
        Measure { bits: 0 }
    }

    /// Positive zero: what stands in for a quantity that a service left out.
    #[verifier::when_used_as_spec(spec_zero)]
    pub fn zero() -> (m: Measure)
        ensures
            m == Measure::spec_zero(),
    {
        Measure { bits: 0 }
    }
}

} // verus!
