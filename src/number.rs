use vstd::prelude::*;

verus! {

/// A floating-point value, held as its IEEE-754 binary64 encoding.
///
/// The state machine never inspects a number: it stores, copies and forwards
/// values whose arithmetic, parsing and formatting the host performs.
#[derive(Clone, Copy, Debug, PartialEq, Eq, Structural)]
pub struct Number {
    pub bits: u64,
}

impl Number {
    /// The encoding of positive zero.
    pub open spec fn spec_zero() -> Number {
        Number { bits: 0 }
    }

    pub fn zero() -> (r: Number)
        ensures
            r == Number::spec_zero(),
    {
        Number { bits: 0 }
    }

    pub fn from_bits(bits: u64) -> (r: Number)
        ensures
            r.bits == bits,
    {
        Number { bits }
    }

    pub fn to_bits(&self) -> (r: u64)
        ensures
            r == self.bits,
    {
        self.bits
    }
}

} // verus!
