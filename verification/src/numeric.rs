//! The numeric value type carried across the solver boundary.
//!
//! The orchestration layer never computes with the solver's double-precision
//! values: it only allocates, copies and defaults them. A [`Number`] therefore
//! holds a value opaquely, as its 64-bit wire representation, and the layer's
//! contracts speak of those bits. Callers that produce or consume actual
//! floating-point values convert at the boundary with [`Number::from_bits`]
//! and [`Number::to_bits`].

use vstd::prelude::*;

verus! {

/// The bit pattern of the value one in the solver's 64-bit number format,
/// used as the default for missing initial multipliers.
pub const ONE_BITS: u64 = 0x3FF0000000000000;

/// A solver number, held as its 64-bit representation.
#[derive(Clone, Copy, Debug, PartialEq, Eq, Structural)]
pub struct Number {
    bits: u64,
}

impl View for Number {
    type V = u64;

    closed spec fn view(&self) -> u64 {
        self.bits
    }
}

impl Number {
    /// Wraps a 64-bit representation.
    pub fn from_bits(bits: u64) -> (r: Number)
        ensures
            r@ == bits,
    {
        Number { bits }
    }

    /// Returns the 64-bit representation.
    pub fn to_bits(&self) -> (r: u64)
        ensures
            r == self@,
    {
        self.bits
    }

    /// The all-zero pattern, the initial content of freshly allocated buffers.
    pub fn zero() -> (r: Number)
        ensures
            r@ == 0,
    {
        Number { bits: 0 }
    }

    /// The value one, the default for missing initial multipliers.
    pub fn one() -> (r: Number)
        ensures
            r@ == ONE_BITS,
    {
        Number { bits: ONE_BITS }
    }
}

/// Allocates a vector of `len` copies of `value`.
pub fn repeated<T: Copy>(len: usize, value: T) -> (v: Vec<T>)
    ensures
        v@.len() == len,
        forall|i: int| 0 <= i < len ==> v@[i] == value,
{
    let mut v: Vec<T> = Vec::new();
    let mut i: usize = 0;
    while i < len
        invariant
            i <= len,
            v@.len() == i,
            forall|j: int| 0 <= j < i ==> v@[j] == value,
        decreases len - i,
    {
        v.push(value);
        i = i + 1;
    }
    v
}

} // verus!
