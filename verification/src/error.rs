//! The ways in which decoding and the engine fail.

use vstd::prelude::*;

verus! {

/// Why an operation of this library did not produce a value.
#[derive(Debug, Clone, Copy, PartialEq, Eq, Structural)]
pub enum Error {
    /// The bytes have the wrong length, or do not encode a value at all.
    InvalidEncoding,
    /// The bytes name an x-coordinate with no point of the curve above it.
    NotOnCurve,
    /// The point lies on the curve but outside the prime-order subgroup.
    NotInSubgroup,
    /// The engine refused well-formed inputs, or a verification equation
    /// did not hold.
    BackendError,
    /// The trusted setup cannot be used.
    MalformedSetup,
}

} // verus!
