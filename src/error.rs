//! Errors reported by the hash adapter.
use vstd::prelude::*;

verus! {

/// Why an adapter call produced no digest.
#[derive(Clone, Copy, Debug, PartialEq, Eq, Structural)]
pub enum RescueError {
    /// The input does not hold the required number of comma-separated tokens.
    InvalidArity,
    /// A token is not a decimal integer that fits the element width.
    ParseFailure,
    /// The digest bytes do not form valid UTF-8 text.
    InvalidText,
    /// The hash collaborator cannot process the input (a byte string of a
    /// length that its implementation mishandles).
    InternalInvariantViolation,
}

} // verus!
