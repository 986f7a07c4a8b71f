//! Failure values returned by the builders.

use vstd::prelude::*;

verus! {

/// Why building an instruction was aborted.  No instruction is ever
/// returned once one of these occurs: construction fails outright.
#[derive(Clone, Copy, Debug, PartialEq, Eq, Structural)]
pub enum BuildError {
    /// A program-derived address could not be found for the seeds the
    /// operation uses.
    DerivationFailed,
    /// A string field is too long for its length-prefixed encoding.
    StringTooLong,
}

/// Why an upload response could not be understood.  The raw response
/// body is carried along for diagnosis.
#[derive(Clone, Debug)]
pub struct ParseError {
    /// The raw response body that defeated every extraction strategy.
    pub body: String,
}

} // verus!
