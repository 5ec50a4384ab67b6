//! The error taxonomy: transport failures and decode failures cross
//! component boundaries and send the scheduler into backoff; a single
//! leg's unparsable timestamp is recovered locally during projection.

use vstd::prelude::*;

verus! {

/// A network/HTTP-level failure: the response never arrived, or arrived
/// with a non-success status.
#[derive(Debug, Clone, PartialEq, Eq)]
pub struct TransportError {
    pub status: u16,
}

/// A malformed or unexpectedly shaped response body.
#[derive(Debug, Clone, Copy, PartialEq, Eq)]
pub struct DecodeError;

/// A single leg's expected-start timestamp could not be parsed; the leg
/// is dropped and projection continues.
#[derive(Debug, Clone, Copy, PartialEq, Eq)]
pub struct LegTimeParseError;

} // verus!
