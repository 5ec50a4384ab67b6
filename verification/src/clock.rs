//! The time boundary: parsing a leg's ISO-8601 expected-start timestamp
//! into Unix seconds, and reading the synchronized wall clock. Both lean
//! on the `time` crate; everything downstream of them is verified against
//! the names and contracts stated here.

use vstd::prelude::*;

use time::format_description::well_known::Iso8601;
use time::OffsetDateTime;

verus! {

/// What the `time` crate's ISO-8601 parser makes of a timestamp string:
/// `Some` of the instant as Unix seconds when the string is a well-formed
/// offset-aware timestamp, `None` when it is rejected. The result depends
/// on the characters alone.
pub uninterp spec fn iso_unix_seconds(s: Seq<char>) -> Option<int>;

/// Relies on `time::OffsetDateTime::parse` with the `Iso8601` well-known
/// format, and on `OffsetDateTime::unix_timestamp` to read the parsed
/// instant as Unix seconds (an `i64` by that function's signature).
#[verifier::external_body]
pub fn parse_iso_timestamp(s: &str) -> (r: Option<i64>)
    ensures
        match r {
            Some(t) => iso_unix_seconds(s@) == Some(t as int),
            None => iso_unix_seconds(s@) is None,
        },
{
    match OffsetDateTime::parse(s, &Iso8601::DEFAULT) {
        Ok(t) => Some(t.unix_timestamp()),
        Err(_) => None,
    }
}

/// Relies on `time::OffsetDateTime::now_utc` for the current instant,
/// read as Unix seconds. Nothing can be promised of the wall clock's
/// value, so this has no contract; callers take the returned instant as
/// an argument and are verified for every value of it.
#[verifier::external_body]
pub fn now_unix_seconds() -> i64 {
    OffsetDateTime::now_utc().unix_timestamp()
}

} // verus!
