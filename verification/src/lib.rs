//! Transit departure display: a small verified core that turns a journey
//! planner's trip responses into a live "leaving in N minutes" countdown
//! list and lays that list out for a fixed-size monochrome display, driven
//! by a resilient poll/render/backoff loop.

pub mod clock;
pub mod errors;
pub mod model;
pub mod numfmt;
pub mod parse;
pub mod project;
pub mod query;
pub mod render;
pub mod sched;
pub mod strutil;

use vstd::prelude::*;

use crate::errors::TransportError;

verus! {

/// Whether an HTTP status code counts as success: any 2xx does.
pub open spec fn is_success_status(status: int) -> bool {
    200 <= status < 300
}

/// Checks the HTTP status of a fetched response: any 2xx is accepted,
/// anything else is a transport failure carrying the offending status.
pub fn check_status(status: u16) -> (r: Result<(), TransportError>)
    ensures
        r is Ok <==> is_success_status(status as int),
        r matches Err(e) ==> e.status == status,
{
    if 200 <= status && status < 300 {
        Ok(())
    } else {
        Err(TransportError { status })
    }
}

} // verus!
