//! A small status-page backend library: environment-driven configuration
//! resolution with silent defaulting, and the response-translation logic of a
//! proxy endpoint that relays a status-monitoring service's JSON feed.

pub mod configuration;
pub mod routes;
pub mod text;

use vstd::prelude::*;

verus! {

/// True exactly of the u16 status codes that count as success (2xx).
pub open spec fn spec_is_success(status: u16) -> bool {
    200 <= status < 300
}

/// Whether an HTTP status code lies in the 2xx success range.
pub fn is_success_status(status: u16) -> (r: bool)
    ensures
        r == spec_is_success(status),
{
    200 <= status && status < 300
}

} // verus!
