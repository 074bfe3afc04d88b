//! The status endpoint.
use vstd::prelude::*;
use crate::api::{Endpoint, Route};

verus! {

/// Body of the status endpoint.
pub struct StatusResp {
    pub status: String,
}

/// The routes of this module: the status endpoint under `/api/status`.
pub fn routes() -> (r: Vec<Route>)
    ensures
        r@.len() == 1,
        r@[0].base@ == "/api/status"@,
        r@[0].endpoint == Endpoint::Status,
{
    let mut v: Vec<Route> = Vec::new();
    v.push(Route { base: "/api/status".to_string(), endpoint: Endpoint::Status });
    v
}

/// The status report: the service is online.
pub fn status() -> (r: StatusResp)
    ensures
        r.status@ == "Online"@,
{
    StatusResp { status: "Online".to_string() }
}

} // verus!
