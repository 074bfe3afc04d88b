//! The upload endpoint.
use vstd::prelude::*;
use crate::api::{Endpoint, Route};

verus! {

/// The routes of this module: the upload endpoint under `/api/upload`.
pub fn routes() -> (r: Vec<Route>)
    ensures
        r@.len() == 1,
        r@[0].base@ == "/api/upload"@,
        r@[0].endpoint == Endpoint::Upload,
{
    let mut v: Vec<Route> = Vec::new();
    v.push(Route { base: "/api/upload".to_string(), endpoint: Endpoint::Upload });
    v
}

} // verus!
