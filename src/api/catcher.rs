//! Error catchers: every failed request under `/api` is answered with a JSON
//! body naming the failure.
use vstd::prelude::*;

verus! {

/// Body of an error answer.
pub struct DefaultErrorResp {
    pub error: String,
}

/// A catcher registered under `base`; `code` is `None` for the catcher that
/// handles every status.
pub struct Catcher {
    pub base: String,
    pub code: Option<u16>,
}

/// The catchers of the service: one default catcher under `/api`.
pub fn catchers() -> (r: Vec<Catcher>)
    ensures
        r@.len() == 1,
        r@[0].base@ == "/api"@,
        r@[0].code is None,
{
    let mut v: Vec<Catcher> = Vec::new();
    v.push(Catcher { base: "/api".to_string(), code: None });
    v
}

/// The body answering a failed request whose status has this reason phrase.
pub fn default_error_resp(reason: &str) -> (r: DefaultErrorResp)
    ensures
        r.error@ == reason@,
{
    DefaultErrorResp { error: reason.to_string() }
}

} // verus!
