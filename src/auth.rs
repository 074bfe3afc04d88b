//! API key authorisation: a request carries its key in a header, and the
//! server compares it with the key it was configured with.
use vstd::prelude::*;

verus! {

/// Proof that a request presented the configured API key.
#[derive(Debug)]
pub struct ApiToken;

/// Why a request was not authorised.
#[derive(Clone, Copy, Debug, PartialEq, Eq, Structural)]
pub enum AuthError {
    /// The request carries no key.
    Missing,
    /// The request's key differs from the configured one.
    Invalid,
    /// The server has no key configured.
    InvalidServerSetup,
}

impl AuthError {
    /// The HTTP status the refusal is answered with.
    pub fn status_code(&self) -> (r: u16)
        ensures
            r == match *self {
                AuthError::Missing => 400u16,
                AuthError::Invalid => 401u16,
                AuthError::InvalidServerSetup => 500u16,
            },
    {
        match self {
            AuthError::Missing => 400,
            AuthError::Invalid => 401,
            AuthError::InvalidServerSetup => 500,
        }
    }
}

/// Authorises a request from the key it presented and the key the server
/// was configured with: a missing key is refused first, then a server
/// without a key, then a key that differs.
pub fn check_api_key(presented: Option<&String>, configured: Option<&String>) -> (r: Result<ApiToken, AuthError>)
    ensures
        match (presented, configured) {
            (None, _) => r == Err::<ApiToken, AuthError>(AuthError::Missing),
            (Some(_), None) => r == Err::<ApiToken, AuthError>(AuthError::InvalidServerSetup),
            (Some(p), Some(c)) => if p@ == c@ {
                r is Ok
            } else {
                r == Err::<ApiToken, AuthError>(AuthError::Invalid)
            },
        },
{
    let p = match presented {
        Some(p) => p,
        None => return Err(AuthError::Missing),
    };
    let c = match configured {
        Some(c) => c,
        None => return Err(AuthError::InvalidServerSetup),
    };
    if p.eq(c) {
        Ok(ApiToken)
    } else {
        Err(AuthError::Invalid)
    }
}

} // verus!
