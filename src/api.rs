//! The HTTP surface of the service: which endpoints are mounted where, and
//! the bodies they answer with.
use vstd::prelude::*;

pub mod catcher;
pub mod status;
pub mod upload;

verus! {

/// The handlers the service provides.
#[derive(Clone, Copy, Debug, PartialEq, Eq, Structural)]
pub enum Endpoint {
    /// `GET`: reports that the service is up.
    Status,
    /// `POST`: transcodes an uploaded WAV file and answers with the MP3.
    Upload,
}

/// An endpoint and the base path it is mounted under.
pub struct Route {
    pub base: String,
    pub endpoint: Endpoint,
}

} // verus!
