//! The failures the transcoding pipeline reports, and how the HTTP layer
//! presents each of them.
use vstd::prelude::*;
use mp3lame_encoder::{BuildError, EncodeError};

verus! {

#[verifier::external_type_specification]
#[verifier::external_body]
pub struct ExHoundError(hound::Error);

#[verifier::external_type_specification]
#[verifier::external_body]
pub struct ExIoError(std::io::Error);

/// A typed failure of the pipeline, carrying its cause where there is one.
#[derive(Debug)]
pub enum WaveemapiError {
    /// The input is not a WAV stream the reader understands.
    InvalidWav(hound::Error),
    /// Channel count or bit depth / sample format outside what is handled.
    UnsupportedFormat,
    /// A sample of the body could not be read (the reader's cause), or lies
    /// outside the range of its bit depth (no cause).
    MalformedSample(Option<hound::Error>),
    /// The encoder could not be configured.
    BuildFailure(BuildError),
    /// The encoder failed mid-stream.
    EncodeFailure(EncodeError),
    /// A filesystem operation failed.
    IoFailure(std::io::Error),
    /// The data directory is missing or not a directory.
    DirectoryInvalid,
}

impl WaveemapiError {
    /// The HTTP status the failure is answered with: client errors for bad
    /// input and for an encoder that refused the input's parameters, server
    /// errors otherwise.
    pub open spec fn spec_status_code(&self) -> u16 {
        match self {
            WaveemapiError::InvalidWav(_) => 400,
            WaveemapiError::UnsupportedFormat => 400,
            WaveemapiError::MalformedSample(_) => 400,
            WaveemapiError::BuildFailure(_) => 400,
            _ => 500,
        }
    }

    /// The HTTP status the failure is answered with.
    pub fn status_code(&self) -> (r: u16)
        ensures
            r == self.spec_status_code(),
    {
        match self {
            WaveemapiError::InvalidWav(_) => 400,
            WaveemapiError::UnsupportedFormat => 400,
            WaveemapiError::MalformedSample(_) => 400,
            WaveemapiError::BuildFailure(_) => 400,
            _ => 500,
        }
    }

    /// The message shown to the client for the failure.
    pub fn message(&self) -> (r: String)
        ensures
            r@ == (match self {
                WaveemapiError::InvalidWav(_) => "Invalid WAV file"@,
                WaveemapiError::UnsupportedFormat => "Invalid WAV file"@,
                WaveemapiError::MalformedSample(_) => "Invalid WAV file"@,
                WaveemapiError::BuildFailure(_) => "Failed to build encoder"@,
                WaveemapiError::EncodeFailure(_) => "Failed to encode MP3"@,
                WaveemapiError::IoFailure(_) => "Internal server error"@,
                WaveemapiError::DirectoryInvalid => "Internal server error"@,
            }),
    {
        match self {
            WaveemapiError::InvalidWav(_) => "Invalid WAV file".to_string(),
            WaveemapiError::UnsupportedFormat => "Invalid WAV file".to_string(),
            WaveemapiError::MalformedSample(_) => "Invalid WAV file".to_string(),
            WaveemapiError::BuildFailure(_) => "Failed to build encoder".to_string(),
            WaveemapiError::EncodeFailure(_) => "Failed to encode MP3".to_string(),
            WaveemapiError::IoFailure(_) => "Internal server error".to_string(),
            WaveemapiError::DirectoryInvalid => "Internal server error".to_string(),
        }
    }
}

} // verus!
