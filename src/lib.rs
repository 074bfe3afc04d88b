//! WAV to MP3 transcoding core: sample-format resolution, canonical sample
//! decoding, block-scheduled streaming MP3 encoding, artifact naming and the
//! expiry-based artifact sweep.

pub mod api;
pub mod auth;
pub mod config;
pub mod encoder;
pub mod error;
pub mod format;
pub mod lame;
pub mod paths;
pub mod pipeline;
pub mod reaper;
pub mod samples;
pub mod schedule;
pub mod wav;
