//! Reading WAV streams: the header and the integer sample body are parsed by
//! the `hound` crate over the stream's bytes; validation, deinterleaving and
//! scaling are the library's.
use vstd::prelude::*;
use crate::error::WaveemapiError;
use crate::format::{FormatError, WavFormat, format_of, resolve_format};
use crate::samples::{CanonicalSamples, all_in_range, canonicalize, left_of, right_of, scaled};

verus! {

/// The header fields `hound` reads from a WAV stream (channels, bits per
/// sample, whether samples are IEEE floats, sample rate), or `None` when it
/// refuses the stream.
pub uninterp spec fn wav_header_of(bytes: Seq<u8>) -> Option<(u16, u16, bool, u32)>;

/// The integer samples `hound` reads from a WAV stream's body, in storage
/// order, or `None` when it fails on the header or on some sample.
pub uninterp spec fn wav_int_samples_of(bytes: Seq<u8>) -> Option<Seq<i32>>;

/// Relies on `hound::WavReader::new` over the bytes, and on the `WavSpec`
/// that `spec()` hands back: the header is parsed from the bytes alone.
#[verifier::external_body]
fn read_header(bytes: &Vec<u8>) -> (r: Result<(u16, u16, bool, u32), hound::Error>)
    ensures
        r is Ok <==> wav_header_of(bytes@) is Some,
        r matches Ok(h) ==> wav_header_of(bytes@) == Some(h),
{
    let reader = hound::WavReader::new(std::io::Cursor::new(bytes.as_slice()))?;
    let spec = reader.spec();
    let is_float = match spec.sample_format {
        hound::SampleFormat::Float => true,
        hound::SampleFormat::Int => false,
    };
    Ok((spec.channels, spec.bits_per_sample, is_float, spec.sample_rate))
}

/// Relies on `hound::WavReader::into_samples::<i32>` over the bytes: every
/// sample of the body, in storage order, or the first error met.
#[verifier::external_body]
fn read_int_body(bytes: &Vec<u8>) -> (r: Result<Vec<i32>, hound::Error>)
    ensures
        r is Ok <==> wav_int_samples_of(bytes@) is Some,
        r matches Ok(v) ==> wav_int_samples_of(bytes@) == Some(v@),
{
    let reader = hound::WavReader::new(std::io::Cursor::new(bytes.as_slice()))?;
    reader.into_samples::<i32>().collect()
}

/// Reads and validates the header of a WAV stream, before any sample. Fails
/// with `InvalidWav` when the stream has no readable header, and with
/// `UnsupportedFormat` exactly when the header's channel count or bit depth /
/// sample format is not handled.
pub fn read_format(bytes: &Vec<u8>) -> (r: Result<WavFormat, WaveemapiError>)
    ensures
        match wav_header_of(bytes@) {
            None => r is Err && r->Err_0 is InvalidWav,
            Some((c, b, f, rate)) => match format_of(c, b, f, rate) {
                Ok(fm) => r == Ok::<WavFormat, WaveemapiError>(fm),
                Err(_) => r is Err && r->Err_0 is UnsupportedFormat,
            },
        },
        r matches Ok(fm) ==> fm.wf(),
{
    let (channels, bits, is_float, rate) = match read_header(bytes) {
        Ok(h) => h,
        Err(e) => return Err(WaveemapiError::InvalidWav(e)),
    };
    match resolve_format(channels, bits, is_float, rate) {
        Ok(f) => Ok(f),
        Err(FormatError::UnsupportedFormat) => Err(WaveemapiError::UnsupportedFormat),
    }
}

/// The raw integer samples of a WAV stream whose format has integer samples.
/// Fails with `MalformedSample`, carrying the reader's cause, exactly when
/// some sample cannot be read.
pub fn read_int_samples(bytes: &Vec<u8>) -> (r: Result<Vec<i32>, WaveemapiError>)
    ensures
        match wav_int_samples_of(bytes@) {
            Some(s) => r matches Ok(v) && v@ == s,
            None => r is Err && r->Err_0 is MalformedSample && r->Err_0->MalformedSample_0 is Some,
        },
{
    match read_int_body(bytes) {
        Ok(v) => Ok(v),
        Err(e) => Err(WaveemapiError::MalformedSample(Some(e))),
    }
}

/// Turns a raw sample stream of a validated format into canonical samples:
/// deinterleaved by parity of position for stereo, each scaled onto
/// canonical fixed point. Fails with `MalformedSample` exactly when a sample
/// lies outside the range of its bit depth.
pub fn decode(format: &WavFormat, raw: &Vec<i32>) -> (r: Result<CanonicalSamples, WaveemapiError>)
    requires
        format.wf(),
    ensures
        r is Ok <==> all_in_range(format.kind, raw@),
        r is Err ==> r->Err_0 is MalformedSample,
        r matches Ok(s) ==> {
            &&& s.wf()
            &&& s.stereo == format.is_stereo()
            &&& s.left@ == left_of(scaled(format.kind, raw@), format.is_stereo())
            &&& s.right@ == right_of(scaled(format.kind, raw@), format.is_stereo())
        },
{
    match canonicalize(format, raw) {
        Some(s) => Ok(s),
        None => Err(WaveemapiError::MalformedSample(None)),
    }
}

} // verus!
