//! The LAME MP3 encoder of the `mp3lame-encoder` crate, as the library uses it.
use vstd::prelude::*;
use mp3lame_encoder::{Bitrate, BuildError, Builder, DualPcm, EncodeError, Encoder, FlushNoGap, MonoPcm, Quality};

verus! {

#[verifier::external_type_specification]
#[verifier::external_body]
pub struct ExBuilder(Builder);

#[verifier::external_type_specification]
#[verifier::external_body]
pub struct ExEncoder(Encoder);

#[verifier::external_type_specification]
pub struct ExBuildError(BuildError);

#[verifier::external_type_specification]
pub struct ExEncodeError(EncodeError);

#[verifier::external_type_specification]
pub struct ExBitrate(Bitrate);

#[verifier::external_type_specification]
pub struct ExQuality(Quality);

/// `Builder::new`: a fresh LAME configuration, `None` when LAME cannot
/// allocate one.
pub assume_specification[ Builder::new ]() -> Option<Builder>;

/// `Builder::set_num_channels`: sets the input channel count.
pub assume_specification[ Builder::set_num_channels ](b: &mut Builder, num: u8) -> Result<(), BuildError>;

/// `Builder::set_sample_rate`: sets the input sample rate.
pub assume_specification[ Builder::set_sample_rate ](b: &mut Builder, rate: u32) -> Result<(), BuildError>;

/// `Builder::set_brate`: sets the constant bitrate.
pub assume_specification[ Builder::set_brate ](b: &mut Builder, brate: Bitrate) -> Result<(), BuildError>;

/// `Builder::set_quality`: sets the algorithm quality preset.
pub assume_specification[ Builder::set_quality ](b: &mut Builder, quality: Quality) -> Result<(), BuildError>;

/// `Builder::build`: initialises LAME with the configuration.
pub assume_specification[ Builder::build ](b: Builder) -> Result<Encoder, BuildError>;

/// Relies on `mp3lame_encoder::max_required_buffer_size`: the sample count,
/// plus a quarter of it rounded up, plus 7200 (its body, wrapping only past
/// the bound that `requires` excludes).
#[verifier::external_body]
pub(crate) fn max_required_buffer_size(samples: usize) -> (r: usize)
    requires
        samples <= usize::MAX / 2,
    ensures
        r == samples + (samples + 3) / 4 + 7200,
{
    mp3lame_encoder::max_required_buffer_size(samples)
}

/// Relies on `Encoder::encode_to_vec` with a `MonoPcm` of `i32`
/// (`lame_encode_buffer_int`): on success the bytes written are appended to
/// `out` and counted in the result; on failure the length of `out` is kept,
/// so its contents are unchanged.
#[verifier::external_body]
pub(crate) fn encode_mono(enc: &mut Encoder, pcm: &[i32], out: &mut Vec<u8>) -> (r: Result<usize, EncodeError>)
    ensures
        r matches Ok(n) ==> final(out)@.len() == old(out)@.len() + n
            && final(out)@.subrange(0, old(out)@.len() as int) == old(out)@,
        r is Err ==> final(out)@ == old(out)@,
{
    enc.encode_to_vec(MonoPcm(pcm), out)
}

/// Relies on `Encoder::encode_to_vec` with a `DualPcm` of `i32`
/// (`lame_encode_buffer_int`), whose channels must have equal lengths (it
/// asserts so in debug builds): on success the bytes written are appended to
/// `out` and counted in the result; on failure `out` is unchanged.
#[verifier::external_body]
pub(crate) fn encode_dual(enc: &mut Encoder, left: &[i32], right: &[i32], out: &mut Vec<u8>) -> (r: Result<usize, EncodeError>)
    requires
        left@.len() == right@.len(),
    ensures
        r matches Ok(n) ==> final(out)@.len() == old(out)@.len() + n
            && final(out)@.subrange(0, old(out)@.len() as int) == old(out)@,
        r is Err ==> final(out)@ == old(out)@,
{
    enc.encode_to_vec(DualPcm { left, right }, out)
}

/// Relies on `Encoder::flush_to_vec::<FlushNoGap>` (`lame_encode_flush_nogap`):
/// on success the bytes written are appended to `out` and counted in the
/// result; on failure `out` is unchanged.
#[verifier::external_body]
pub(crate) fn flush_no_gap(enc: &mut Encoder, out: &mut Vec<u8>) -> (r: Result<usize, EncodeError>)
    ensures
        r matches Ok(n) ==> final(out)@.len() == old(out)@.len() + n
            && final(out)@.subrange(0, old(out)@.len() as int) == old(out)@,
        r is Err ==> final(out)@ == old(out)@,
{
    enc.flush_to_vec::<FlushNoGap>(out)
}

/// A LAME encoder configured for the given channel count and sample rate at a
/// constant 128 kbps with the `Decent` quality preset.
pub(crate) fn build_encoder(channels: u8, sample_rate: u32) -> (r: Result<Encoder, BuildError>) {
    let mut builder = match Builder::new() {
        Some(b) => b,
        None => return Err(BuildError::Generic),
    };
    builder.set_num_channels(channels)?;
    builder.set_sample_rate(sample_rate)?;
    builder.set_brate(Bitrate::Kbps128)?;
    builder.set_quality(Quality::Decent)?;
    builder.build()
}

} // verus!
