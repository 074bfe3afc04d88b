//! The transcoding pipeline: a fresh output path, decoding, then encoding.
use vstd::prelude::*;
use crate::encoder::{
    EncoderFailure, Mp3Output, Submission, encode, left_stream, lemma_stereo_blocks_balanced,
    lemma_submitted_streams, planned_submissions, right_stream,
};
use crate::format::{canonical_value, raw_max, raw_min};
use crate::schedule::block_of;
use crate::error::WaveemapiError;
use crate::format::WavFormat;
use crate::paths::{ArtifactKind, NAME_LEN, allocate, dir_prefix, is_artifact_name};
use crate::samples::{all_in_range, left_of, lemma_stereo_split_lengths, right_of, scaled};
use crate::wav::decode;

verus! {

/// An encoded stream and the path allotted to it.
pub struct Transcoded {
    /// Where the MP3 stream is to be stored: a fresh artifact path.
    pub path: String,
    pub mp3: Mp3Output,
}

/// The encoder calls the pipeline makes for a raw sample stream.
pub open spec fn pipeline_submissions(format: WavFormat, raw: Seq<i32>) -> Seq<Submission> {
    let s = scaled(format.kind, raw);
    planned_submissions(left_of(s, format.is_stereo()), right_of(s, format.is_stereo()), format.is_stereo())
}

/// A stereo stream of `n` interleaved samples splits into channels holding
/// `n` samples together, of equal length when `n` is even and differing by
/// one when it is odd; either way every block the encoder receives holds
/// equally many left and right samples, the shorter channel zero-padded.
pub proof fn lemma_stereo_stream_balanced(format: WavFormat, raw: Seq<i32>)
    requires
        format.is_stereo(),
        raw.len() <= usize::MAX,
    ensures
        ({
            let s = scaled(format.kind, raw);
            &&& left_of(s, true).len() + right_of(s, true).len() == raw.len()
            &&& raw.len() % 2 == 0 ==> left_of(s, true).len() == right_of(s, true).len()
            &&& raw.len() % 2 == 1 ==> left_of(s, true).len() == right_of(s, true).len() + 1
        }),
        forall|k: int| 0 <= k < pipeline_submissions(format, raw).len() ==>
            (#[trigger] pipeline_submissions(format, raw)[k] matches Submission::Block(l, r) ==> l.len() == r.len()),
{
    let s = scaled(format.kind, raw);
    lemma_stereo_split_lengths(s);
    lemma_stereo_blocks_balanced(left_of(s, true), right_of(s, true));
    assert forall|k: int| 0 <= k < pipeline_submissions(format, raw).len() implies
        (#[trigger] pipeline_submissions(format, raw)[k] matches Submission::Block(l, r) ==> l.len() == r.len()) by {
        assert(pipeline_submissions(format, raw)[k] == planned_submissions(left_of(s, true), right_of(s, true), true)[k]);
    }
}

/// For a stream whose samples all lie within their depth, what the encoder
/// receives is the decoded stream itself: on the left channel every sample at
/// an even position (every sample for mono), on the right channel every
/// sample at an odd position followed by a single zero when the stereo
/// stream has odd length; each value is its raw sample times the depth's
/// scale. Nothing is resampled, dropped, duplicated or clipped.
pub proof fn lemma_submitted_samples(format: WavFormat, raw: Seq<i32>)
    requires
        format.wf(),
        all_in_range(format.kind, raw),
        raw.len() <= usize::MAX,
    ensures
        forall|i: int| 0 <= i < raw.len() ==>
            #[trigger] scaled(format.kind, raw)[i] == canonical_value(format.kind, raw[i] as int),
        format.is_stereo() ==> {
            &&& left_stream(pipeline_submissions(format, raw)) == left_of(scaled(format.kind, raw), true)
            &&& right_stream(pipeline_submissions(format, raw)) == right_of(scaled(format.kind, raw), true) + (
            if raw.len() % 2 == 1 {
                seq![0i32]
            } else {
                Seq::<i32>::empty()
            })
        },
        !format.is_stereo() ==> {
            &&& left_stream(pipeline_submissions(format, raw)) == scaled(format.kind, raw)
            &&& right_stream(pipeline_submissions(format, raw)) == Seq::<i32>::empty()
        },
{
    let s = scaled(format.kind, raw);
    assert forall|i: int| 0 <= i < raw.len() implies
        #[trigger] s[i] == canonical_value(format.kind, raw[i] as int) by {
        assert(raw_min(format.kind) <= raw[i] <= raw_max(format.kind));
    }
    let st = format.is_stereo();
    let l = left_of(s, st);
    let r = right_of(s, st);
    if st {
        lemma_stereo_split_lengths(s);
    }
    lemma_submitted_streams(l, r, st);
    assert(block_of(l, 0, l.len() as int) =~= l);
    if st {
        let pad = if raw.len() % 2 == 1 { seq![0i32] } else { Seq::<i32>::empty() };
        assert(block_of(r, 0, l.len() as int) =~= r + pad);
    }
}

/// Transcodes the raw sample stream of a validated WAV format into an MP3
/// stream bound for a fresh path in `data_path`. Fails with
/// `MalformedSample` exactly when a sample lies outside its bit depth;
/// otherwise with `BuildFailure` or `EncodeFailure` when the encoder does. On
/// success the encoder received exactly the planned blocks of the decoded
/// samples, in order, then a flush.
pub fn transcode(format: &WavFormat, raw: &Vec<i32>, data_path: &str) -> (r: Result<Transcoded, WaveemapiError>)
    requires
        format.wf(),
    ensures
        (r is Err && r->Err_0 is MalformedSample) <==> !all_in_range(format.kind, raw@),
        r is Err ==> (r->Err_0 is MalformedSample || r->Err_0 is BuildFailure || r->Err_0 is EncodeFailure),
        r matches Ok(t) ==> {
            &&& all_in_range(format.kind, raw@)
            &&& t.path@.len() == dir_prefix(data_path@).len() + NAME_LEN
            &&& t.path@.subrange(0, dir_prefix(data_path@).len() as int) == dir_prefix(data_path@)
            &&& is_artifact_name(
                t.path@.subrange(dir_prefix(data_path@).len() as int, t.path@.len() as int),
                ArtifactKind::Mp3Output,
            )
            &&& t.mp3.submissions@ == pipeline_submissions(*format, raw@)
            &&& t.mp3.emitted@.len() == t.mp3.submissions@.len()
            &&& t.mp3.bytes@ == t.mp3.emitted@.flatten()
        },
{
    let path = allocate(data_path, ArtifactKind::Mp3Output);
    let samples = decode(format, raw)?;
    match encode(&samples, format.sample_rate) {
        Ok(mp3) => Ok(Transcoded { path, mp3 }),
        Err(EncoderFailure::Build(e, _)) => Err(WaveemapiError::BuildFailure(e)),
        Err(EncoderFailure::Encode(e, _)) => Err(WaveemapiError::EncodeFailure(e)),
    }
}

} // verus!
