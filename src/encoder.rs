//! The streaming MP3 encoder: feeds canonical samples to LAME block by block,
//! in input order, then flushes, collecting every byte LAME emits.
use vstd::prelude::*;
use mp3lame_encoder::{BuildError, EncodeError, Encoder};
use crate::lame::{build_encoder, encode_dual, encode_mono, flush_no_gap, max_required_buffer_size};
use crate::samples::CanonicalSamples;
use crate::schedule::{BLOCK_SIZE, EncoderStep, balanced, block_of, encode_schedule, full_blocks, longest_len, plan, take_block};

verus! {

/// One call made on the LAME encoder, with the samples it was handed.
pub enum Submission {
    /// One block per channel (the right one empty for mono).
    Block(Seq<i32>, Seq<i32>),
    Flush,
}

/// Why encoding stopped, with every call made on the encoder until then.
pub enum EncoderFailure {
    /// LAME could not be configured with the stream's parameters; no call
    /// was made.
    Build(BuildError, Ghost<Seq<Submission>>),
    /// LAME failed on a block or on the flush, the last of the calls
    /// recorded; nothing was submitted after it.
    Encode(EncodeError, Ghost<Seq<Submission>>),
}

/// The call that a step of the schedule makes on samples `left` / `right`.
pub open spec fn submission_of(step: EncoderStep, left: Seq<i32>, right: Seq<i32>, stereo: bool) -> Submission {
    match step {
        EncoderStep::Encode { start, len } => Submission::Block(
            block_of(left, start as int, len as int),
            if stereo { block_of(right, start as int, len as int) } else { Seq::empty() },
        ),
        EncoderStep::Flush => Submission::Flush,
    }
}

/// Every call the encoder makes on these samples, in order.
pub open spec fn planned_submissions(left: Seq<i32>, right: Seq<i32>, stereo: bool) -> Seq<Submission> {
    plan(left.len(), right.len(), stereo).map_values(|st: EncoderStep| submission_of(st, left, right, stereo))
}

/// Channels that differ in length, as an odd stereo stream leaves them, are
/// zero-padded before submission: every stereo block hands the encoder
/// equally many (and at least one) left and right samples, and only the
/// last call flushes.
pub proof fn lemma_stereo_blocks_balanced(left: Seq<i32>, right: Seq<i32>)
    requires
        left.len() == right.len() || left.len() == right.len() + 1,
        left.len() <= usize::MAX,
    ensures
        forall|k: int| 0 <= k < planned_submissions(left, right, true).len() ==>
            match #[trigger] planned_submissions(left, right, true)[k] {
                Submission::Block(l, r) => l.len() == r.len() && l.len() > 0,
                Submission::Flush => k == planned_submissions(left, right, true).len() - 1,
            },
{
    crate::schedule::lemma_blocks_fit(left.len(), right.len(), true);
}

/// The left-channel samples one call hands the encoder.
pub open spec fn left_part(x: Submission) -> Seq<i32> {
    match x {
        Submission::Block(l, _) => l,
        Submission::Flush => Seq::empty(),
    }
}

/// The right-channel samples one call hands the encoder.
pub open spec fn right_part(x: Submission) -> Seq<i32> {
    match x {
        Submission::Block(_, r) => r,
        Submission::Flush => Seq::empty(),
    }
}

/// Everything a sequence of calls hands the encoder on the left channel.
pub open spec fn left_stream(calls: Seq<Submission>) -> Seq<i32> {
    calls.map_values(|x: Submission| left_part(x)).flatten()
}

/// Everything a sequence of calls hands the encoder on the right channel.
pub open spec fn right_stream(calls: Seq<Submission>) -> Seq<i32> {
    calls.map_values(|x: Submission| right_part(x)).flatten()
}

proof fn lemma_streams_push(calls: Seq<Submission>, x: Submission)
    ensures
        left_stream(calls.push(x)) == left_stream(calls) + left_part(x),
        right_stream(calls.push(x)) == right_stream(calls) + right_part(x),
{
    let fl = |y: Submission| left_part(y);
    let fr = |y: Submission| right_part(y);
    assert(calls.push(x).map_values(fl) =~= calls.map_values(fl).push(left_part(x)));
    assert(calls.push(x).map_values(fr) =~= calls.map_values(fr).push(right_part(x)));
    calls.map_values(fl).lemma_flatten_push(left_part(x));
    calls.map_values(fr).lemma_flatten_push(right_part(x));
}

proof fn lemma_block_concat(s: Seq<i32>, a: int, b: int)
    requires
        0 <= a,
        0 <= b,
    ensures
        block_of(s, 0, a) + block_of(s, a, b) == block_of(s, 0, a + b),
{
    assert(block_of(s, 0, a) + block_of(s, a, b) =~= block_of(s, 0, a + b));
}

proof fn lemma_full_prefix(left: Seq<i32>, right: Seq<i32>, stereo: bool, k: nat)
    requires
        balanced(left.len(), right.len(), stereo),
        left.len() <= usize::MAX,
        right.len() <= usize::MAX,
        k <= full_blocks(left.len(), right.len(), stereo),
    ensures
        left_stream(planned_submissions(left, right, stereo).take(k as int)) == block_of(left, 0, k * BLOCK_SIZE),
        right_stream(planned_submissions(left, right, stereo).take(k as int)) == (if stereo {
            block_of(right, 0, k * BLOCK_SIZE)
        } else {
            Seq::<i32>::empty()
        }),
    decreases k,
{
    let planned = planned_submissions(left, right, stereo);
    let p = plan(left.len(), right.len(), stereo);
    crate::schedule::lemma_blocks_fit(left.len(), right.len(), stereo);
    if k == 0 {
        assert(planned.take(0) =~= Seq::<Submission>::empty());
        assert(Seq::<Submission>::empty().map_values(|x: Submission| left_part(x)) =~= Seq::<Seq<i32>>::empty());
        assert(Seq::<Submission>::empty().map_values(|x: Submission| right_part(x)) =~= Seq::<Seq<i32>>::empty());
        assert(block_of(left, 0, 0) =~= Seq::<i32>::empty());
        assert(block_of(right, 0, 0) =~= Seq::<i32>::empty());
    } else {
        let j = (k - 1) as nat;
        lemma_full_prefix(left, right, stereo, j);
        assert(planned.take(k as int) =~= planned.take(j as int).push(planned[j as int]));
        lemma_streams_push(planned.take(j as int), planned[j as int]);
        assert(j < p.len());
        assert(p[j as int] == crate::schedule::full_steps(full_blocks(left.len(), right.len(), stereo))[j as int]);
        assert(j * BLOCK_SIZE + BLOCK_SIZE == k * BLOCK_SIZE) by (nonlinear_arith)
            requires j + 1 == k;
        lemma_block_concat(left, j * BLOCK_SIZE, BLOCK_SIZE as int);
        lemma_block_concat(right, j * BLOCK_SIZE, BLOCK_SIZE as int);
    }
}

/// The blocks submitted for a pair of channels concatenate back to the
/// channels themselves, each extended with zeros to the length of the longer
/// one: no sample is dropped, duplicated or reordered, and the only values
/// not taken from the input are the zero pads of the final block.
pub proof fn lemma_submitted_streams(left: Seq<i32>, right: Seq<i32>, stereo: bool)
    requires
        balanced(left.len(), right.len(), stereo),
        left.len() <= usize::MAX,
        right.len() <= usize::MAX,
    ensures
        left_stream(planned_submissions(left, right, stereo)) == block_of(
            left,
            0,
            longest_len(left.len(), right.len(), stereo) as int,
        ),
        right_stream(planned_submissions(left, right, stereo)) == (if stereo {
            block_of(right, 0, longest_len(left.len(), right.len(), stereo) as int)
        } else {
            Seq::<i32>::empty()
        }),
{
    let planned = planned_submissions(left, right, stereo);
    let p = plan(left.len(), right.len(), stereo);
    let n = full_blocks(left.len(), right.len(), stereo);
    let t = crate::schedule::tail_len(left.len(), right.len(), stereo);
    let lim = crate::schedule::limiting_len(left.len(), right.len(), stereo);
    crate::schedule::lemma_blocks_fit(left.len(), right.len(), stereo);
    lemma_full_prefix(left, right, stereo, n);
    assert(n * BLOCK_SIZE <= lim) by (nonlinear_arith)
        requires n == lim / 1152, BLOCK_SIZE == 1152;
    let mut m: nat = n;
    if t > 0 {
        assert(planned.take(n + 1int) =~= planned.take(n as int).push(planned[n as int]));
        lemma_streams_push(planned.take(n as int), planned[n as int]);
        lemma_block_concat(left, n * BLOCK_SIZE, t);
        lemma_block_concat(right, n * BLOCK_SIZE, t);
        m = n + 1;
    }
    assert(m == p.len() - 1);
    assert(planned =~= planned.take(m as int).push(planned[m as int]));
    lemma_streams_push(planned.take(m as int), planned[m as int]);
    assert(left_part(Submission::Flush) =~= Seq::<i32>::empty());
    assert(right_part(Submission::Flush) =~= Seq::<i32>::empty());
    if t <= 0 {
        assert(n * BLOCK_SIZE == longest_len(left.len(), right.len(), stereo));
    }
}

/// An encoded MP3 stream and the record of how it was produced.
pub struct Mp3Output {
    /// The MP3 bytes, in the order LAME emitted them.
    pub bytes: Vec<u8>,
    /// Every call made on the encoder, in order.
    pub submissions: Ghost<Seq<Submission>>,
    /// What each of those calls emitted.
    pub emitted: Ghost<Seq<Seq<u8>>>,
}

/// A stream stopped by a failing call: the calls made are a non-empty
/// prefix of the plan, ending with the one that failed, so no later block and
/// no flush after it was submitted.
pub open spec fn stopped_early(calls: Seq<Submission>, planned: Seq<Submission>) -> bool {
    0 < calls.len() <= planned.len() && calls == planned.take(calls.len() as int)
}

/// Runs the schedule for `samples` on a configured encoder.
fn stream_blocks(enc: &mut Encoder, samples: &CanonicalSamples) -> (r: Result<Mp3Output, (EncodeError, Ghost<Seq<Submission>>)>)
    requires
        samples.wf(),
    ensures
        r matches Ok(o) ==> {
            &&& o.submissions@ == planned_submissions(samples.left@, samples.right@, samples.stereo)
            &&& o.emitted@.len() == o.submissions@.len()
            &&& o.bytes@ == o.emitted@.flatten()
        },
        r matches Err((_, calls)) ==> stopped_early(calls@, planned_submissions(samples.left@, samples.right@, samples.stereo)),
{
    let stereo = samples.stereo;
    let left_len = samples.left.len();
    let right_len = samples.right.len();
    let steps = encode_schedule(left_len, right_len, stereo);
    let ghost planned = planned_submissions(samples.left@, samples.right@, stereo);
    let mut bytes: Vec<u8> = Vec::new();
    let ghost mut subs: Seq<Submission> = Seq::empty();
    let ghost mut emitted: Seq<Seq<u8>> = Seq::empty();
    let mut i: usize = 0;
    while i < steps.len()
        invariant
            stereo == samples.stereo,
            samples.wf(),
            samples.left@.len() == left_len,
            samples.right@.len() == right_len,
            steps@ == plan(samples.left@.len(), samples.right@.len(), stereo),
            planned == planned_submissions(samples.left@, samples.right@, stereo),
            i <= steps@.len(),
            subs == planned.take(i as int),
            emitted.len() == i,
            bytes@ == emitted.flatten(),
        decreases steps@.len() - i,
    {
        let step = steps[i];
        proof {
            crate::schedule::lemma_blocks_fit(samples.left@.len(), samples.right@.len(), stereo);
            assert(steps@[i as int] == step);
        }
        let mut chunk: Vec<u8>;
        let outcome = match step {
            EncoderStep::Encode { start, len } => {
                let left = take_block(&samples.left, start, len);
                chunk = Vec::with_capacity(max_required_buffer_size(len));
                if stereo {
                    let right = take_block(&samples.right, start, len);
                    encode_dual(enc, left.as_slice(), right.as_slice(), &mut chunk)
                } else {
                    encode_mono(enc, left.as_slice(), &mut chunk)
                }
            },
            EncoderStep::Flush => {
                chunk = Vec::with_capacity(max_required_buffer_size(0));
                flush_no_gap(enc, &mut chunk)
            },
        };
        proof {
            subs = subs.push(submission_of(step, samples.left@, samples.right@, stereo));
            assert(subs =~= planned.take(i + 1));
        }
        if let Err(e) = outcome {
            return Err((e, Ghost(subs)));
        }
        proof {
            emitted.lemma_flatten_push(chunk@);
            emitted = emitted.push(chunk@);
        }
        bytes.append(&mut chunk);
        i = i + 1;
    }
    assert(planned.take(i as int) =~= planned);
    Ok(Mp3Output { bytes, submissions: Ghost(subs), emitted: Ghost(emitted) })
}


/// Encodes canonical samples to MP3 at the given sample rate: builds a LAME
/// encoder for the samples' channel count (a `Build` failure if LAME refuses),
/// hands it the planned blocks in input order and then flushes it, stopping
/// at the first `Encode` failure, whose error it returns without retrying.
/// On success every planned call was made, in order, and the bytes are what
/// those calls emitted, concatenated in order.
pub fn encode(samples: &CanonicalSamples, sample_rate: u32) -> (r: Result<Mp3Output, EncoderFailure>)
    requires
        samples.wf(),
    ensures
        r matches Ok(o) ==> {
            &&& o.submissions@ == planned_submissions(samples.left@, samples.right@, samples.stereo)
            &&& o.emitted@.len() == o.submissions@.len()
            &&& o.bytes@ == o.emitted@.flatten()
        },
        r matches Err(EncoderFailure::Build(_, calls)) ==> calls@.len() == 0,
        r matches Err(EncoderFailure::Encode(_, calls)) ==> stopped_early(
            calls@,
            planned_submissions(samples.left@, samples.right@, samples.stereo),
        ),
{
    let channels: u8 = if samples.stereo { 2 } else { 1 };
    let mut enc = match build_encoder(channels, sample_rate) {
        Ok(e) => e,
        Err(e) => return Err(EncoderFailure::Build(e, Ghost(Seq::empty()))),
    };
    match stream_blocks(&mut enc, samples) {
        Ok(o) => Ok(o),
        Err((e, calls)) => Err(EncoderFailure::Encode(e, calls)),
    }
}

} // verus!
