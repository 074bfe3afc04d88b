//! Canonical samples: per-channel fixed-point sequences, deinterleaved from
//! the raw sample stream of a WAV body.
use vstd::prelude::*;
use crate::format::{SampleKind, WavFormat, canonical_value, raw_min, raw_max, raw_in_range, to_canonical};

verus! {

/// Decoded audio, one sequence per channel. For mono input `right` is empty;
/// for stereo input `left` holds the samples at even stream positions and
/// `right` those at odd ones.
pub struct CanonicalSamples {
    pub left: Vec<i32>,
    pub right: Vec<i32>,
    pub stereo: bool,
}

impl CanonicalSamples {
    /// Channel balance: mono has no right channel; stereo channels differ in
    /// length by at most one, the left one being the longer.
    pub open spec fn wf(&self) -> bool {
        if self.stereo {
            self.left@.len() == self.right@.len() || self.left@.len() == self.right@.len() + 1
        } else {
            self.right@.len() == 0
        }
    }
}

/// The samples of the left channel: every one for mono, the even positions
/// for stereo.
pub open spec fn left_of(raw: Seq<i32>, stereo: bool) -> Seq<i32> {
    if stereo {
        Seq::new(((raw.len() + 1) / 2) as nat, |i: int| raw[2 * i])
    } else {
        raw
    }
}

/// The samples of the right channel: the odd positions for stereo, none for
/// mono.
pub open spec fn right_of(raw: Seq<i32>, stereo: bool) -> Seq<i32> {
    if stereo {
        Seq::new((raw.len() / 2) as nat, |i: int| raw[2 * i + 1])
    } else {
        Seq::empty()
    }
}

/// Deinterleaving a stereo stream of `n` samples loses and duplicates
/// nothing: the channels hold `n` samples together, equally many when `n` is
/// even, the left one a single sample more when `n` is odd.
pub proof fn lemma_stereo_split_lengths(raw: Seq<i32>)
    ensures
        left_of(raw, true).len() + right_of(raw, true).len() == raw.len(),
        raw.len() % 2 == 0 ==> left_of(raw, true).len() == right_of(raw, true).len(),
        raw.len() % 2 == 1 ==> left_of(raw, true).len() == right_of(raw, true).len() + 1,
{
}

/// Every raw sample lies within the range of its stored width.
pub open spec fn all_in_range(kind: SampleKind, raw: Seq<i32>) -> bool {
    forall|i: int| 0 <= i < raw.len() ==> raw_min(kind) <= #[trigger] raw[i] <= raw_max(kind)
}

/// The raw stream scaled onto canonical fixed point.
pub open spec fn scaled(kind: SampleKind, raw: Seq<i32>) -> Seq<i32> {
    Seq::new(raw.len(), |i: int| canonical_value(kind, raw[i] as int) as i32)
}

/// Deinterleaves a raw sample stream of the given format and scales every
/// sample onto canonical fixed point. Fails exactly when some sample lies
/// outside the range its bit depth allows.
pub fn canonicalize(format: &WavFormat, raw: &Vec<i32>) -> (r: Option<CanonicalSamples>)
    requires
        format.wf(),
    ensures
        r is Some <==> all_in_range(format.kind, raw@),
        r matches Some(s) ==> {
            &&& s.wf()
            &&& s.stereo == format.is_stereo()
            &&& s.left@ == left_of(scaled(format.kind, raw@), format.is_stereo())
            &&& s.right@ == right_of(scaled(format.kind, raw@), format.is_stereo())
        },
{
    let stereo = format.channels == 2;
    let kind = format.kind;
    let mut left: Vec<i32> = Vec::new();
    let mut right: Vec<i32> = Vec::new();
    let ghost sc = scaled(kind, raw@);
    let mut idx: usize = 0;
    while idx < raw.len()
        invariant
            idx <= raw@.len(),
            kind == format.kind,
            stereo == format.is_stereo(),
            sc == scaled(kind, raw@),
            all_in_range(kind, raw@.subrange(0, idx as int)),
            left@ == left_of(sc.subrange(0, idx as int), stereo),
            right@ == right_of(sc.subrange(0, idx as int), stereo),
        decreases raw@.len() - idx,
    {
        let v = raw[idx];
        if !raw_in_range(kind, v) {
            proof {
                let j = idx as int;
                assert(raw@[j] == v);
                assert(!(raw_min(kind) <= raw@[j] <= raw_max(kind)));

            }
            return None;
        }
        let c = to_canonical(kind, v);
        let ghost before = sc.subrange(0, idx as int);
        let ghost after = sc.subrange(0, idx + 1);
        assert(after == before.push(c));
        if !stereo || idx % 2 == 0 {
            left.push(c);
        } else {
            right.push(c);
        }
        proof {
            assert(left@ =~= left_of(after, stereo));
            assert(right@ =~= right_of(after, stereo));
            assert(all_in_range(kind, raw@.subrange(0, idx + 1))) by {
                assert forall|i: int| 0 <= i < idx + 1 implies raw_min(kind) <= #[trigger] raw@.subrange(0, idx + 1)[i] <= raw_max(kind) by {
                    if i < idx {
                        assert(raw@.subrange(0, idx + 1)[i] == raw@.subrange(0, idx as int)[i]);
                    }
                }
            }
        }
        idx = idx + 1;
    }
    assert(sc.subrange(0, idx as int) =~= sc);
    assert(raw@.subrange(0, idx as int) =~= raw@);
    Some(CanonicalSamples { left, right, stereo })
}

} // verus!
