//! The order in which canonical samples reach the MP3 encoder: consecutive
//! full blocks, then at most one zero-padded trailing block, then the flush.
use vstd::prelude::*;

verus! {

/// Samples per channel in one MP3 frame, and so in one encoder call.
pub const BLOCK_SIZE: usize = 1152;

/// One call the streaming encoder makes.
#[derive(Clone, Copy, Debug, PartialEq, Eq, Structural)]
pub enum EncoderStep {
    /// Encode `len` samples per channel starting at sample `start`; positions
    /// past the end of a channel are submitted as zeros.
    Encode { start: usize, len: usize },
    /// Emit whatever the encoder still buffers.
    Flush,
}

/// Length of the channel(s) that limits the full blocks.
pub open spec fn limiting_len(left_len: nat, right_len: nat, stereo: bool) -> nat {
    if stereo && right_len < left_len {
        right_len
    } else {
        left_len
    }
}

/// Length of the longest channel.
pub open spec fn longest_len(left_len: nat, right_len: nat, stereo: bool) -> nat {
    if stereo && left_len < right_len {
        right_len
    } else {
        left_len
    }
}

/// How many full blocks precede the trailing one.
pub open spec fn full_blocks(left_len: nat, right_len: nat, stereo: bool) -> nat {
    limiting_len(left_len, right_len, stereo) / (BLOCK_SIZE as nat)
}

/// Samples per channel left after the full blocks, before padding.
pub open spec fn tail_len(left_len: nat, right_len: nat, stereo: bool) -> int {
    longest_len(left_len, right_len, stereo) - full_blocks(left_len, right_len, stereo) * BLOCK_SIZE
}

/// The full blocks, in input order.
pub open spec fn full_steps(n: nat) -> Seq<EncoderStep> {
    Seq::new(n, |k: int| EncoderStep::Encode { start: (k * BLOCK_SIZE) as usize, len: BLOCK_SIZE })
}

/// Every call the encoder makes for channels of these lengths: the full
/// blocks, the trailing block when samples remain, and the flush.
pub open spec fn plan(left_len: nat, right_len: nat, stereo: bool) -> Seq<EncoderStep> {
    let n = full_blocks(left_len, right_len, stereo);
    let t = tail_len(left_len, right_len, stereo);
    let tail = if t > 0 {
        seq![EncoderStep::Encode { start: (n * BLOCK_SIZE) as usize, len: t as usize }]
    } else {
        Seq::empty()
    };
    full_steps(n) + tail + seq![EncoderStep::Flush]
}

/// The samples of one block of a channel: `len` samples from `start`, the
/// positions past the channel's end filled with zeros.
pub open spec fn block_of(s: Seq<i32>, start: int, len: int) -> Seq<i32> {
    Seq::new(len as nat, |i: int| if start + i < s.len() { s[start + i] } else { 0i32 })
}

/// Channel lengths that deinterleaving can produce: stereo channels differ
/// by at most one sample, the left one being the longer.
pub open spec fn balanced(left_len: nat, right_len: nat, stereo: bool) -> bool {
    stereo ==> (left_len == right_len || left_len == right_len + 1)
}

/// The shape of every plan: blocks at consecutive frame offsets in input
/// order, each at most a frame long and only the last one possibly shorter,
/// then exactly one flush, always, as the final call.
pub proof fn lemma_blocks_fit(left_len: nat, right_len: nat, stereo: bool)
    requires
        balanced(left_len, right_len, stereo),
        left_len <= usize::MAX,
        right_len <= usize::MAX,
    ensures
        plan(left_len, right_len, stereo).len() >= 1,
        plan(left_len, right_len, stereo).last() == EncoderStep::Flush,
        forall|k: int| 0 <= k < plan(left_len, right_len, stereo).len() ==>
            match #[trigger] plan(left_len, right_len, stereo)[k] {
                EncoderStep::Encode { start, len } => {
                    &&& 0 < len <= BLOCK_SIZE
                    &&& start == k * BLOCK_SIZE
                    &&& len < BLOCK_SIZE ==> k == plan(left_len, right_len, stereo).len() - 2
                },
                EncoderStep::Flush => k == plan(left_len, right_len, stereo).len() - 1,
            },
{
    let n = full_blocks(left_len, right_len, stereo);
    let t = tail_len(left_len, right_len, stereo);
    let lim = limiting_len(left_len, right_len, stereo);
    assert(lim - n * BLOCK_SIZE < BLOCK_SIZE) by (nonlinear_arith)
        requires n == lim / 1152, BLOCK_SIZE == 1152;
    assert(t <= BLOCK_SIZE);
    assert(n * BLOCK_SIZE <= lim) by (nonlinear_arith)
        requires n == lim / 1152, BLOCK_SIZE == 1152;
    let p = plan(left_len, right_len, stereo);
    assert forall|k: int| 0 <= k < p.len() implies
        match #[trigger] p[k] {
            EncoderStep::Encode { start, len } => {
                &&& 0 < len <= BLOCK_SIZE
                &&& start == k * BLOCK_SIZE
                &&& len < BLOCK_SIZE ==> k == p.len() - 2
            },
            EncoderStep::Flush => k == p.len() - 1,
        } by {
        if k < n {
            assert(0 <= k * BLOCK_SIZE < n * BLOCK_SIZE) by (nonlinear_arith)
                requires 0 <= k < n, BLOCK_SIZE == 1152;
            assert(p[k] == full_steps(n)[k]);
        }
    }
}

/// The calls the encoder makes for channels of these lengths, in order.
pub fn encode_schedule(left_len: usize, right_len: usize, stereo: bool) -> (r: Vec<EncoderStep>)
    ensures
        r@ == plan(left_len as nat, right_len as nat, stereo),
{
    let limit = if stereo && right_len < left_len {
        right_len
    } else {
        left_len
    };
    let longest = if stereo && left_len < right_len {
        right_len
    } else {
        left_len
    };
    let n = limit / BLOCK_SIZE;
    let mut steps: Vec<EncoderStep> = Vec::new();
    let mut k: usize = 0;
    while k < n
        invariant
            n == full_blocks(left_len as nat, right_len as nat, stereo),
            k <= n,
            n * BLOCK_SIZE <= limit,
            steps@ == full_steps(k as nat),
        decreases n - k,
    {
        proof {
            assert(k * BLOCK_SIZE < n * BLOCK_SIZE) by (nonlinear_arith)
                requires k < n;
        }
        steps.push(EncoderStep::Encode { start: k * BLOCK_SIZE, len: BLOCK_SIZE });
        assert(steps@ =~= full_steps((k + 1) as nat));
        k = k + 1;
    }
    let consumed = n * BLOCK_SIZE;
    let t = longest - consumed;
    if t > 0 {
        steps.push(EncoderStep::Encode { start: consumed, len: t });
    }
    steps.push(EncoderStep::Flush);
    assert(steps@ =~= plan(left_len as nat, right_len as nat, stereo));
    steps
}

/// One block of a channel, zero-padded past its end.
pub fn take_block(s: &Vec<i32>, start: usize, len: usize) -> (r: Vec<i32>)
    ensures
        r@ == block_of(s@, start as int, len as int),
{
    let mut out: Vec<i32> = Vec::new();
    let mut i: usize = 0;
    while i < len
        invariant
            i <= len,
            out@ == block_of(s@, start as int, i as int),
        decreases len - i,
    {
        let v = if start < s.len() && i < s.len() - start {
            s[start + i]
        } else {
            0i32
        };
        out.push(v);
        assert(out@ =~= block_of(s@, start as int, i + 1));
        i = i + 1;
    }
    out
}

} // verus!
