//! Bounded hardware-acknowledgement polling.
//!
//! An initialization step that waits for the hardware to acknowledge reads a
//! status field once per retry, up to a fixed bound, with a fixed delay
//! between retries. The loop is modelled over the sequence of status values
//! the reads observe: entry `i` of `samples` is what the `i`-th read
//! returned. A source that never reports ready therefore makes the poll fail
//! after exactly `bound` iterations.
use vstd::prelude::*;
use crate::bits::{BitField, spec_get, read_field};

verus! {

/// Result of a bounded poll: whether the awaited value was seen, and how many
/// reads were made.
#[derive(Clone, Copy, PartialEq, Eq, Structural, Debug)]
pub struct PollOutcome {
    pub ready: bool,
    pub iterations: u32,
}

/// Whether the `i`-th status read shows `f == target`. A read past the end of
/// the recorded samples never does.
pub open spec fn sample_ready(samples: Seq<u32>, f: BitField, target: u32, i: int) -> bool {
    0 <= i < samples.len() && spec_get(samples[i], f) == target
}

/// No status read before the `n`-th shows `f == target`.
pub open spec fn none_ready_before(samples: Seq<u32>, f: BitField, target: u32, n: int) -> bool {
    forall|i: int| 0 <= i < n ==> !sample_ready(samples, f, target, i)
}

/// Polls field `f` of the sampled status register until it reads `target`,
/// for at most `bound` reads.
pub fn poll_field(samples: &Vec<u32>, f: BitField, target: u32, bound: u32) -> (r: PollOutcome)
    requires
        f.wf(),
    ensures
        r.ready <==> !none_ready_before(samples@, f, target, bound as int),
        r.ready ==> 1 <= r.iterations <= bound
            && sample_ready(samples@, f, target, r.iterations - 1)
            && none_ready_before(samples@, f, target, r.iterations - 1),
        !r.ready ==> r.iterations == bound,
{
    let mut i: u32 = 0;
    while i < bound
        invariant
            f.wf(),
            i <= bound,
            none_ready_before(samples@, f, target, i as int),
        decreases bound - i,
    {
        if (i as usize) < samples.len() {
            let s = samples[i as usize];
            if read_field(s, f) == target {
                assert(sample_ready(samples@, f, target, i as int));
                return PollOutcome { ready: true, iterations: i + 1 };
            }
        }
        assert(!sample_ready(samples@, f, target, i as int));
        i = i + 1;
    }
    PollOutcome { ready: false, iterations: bound }
}

/// A status source that never reports ready makes the poll fail after exactly
/// the retry bound, never sooner and never later.
pub proof fn lemma_poll_exhausts_bound(
    samples: Seq<u32>,
    f: BitField,
    target: u32,
    bound: u32,
    r: PollOutcome,
)
    requires
        f.wf(),
        none_ready_before(samples, f, target, bound as int),
        r.ready <==> !none_ready_before(samples, f, target, bound as int),
        !r.ready ==> r.iterations == bound,
    ensures
        !r.ready,
        r.iterations == bound,
{
}

} // verus!
