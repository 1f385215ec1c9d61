//! Frame timing: a fixed-window moving average over measured frame times
//! and the frames-per-second figure derived from the smoothed time.
//! Durations are integer nanoseconds throughout.

use vstd::prelude::*;
use vstd::arithmetic::div_mod::{lemma_div_is_ordered, lemma_div_by_multiple};
use vstd::arithmetic::mul::lemma_mul_inequality;

verus! {

/// Nanoseconds in one second.
pub const NANOS_PER_SEC: u64 = 1_000_000_000;

/// How many of the most recent frame times the smoother keeps.
pub const SMOOTH_WINDOW: usize = 120;

/// Sum of a sequence of durations, as an unbounded integer.
pub open spec fn seq_sum(s: Seq<u64>) -> int
    decreases s.len(),
{
    if s.len() == 0 {
        0
    } else {
        s[0] + seq_sum(s.drop_first())
    }
}

/// Every partial sum of `u64` values is nonnegative and at most
/// `len * u64::MAX`.
pub proof fn lemma_seq_sum_bounds(s: Seq<u64>)
    ensures
        0 <= seq_sum(s) <= s.len() * u64::MAX,
    decreases s.len(),
{
    if s.len() == 0 {
    } else {
        lemma_seq_sum_bounds(s.drop_first());
        lemma_mul_inequality(s.drop_first().len() as int, s.len() as int, u64::MAX as int);
    }
}

/// Appending a sample adds it to the sum.
pub proof fn lemma_seq_sum_push(s: Seq<u64>, x: u64)
    ensures
        seq_sum(s.push(x)) == seq_sum(s) + x,
    decreases s.len(),
{
    if s.len() == 0 {
        assert(s.push(x)[0] == x);
        assert(s.push(x).drop_first() =~= Seq::<u64>::empty());
        assert(seq_sum(Seq::<u64>::empty()) == 0);
    } else {
        assert(s.push(x)[0] == s[0]);
        assert(s.push(x).drop_first() =~= s.drop_first().push(x));
        lemma_seq_sum_push(s.drop_first(), x);
        assert(seq_sum(s.push(x)) == s[0] + seq_sum(s.drop_first().push(x)));
    }
}

/// Moving average over the last `SMOOTH_WINDOW` samples.
///
/// Holds the window of most-recent samples (oldest first) and their running
/// sum; `smooth` pushes a sample, evicts the oldest once the window is full,
/// and returns the integer mean of what the window then holds.
pub struct MovingAverage {
    pub samples: Vec<u64>,
    pub sum: u128,
}

impl MovingAverage {
    /// The running sum matches the window and the window never outgrows
    /// `SMOOTH_WINDOW`.
    pub open spec fn wf(&self) -> bool {
        &&& self.samples@.len() <= SMOOTH_WINDOW
        &&& self.sum == seq_sum(self.samples@)
    }

    pub fn new() -> (m: MovingAverage)
        ensures
            m.wf(),
            m.samples@.len() == 0,
    {
        MovingAverage { samples: Vec::new(), sum: 0 }
    }

    /// The window after absorbing `sample`: the sample is appended and, if
    /// the window was full, the oldest entry leaves.
    pub open spec fn spec_absorbed(&self, sample: u64) -> Seq<u64> {
        if self.samples@.len() < SMOOTH_WINDOW {
            self.samples@.push(sample)
        } else {
            self.samples@.drop_first().push(sample)
        }
    }

    /// Feed one measured frame time; returns the mean of the window with
    /// that sample included (integer division).
    pub fn smooth(&mut self, sample: u64) -> (r: u64)
        requires
            old(self).wf(),
        ensures
            final(self).wf(),
            final(self).samples@ == old(self).spec_absorbed(sample),
            final(self).samples@.len() > 0,
            r == seq_sum(final(self).samples@) / final(self).samples@.len() as int,
    {
        proof {
            lemma_seq_sum_bounds(self.samples@);
        }
        if self.samples.len() == SMOOTH_WINDOW {
            let evicted = self.samples.remove(0);
            proof {
                assert(old(self).samples@[0] == evicted);
                assert(old(self).samples@.drop_first() =~= self.samples@);
                assert(seq_sum(old(self).samples@) == evicted + seq_sum(self.samples@));
                lemma_seq_sum_bounds(self.samples@);
            }
            self.sum = self.sum - (evicted as u128);
        }
        let ghost pre_push = self.samples@;
        let ghost pre_sum = self.sum as int;
        self.samples.push(sample);
        proof {
            lemma_seq_sum_push(pre_push, sample);
            assert(self.samples@ =~= pre_push.push(sample));
            assert(seq_sum(self.samples@) == pre_sum + sample);
            lemma_seq_sum_bounds(self.samples@);
        }
        self.sum = self.sum + (sample as u128);
        let count = self.samples.len();
        let avg: u128 = self.sum / (count as u128);
        proof {
            assert(self.sum == seq_sum(self.samples@));
            lemma_seq_sum_bounds(self.samples@);
            lemma_div_is_ordered(self.sum as int, count as int * u64::MAX as int, count as int);
            lemma_div_by_multiple(u64::MAX as int, count as int);
            assert((u64::MAX as int * count as int) / count as int == u64::MAX as int);
            assert(avg as int == seq_sum(self.samples@) / count as int);
            assert(self.samples@ =~= old(self).spec_absorbed(sample));
        }
        avg as u64
    }

    /// How many samples the window currently holds.
    pub fn len(&self) -> (n: usize)
        ensures
            n == self.samples@.len(),
    {
        self.samples.len()
    }
}

/// Frames per second from a smoothed frame time: the reciprocal in integer
/// nanoseconds, saturated to `u64::MAX` when the frame time is zero.
pub open spec fn fps_spec(smooth_ns: int) -> int {
    if smooth_ns == 0 { u64::MAX as int } else { NANOS_PER_SEC as int / smooth_ns }
}

/// Frames per second for a smoothed frame time.
pub fn fps_of(smooth_ns: u64) -> (r: u64)
    ensures
        r == fps_spec(smooth_ns as int),
{
    if smooth_ns == 0 {
        u64::MAX
    } else {
        NANOS_PER_SEC / smooth_ns
    }
}

} // verus!
