//! The sample accumulator: an append-only buffer of raw 32-bit sample
//! words filled once per delivered audio buffer, with a continuity
//! check on buffer boundaries.
//!
//! A sample arrives as two plain values: the raw 32-bit word exactly
//! as delivered (what the buffer stores and what is later written
//! out), and a fixed-point level in hundred-thousandths of full scale
//! (what the continuity check compares).  The check warns when the
//! jump from the last retained sample to the first sample of a new
//! buffer exceeds 1.01 times the expected per-sample step; the warning
//! is diagnostic only and never halts capture.  The buffer has an
//! enforced capacity: a delivery that would exceed it is refused whole.

use vstd::math::abs;
use vstd::prelude::*;

verus! {

/// One delivered sample: the raw 32-bit word, and its level in
/// hundred-thousandths of full scale for the continuity check.
#[derive(Clone, Copy, Debug, PartialEq, Eq, Structural)]
pub struct Sample {
    pub word: u32,
    pub level: i32,
}

/// Failure of a delivery.
#[derive(Clone, Copy, Debug, PartialEq, Eq, Structural)]
pub enum AccumulatorError {
    /// Appending the delivered samples would exceed the preallocated
    /// capacity; nothing was appended.
    Overflow,
}

/// The raw words of a delivered buffer, in delivery order.
pub open spec fn words_of(samples: Seq<Sample>) -> Seq<u32> {
    samples.map_values(|s: Sample| s.word)
}

/// The boundary between the last retained level and the first level of
/// a new buffer offends when its jump exceeds 1.01 times the expected
/// step.
pub open spec fn boundary_offends(last: int, first: int, step: int) -> bool {
    abs(first - last) * 100 > step * 101
}

/// An append-only buffer of raw sample words with an enforced
/// capacity, plus the continuity state: the last retained level and
/// the expected per-sample step.
pub struct SampleAccumulator {
    buf: Vec<u32>,
    cap: usize,
    channels: usize,
    expected_step: i32,
    last_level: i32,
    warnings: usize,
}

impl SampleAccumulator {
    /// The accumulated raw sample words, in delivery order.
    pub closed spec fn contents(&self) -> Seq<u32> {
        self.buf@
    }

    /// The enforced capacity, in samples.
    pub closed spec fn capacity_spec(&self) -> int {
        self.cap as int
    }

    /// The interleaved channel count.
    pub closed spec fn channels_spec(&self) -> int {
        self.channels as int
    }

    /// The expected per-sample step, in hundred-thousandths of full
    /// scale.
    pub closed spec fn expected_step_spec(&self) -> int {
        self.expected_step as int
    }

    /// The level of the last retained sample.
    pub closed spec fn last_level_spec(&self) -> int {
        self.last_level as int
    }

    /// How many discontinuity warnings have been emitted.
    pub closed spec fn warnings_spec(&self) -> int {
        self.warnings as int
    }

    /// The accumulator never holds more than its capacity, has at
    /// least one channel and a nonnegative expected step, and warns at
    /// most once per delivery, so never more often than it has
    /// accumulated samples.
    pub open spec fn wf(&self) -> bool {
        self.contents().len() <= self.capacity_spec() && self.channels_spec() >= 1
            && self.expected_step_spec() >= 0 && self.warnings_spec() <= self.contents().len()
    }

    /// Creates an empty accumulator with the given capacity (in
    /// samples), channel count and expected per-sample step.  The
    /// retained level starts at zero.
    pub fn new(capacity: usize, channels: usize, expected_step: i32) -> (a: Self)
        requires
            channels >= 1,
            expected_step >= 0,
        ensures
            a.wf(),
            a.contents() == Seq::<u32>::empty(),
            a.capacity_spec() == capacity as int,
            a.channels_spec() == channels as int,
            a.expected_step_spec() == expected_step as int,
            a.last_level_spec() == 0,
            a.warnings_spec() == 0,
    {
        SampleAccumulator {
            buf: Vec::with_capacity(capacity),
            cap: capacity,
            channels,
            expected_step,
            last_level: 0,
            warnings: 0,
        }
    }

    /// The number of samples accumulated so far.
    pub fn len(&self) -> (n: usize)
        ensures
            n == self.contents().len(),
    {
        self.buf.len()
    }

    /// How many discontinuity warnings have been emitted so far.
    pub fn warning_count(&self) -> (n: usize)
        ensures
            n == self.warnings_spec(),
    {
        self.warnings
    }

    /// Borrows the accumulated raw sample words.
    pub fn words(&self) -> (w: &Vec<u32>)
        ensures
            w@ == self.contents(),
    {
        &self.buf
    }

    /// Hands the accumulated raw sample words out, consuming the
    /// accumulator: the buffer is finalized exactly once.
    pub fn into_words(self) -> (w: Vec<u32>)
        ensures
            w@ == self.contents(),
    {
        self.buf
    }

    /// One successful delivery: `post` is `pre` with the delivered
    /// words appended, the last sample's level retained, and exactly
    /// one more warning when the boundary offends.
    pub open spec fn delivered(pre: Self, post: Self, samples: Seq<Sample>) -> bool {
        &&& post.contents() == pre.contents() + words_of(samples)
        &&& post.capacity_spec() == pre.capacity_spec()
        &&& post.channels_spec() == pre.channels_spec()
        &&& post.expected_step_spec() == pre.expected_step_spec()
        &&& post.last_level_spec() == samples.last().level as int
        &&& post.warnings_spec() == pre.warnings_spec() + (if boundary_offends(
            pre.last_level_spec(),
            samples[0].level as int,
            pre.expected_step_spec(),
        ) {
            1int
        } else {
            0int
        })
    }

    /// Accepts one delivered buffer of `frame_count` frames of
    /// interleaved samples.  Succeeds, appending every delivered word
    /// in order and warning exactly once when the boundary offends,
    /// unless the delivery would exceed the capacity, in which case
    /// nothing changes.
    pub fn on_samples(&mut self, frame_count: usize, samples: &Vec<Sample>) -> (r: Result<
        usize,
        AccumulatorError,
    >)
        requires
            old(self).wf(),
            frame_count >= 1,
            samples@.len() == frame_count * old(self).channels_spec(),
        ensures
            final(self).wf(),
            if old(self).contents().len() + samples@.len() > old(self).capacity_spec() {
                r == Err::<usize, AccumulatorError>(AccumulatorError::Overflow) && *final(self)
                    == *old(self)
            } else {
                r == Ok::<usize, AccumulatorError>(frame_count) && Self::delivered(*old(self), *final(self), samples@)
            },
    {
        proof {
            let ch = old(self).channels_spec();
            assert(samples@.len() >= 1) by (nonlinear_arith)
                requires
                    samples@.len() == frame_count * ch,
                    frame_count >= 1,
                    ch >= 1,
            ;
        }
        if samples.len() > self.cap - self.buf.len() {
            return Err(AccumulatorError::Overflow);
        }
        let n = samples.len();
        let mut k: usize = 0;
        while k < n
            invariant
                k <= n,
                n == samples@.len(),
                self.buf@.len() == old(self).contents().len() + k,
                self.buf@ =~= old(self).contents() + words_of(samples@.take(k as int)),
                self.cap == old(self).cap,
                old(self).contents().len() + n <= self.cap,
                self.channels == old(self).channels,
                self.expected_step == old(self).expected_step,
                self.last_level == old(self).last_level,
                self.warnings == old(self).warnings,
            decreases n - k,
        {
            self.buf.push(samples[k].word);
            proof {
                assert(samples@.take(k + 1).drop_last() =~= samples@.take(k as int));
                assert(words_of(samples@.take(k + 1)) =~= words_of(samples@.take(k as int)).push(
                    samples@[k as int].word,
                ));
            }
            k += 1;
        }
        proof {
            assert(samples@.take(n as int) =~= samples@);
        }
        let first: i64 = samples[0].level as i64;
        let last_retained: i64 = self.last_level as i64;
        let diff: i64 = first - last_retained;
        let magnitude: i64 = if diff < 0 {
            -diff
        } else {
            diff
        };
        assert(magnitude as int == abs(first as int - last_retained as int));
        if magnitude * 100 > (self.expected_step as i64) * 101 {
            self.warnings = self.warnings + 1;
        }
        self.last_level = samples[n - 1].level;
        Ok(frame_count)
    }
}

/// A run of successful deliveries taking the accumulator from `pre`
/// to `post`, one `delivered` step per buffer, in order.
pub open spec fn deliveries_ok(
    pre: SampleAccumulator,
    post: SampleAccumulator,
    ds: Seq<Seq<Sample>>,
) -> bool
    decreases ds.len(),
{
    if ds.len() == 0 {
        post == pre
    } else {
        exists|mid: SampleAccumulator|
            #[trigger] SampleAccumulator::delivered(pre, mid, ds[0]) && deliveries_ok(
                mid,
                post,
                ds.drop_first(),
            )
    }
}

/// How many buffer boundaries of a run offend: the first boundary is
/// against `last`, each later one against the final level of the
/// previous buffer.
pub open spec fn offending_boundaries(last: int, step: int, ds: Seq<Seq<Sample>>) -> int
    decreases ds.len(),
{
    if ds.len() == 0 {
        0
    } else {
        (if boundary_offends(last, ds[0][0].level as int, step) {
            1int
        } else {
            0int
        }) + offending_boundaries(ds[0].last().level as int, step, ds.drop_first())
    }
}

/// Law: over any run of successful deliveries of nonempty buffers,
/// the warning count grows by exactly one per offending boundary: a
/// run whose boundary jumps all stay within 1.01 times the expected
/// step warns never, and each boundary that exceeds it warns exactly
/// once.
pub proof fn lemma_one_warning_per_offending_boundary(
    pre: SampleAccumulator,
    post: SampleAccumulator,
    ds: Seq<Seq<Sample>>,
)
    requires
        deliveries_ok(pre, post, ds),
        forall|i: int| 0 <= i < ds.len() ==> #[trigger] ds[i].len() >= 1,
    ensures
        post.warnings_spec() == pre.warnings_spec() + offending_boundaries(
            pre.last_level_spec(),
            pre.expected_step_spec(),
            ds,
        ),
    decreases ds.len(),
{
    if ds.len() > 0 {
        let mid = choose|mid: SampleAccumulator|
            #[trigger] SampleAccumulator::delivered(pre, mid, ds[0]) && deliveries_ok(
                mid,
                post,
                ds.drop_first(),
            );
        assert(forall|i: int| 0 <= i < ds.drop_first().len() ==> #[trigger] ds.drop_first()[i].len() >= 1);
        lemma_one_warning_per_offending_boundary(mid, post, ds.drop_first());
    }
}

/// Law: delivering two buffers in order accumulates their words in
/// order: the final contents are the initial contents followed by the
/// first buffer's words and then the second's, and the length grows by
/// the total frame count times the channel count.
pub proof fn lemma_accumulation_in_order(
    a: SampleAccumulator,
    b: SampleAccumulator,
    c: SampleAccumulator,
    s1: Seq<Sample>,
    s2: Seq<Sample>,
    f1: int,
    f2: int,
)
    requires
        SampleAccumulator::delivered(a, b, s1),
        SampleAccumulator::delivered(b, c, s2),
        s1.len() == f1 * a.channels_spec(),
        s2.len() == f2 * b.channels_spec(),
    ensures
        c.contents() =~= a.contents() + words_of(s1) + words_of(s2),
        c.contents().len() == a.contents().len() + (f1 + f2) * a.channels_spec(),
{
    assert(c.contents() =~= a.contents() + words_of(s1) + words_of(s2));
    assert((f1 + f2) * a.channels_spec() == f1 * a.channels_spec() + f2 * a.channels_spec())
        by (nonlinear_arith);
}

} // verus!
