//! A two-stage streaming pipeline: a windowed moving average feeding an
//! outlier detector. Both stages are coroutines in the sense of
//! [`crate::coroutine`]: each `resume` takes one input and always yields, so
//! their result type is [`Never`].
//!
//! Samples are whole numbers and the windowed average is kept as the exact
//! pair `sum / len`, so every contract here is exact rather than within a
//! floating-point tolerance.

use vstd::math::abs;
use vstd::prelude::*;

use crate::coroutine::CoroutineState;
use crate::coroutine::Never;
use crate::ratio::Ratio;

verus! {

/// The sum of a sequence of samples.
pub open spec fn seq_sum(s: Seq<i32>) -> int
    decreases s.len(),
{
    if s.len() == 0 {
        0
    } else {
        s[0] + seq_sum(s.skip(1))
    }
}

/// Appending a sample adds its value to the sum.
pub proof fn lemma_seq_sum_push(s: Seq<i32>, v: i32)
    ensures
        seq_sum(s.push(v)) == seq_sum(s) + v,
    decreases s.len(),
{
    if s.len() == 0 {
        assert(s.push(v).skip(1) =~= Seq::<i32>::empty());
        assert(seq_sum(s.push(v)) == s.push(v)[0] + seq_sum(s.push(v).skip(1)));
    } else {
        assert(s.push(v).skip(1) =~= s.skip(1).push(v));
        lemma_seq_sum_push(s.skip(1), v);
        assert(seq_sum(s.push(v)) == s.push(v)[0] + seq_sum(s.push(v).skip(1)));
        assert(seq_sum(s) == s[0] + seq_sum(s.skip(1)));
    }
}

/// A sum of `len` samples lies between `len` copies of the extreme samples.
pub proof fn lemma_seq_sum_bounds(s: Seq<i32>)
    ensures
        i32::MIN * s.len() <= seq_sum(s) <= i32::MAX * s.len(),
    decreases s.len(),
{
    if s.len() > 0 {
        lemma_seq_sum_bounds(s.skip(1));
        let n = s.len() as int;
        assert(i32::MIN * n == i32::MIN + i32::MIN * (n - 1)) by (nonlinear_arith);
        assert(i32::MAX * n == i32::MAX + i32::MAX * (n - 1)) by (nonlinear_arith);
    }
}

/// The window that a moving-average stage of width `w` retains after seeing
/// the samples `h`: the whole history while it is short, else the `w` most
/// recent samples.
pub open spec fn window_of(h: Seq<i32>, w: int) -> Seq<i32> {
    if h.len() <= w {
        h
    } else {
        h.skip(h.len() - w)
    }
}

/// An exact windowed average: the retained window sums to `sum` and holds
/// `len` samples, so the average is the rational `sum / len`.
#[derive(Debug, Clone, Copy, PartialEq, Eq, Structural)]
pub struct Average {
    pub sum: i128,
    pub len: usize,
}

impl Average {
    /// What every average yielded by the moving-average stage satisfies: at
    /// least one sample, and a sum no larger than `len` extreme samples.
    pub open spec fn wf(self) -> bool {
        &&& self.len >= 1
        &&& i32::MIN * self.len <= self.sum <= i32::MAX * self.len
    }
}

/// The suspended state of the moving-average stage: the retained window, its
/// running sum, and (as ghost bookkeeping) every sample seen so far.
pub struct MovingAverageCoroutine {
    window_size: usize,
    window: Vec<i32>,
    sum: i128,
    history: Ghost<Seq<i32>>,
}

impl MovingAverageCoroutine {
    pub closed spec fn wf(self) -> bool {
        &&& self.window_size >= 1
        &&& self.window@ == window_of(self.history@, self.window_size as int)
        &&& self.sum == seq_sum(self.window@)
    }

    pub closed spec fn spec_window_size(self) -> usize {
        self.window_size
    }

    /// Every sample this stage has been resumed with, oldest first.
    pub closed spec fn spec_history(self) -> Seq<i32> {
        self.history@
    }

    /// Feed one sample and receive the exact average over the `min(k, w)`
    /// most recent samples, where `k` counts all samples seen so far. This
    /// stage never completes.
    pub fn resume(&mut self, value: i32) -> (r: CoroutineState<Average, Never>)
        requires
            old(self).wf(),
        ensures
            final(self).wf(),
            final(self).spec_window_size() == old(self).spec_window_size(),
            final(self).spec_history() == old(self).spec_history().push(value),
            r matches CoroutineState::Yielded(avg) && {
                let h = old(self).spec_history().push(value);
                let w = old(self).spec_window_size() as int;
                &&& avg.wf()
                &&& avg.len == (if h.len() <= w { h.len() as int } else { w })
                &&& avg.sum == seq_sum(window_of(h, w))
            },
    {
        let ghost old_window = self.window@;
        let len_before = self.window.len();
        proof {
            lemma_seq_sum_bounds(self.window@);
            assert(self.sum + value <= i128::MAX && i128::MIN <= self.sum + value)
                by (nonlinear_arith)
                requires
                    i32::MIN * len_before <= self.sum <= i32::MAX * len_before,
                    len_before <= usize::MAX,
                    usize::MAX <= u64::MAX,
                    i32::MIN <= value <= i32::MAX,
            ;
        }
        self.sum = self.sum + value as i128;
        self.window.push(value);
        proof {
            lemma_seq_sum_push(old_window, value);
        }
        if self.window.len() > self.window_size {
            let pushed_len = self.window.len();
            let ghost pushed = self.window@;
            let head = self.window.remove(0);
            proof {
                assert(self.window@ =~= pushed.skip(1));
                assert(seq_sum(pushed) == pushed[0] + seq_sum(pushed.skip(1)));
                lemma_seq_sum_bounds(pushed);
                assert(i128::MIN <= seq_sum(pushed) - head <= i128::MAX)
                    by (nonlinear_arith)
                    requires
                        i32::MIN * pushed.len() <= seq_sum(pushed) <= i32::MAX * pushed.len(),
                        pushed.len() == pushed_len,
                        pushed_len <= usize::MAX,
                        usize::MAX <= u64::MAX,
                        i32::MIN <= head <= i32::MAX,
                ;
            }
            self.sum = self.sum - head as i128;
        }
        proof {
            self.history@ = self.history@.push(value);
            let h = self.history@;
            let w = self.window_size as int;
            assert(self.window@ =~= window_of(h, w));
        }
        let window_len = self.window.len();
        proof {
            lemma_seq_sum_bounds(self.window@);
        }
        let avg = Average { sum: self.sum, len: window_len };
        CoroutineState::Yielded(avg)
    }
}

/// A fresh moving-average stage that retains at most `window_size` samples.
pub fn moving_average_coroutine(window_size: usize) -> (r: MovingAverageCoroutine)
    requires
        window_size >= 1,
    ensures
        r.wf(),
        r.spec_window_size() == window_size,
        r.spec_history() == Seq::<i32>::empty(),
{
    MovingAverageCoroutine {
        window_size,
        window: Vec::new(),
        sum: 0,
        history: Ghost(Seq::empty()),
    }
}

/// The detector's exact criterion: `|value - sum/len| > threshold`, cleared
/// of divisions by multiplying through with `len >= 1` and `den >= 1`.
pub open spec fn is_outlier(value: int, sum: int, len: int, threshold: Ratio) -> bool {
    abs(value * len - sum) * threshold.den > threshold.num * len
}

/// The suspended state of the outlier detector: only its threshold; the stage
/// is memoryless.
pub struct OutlierDetectorCoroutine {
    threshold: Ratio,
}

impl OutlierDetectorCoroutine {
    pub closed spec fn spec_threshold(self) -> Ratio {
        self.threshold
    }

    pub closed spec fn wf(self) -> bool {
        self.threshold.spec_positive()
    }

    /// Feed one `(sample, average)` pair; yields `Some(sample)` exactly when
    /// the sample deviates from the average by more than the threshold. This
    /// stage never completes.
    pub fn resume(&mut self, input: (i32, Average)) -> (r: CoroutineState<Option<i32>, Never>)
        requires
            old(self).wf(),
            input.1.wf(),
        ensures
            *final(self) == *old(self),
            final(self).wf(),
            r == CoroutineState::<Option<i32>, Never>::Yielded(
                if is_outlier(
                    input.0 as int,
                    input.1.sum as int,
                    input.1.len as int,
                    old(self).spec_threshold(),
                ) {
                    Some(input.0)
                } else {
                    None
                },
            ),
    {
        let (value, average) = input;
        let v = value as i128;
        let len = average.len as i128;
        let sum = average.sum;
        proof {
            assert(i128::MIN <= v * len <= i128::MAX && i128::MIN <= v * len - sum <= i128::MAX
                && abs(v * len - sum) <= 0x1_0000_0000i128 * len)
                by (nonlinear_arith)
                requires
                    i32::MIN <= v <= i32::MAX,
                    0 <= len <= u64::MAX,
                    i32::MIN * len <= sum <= i32::MAX * len,
            ;
        }
        let diff = v * len - sum;
        let deviation = if diff < 0 {
            -diff
        } else {
            diff
        };
        proof {
            assert(i128::MIN <= deviation * self.threshold.den <= i128::MAX)
                by (nonlinear_arith)
                requires
                    0 <= deviation <= 0x1_0000_0000i128 * len,
                    0 <= len <= u64::MAX,
                    1 <= self.threshold.den <= i32::MAX,
            ;
            assert(i128::MIN <= (self.threshold.num as i128) * len <= i128::MAX)
                by (nonlinear_arith)
                requires
                    0 <= len <= u64::MAX,
                    i32::MIN <= self.threshold.num <= i32::MAX,
            ;
        }
        let lhs = deviation * (self.threshold.den as i128);
        let rhs = (self.threshold.num as i128) * len;
        let result = if lhs > rhs {
            Some(value)
        } else {
            None
        };
        CoroutineState::Yielded(result)
    }
}

/// A fresh outlier detector with the given positive threshold.
pub fn outlier_detector_coroutine(threshold: Ratio) -> (r: OutlierDetectorCoroutine)
    requires
        threshold.spec_positive(),
    ensures
        r.wf(),
        r.spec_threshold() == threshold,
{
    OutlierDetectorCoroutine { threshold }
}

/// One record the pipeline emits for one input sample: the sample itself, the
/// exact windowed average at that point, and the detector's verdict.
#[derive(Debug, Clone, Copy, PartialEq, Eq)]
pub struct PipelineStep {
    pub value: i32,
    pub average: Average,
    pub outlier: Option<i32>,
}

/// What the pipeline emits for the sample at position `k` of `samples`, given
/// the window width `w` and the detector's `threshold`.
pub open spec fn pipeline_step_spec(samples: Seq<i32>, k: int, w: int, threshold: Ratio) -> PipelineStep {
    let h = samples.take(k + 1);
    let len = if h.len() <= w { h.len() as int } else { w };
    let sum = seq_sum(window_of(h, w));
    PipelineStep {
        value: samples[k],
        average: Average { sum: sum as i128, len: len as usize },
        outlier: if is_outlier(samples[k] as int, sum, len, threshold) {
            Some(samples[k])
        } else {
            None
        },
    }
}

/// Drive the two stages in series over `samples`: for each sample, the
/// moving-average stage is resumed first, and its yield becomes part of the
/// detector's input before the next sample is introduced.
pub fn run_pipeline(samples: &Vec<i32>, window_size: usize, threshold: Ratio) -> (out: Vec<
    PipelineStep,
>)
    requires
        window_size >= 1,
        threshold.spec_positive(),
    ensures
        out@.len() == samples@.len(),
        forall|k: int|
            0 <= k < out@.len() ==> out@[k] == pipeline_step_spec(
                samples@,
                k,
                window_size as int,
                threshold,
            ),
{
    let mut averager = moving_average_coroutine(window_size);
    let mut detector = outlier_detector_coroutine(threshold);
    let mut out: Vec<PipelineStep> = Vec::new();
    let mut i: usize = 0;
    while i < samples.len()
        invariant
            i <= samples@.len(),
            averager.wf(),
            averager.spec_window_size() == window_size,
            averager.spec_history() == samples@.take(i as int),
            detector.wf(),
            detector.spec_threshold() == threshold,
            window_size >= 1,
            threshold.spec_positive(),
            out@.len() == i,
            forall|k: int|
                0 <= k < i ==> out@[k] == pipeline_step_spec(
                    samples@,
                    k,
                    window_size as int,
                    threshold,
                ),
        decreases samples@.len() - i,
    {
        let value = samples[i];
        proof {
            assert(samples@.take(i as int).push(value) =~= samples@.take(i + 1));
        }
        let average = match averager.resume(value) {
            CoroutineState::Yielded(avg) => avg,
            CoroutineState::Completed(_) => {
                // The moving-average stage never completes; if it did, the
                // pipeline would stop here without processing further samples.
                return out;
            },
        };
        let outlier = match detector.resume((value, average)) {
            CoroutineState::Yielded(o) => o,
            CoroutineState::Completed(_) => {
                return out;
            },
        };
        out.push(PipelineStep { value, average, outlier });
        i = i + 1;
    }
    out
}

} // verus!
