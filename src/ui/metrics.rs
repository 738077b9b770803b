//! Frame-time statistics over a sliding window of recent frames.
//!
//! Frame times are whole microseconds; rates are fixed-point frames per
//! second. Reading the clock is left to the caller.
use vstd::prelude::*;
use std::collections::VecDeque;

use crate::fixed::ONE;

verus! {

/// Microseconds in one second.
pub const MICROS_PER_SECOND: u64 = 1_000_000;

/// Window length of the default tracker.
pub const DEFAULT_MAX_SAMPLES: usize = 100;

/// Sum of a sequence of frame times.
pub open spec fn seq_sum(s: Seq<u64>) -> int
    decreases s.len(),
{
    if s.len() == 0 {
        0
    } else {
        seq_sum(s.drop_last()) + s.last()
    }
}

/// `m` is the smallest element of the non-empty `s`.
pub open spec fn is_seq_min(m: u64, s: Seq<u64>) -> bool {
    s.contains(m) && forall|i: int| 0 <= i < s.len() ==> m <= #[trigger] s[i]
}

/// `m` is the largest element of the non-empty `s`.
pub open spec fn is_seq_max(m: u64, s: Seq<u64>) -> bool {
    s.contains(m) && forall|i: int| 0 <= i < s.len() ==> #[trigger] s[i] <= m
}

/// Rate, in fixed-point frames per second, of frames lasting `micros` each;
/// zero for a zero duration.
pub open spec fn rate_of(frames: int, micros: int) -> int {
    if micros > 0 {
        frames * ONE * MICROS_PER_SECOND / micros
    } else {
        0
    }
}

/// The window after recording one more frame time: appended, and the oldest
/// dropped once the window would exceed `max` entries.
pub open spec fn window_after(window: Seq<u64>, max: nat, t: u64) -> Seq<u64> {
    if window.len() + 1 > max {
        window.push(t).drop_first()
    } else {
        window.push(t)
    }
}

/// Tracks recent frame times and the number of frames rendered.
pub struct PerformanceMetrics {
    frame_times: VecDeque<u64>,
    max_samples: usize,
    total_frames: u64,
}

proof fn seq_sum_bound(s: Seq<u64>)
    ensures
        0 <= seq_sum(s) <= s.len() * 0xffff_ffff_ffff_ffff,
    decreases s.len(),
{
    if s.len() > 0 {
        seq_sum_bound(s.drop_last());
    }
}

impl PerformanceMetrics {
    /// The recent frame times, oldest first.
    pub closed spec fn spec_frame_times(&self) -> Seq<u64> {
        self.frame_times@
    }

    /// Longest window kept.
    pub closed spec fn spec_max_samples(&self) -> nat {
        self.max_samples as nat
    }

    /// Frames recorded since creation or the last reset.
    pub closed spec fn spec_total_frames(&self) -> nat {
        self.total_frames as nat
    }

    /// A tracker keeping at most `max_samples` recent frame times.
    pub fn new(max_samples: usize) -> (r: PerformanceMetrics)
        ensures
            r.spec_frame_times() == Seq::<u64>::empty(),
            r.spec_max_samples() == max_samples,
            r.spec_total_frames() == 0,
    {
        PerformanceMetrics { frame_times: VecDeque::new(), max_samples, total_frames: 0 }
    }

    /// Record a frame that took `frame_time` microseconds.
    pub fn record_frame(&mut self, frame_time: u64)
        requires
            old(self).spec_total_frames() < u64::MAX,
        ensures
            final(self).spec_frame_times() == window_after(
                old(self).spec_frame_times(),
                old(self).spec_max_samples(),
                frame_time,
            ),
            final(self).spec_max_samples() == old(self).spec_max_samples(),
            final(self).spec_total_frames() == old(self).spec_total_frames() + 1,
            old(self).spec_frame_times().len() <= old(self).spec_max_samples()
                ==> final(self).spec_frame_times().len() <= final(self).spec_max_samples(),
    {
        self.frame_times.push_back(frame_time);
        if self.frame_times.len() > self.max_samples {
            self.frame_times.pop_front();
        }
        self.total_frames = self.total_frames + 1;
    }

    /// Frame times for plotting, oldest first.
    pub fn frame_times(&self) -> (r: &VecDeque<u64>)
        ensures
            r@ == self.spec_frame_times(),
    {
        &self.frame_times
    }

    /// Frames recorded since creation or the last reset.
    pub fn total_frames(&self) -> (r: u64)
        ensures
            r == self.spec_total_frames(),
    {
        self.total_frames
    }

    /// Forget all frames; the window length is kept.
    pub fn reset(&mut self)
        ensures
            final(self).spec_frame_times() == Seq::<u64>::empty(),
            final(self).spec_max_samples() == old(self).spec_max_samples(),
            final(self).spec_total_frames() == 0,
    {
        self.frame_times.clear();
        self.total_frames = 0;
    }

    /// Mean of the recent frame times, rounded down; zero with none.
    pub fn average_frame_time(&self) -> (r: u64)
        ensures
            self.spec_frame_times().len() == 0 ==> r == 0,
            self.spec_frame_times().len() > 0 ==> r == seq_sum(self.spec_frame_times())
                / self.spec_frame_times().len() as int,
    {
        let n = self.frame_times.len();
        if n == 0 {
            return 0;
        }
        let mut sum: u128 = 0;
        let mut i: usize = 0;
        while i < n
            invariant
                n == self.frame_times@.len(),
                i <= n,
                sum == seq_sum(self.frame_times@.subrange(0, i as int)),
                sum <= i * 0xffff_ffff_ffff_ffff,
            decreases n - i,
        {
            assert(self.frame_times@.subrange(0, i + 1).drop_last() =~= self.frame_times@.subrange(
                0,
                i as int,
            ));
            sum = sum + self.frame_times[i] as u128;
            i = i + 1;
        }
        assert(self.frame_times@.subrange(0, n as int) =~= self.frame_times@);
        assert(sum / (n as u128) <= 0xffff_ffff_ffff_ffff) by (nonlinear_arith)
            requires
                sum <= n * 0xffff_ffff_ffff_ffff,
                n > 0,
        ;
        (sum / (n as u128)) as u64
    }

    /// Shortest recent frame time; zero with none.
    pub fn min_frame_time(&self) -> (r: u64)
        ensures
            self.spec_frame_times().len() == 0 ==> r == 0,
            self.spec_frame_times().len() > 0 ==> is_seq_min(r, self.spec_frame_times()),
    {
        let n = self.frame_times.len();
        if n == 0 {
            return 0;
        }
        let mut best = self.frame_times[0];
        let mut k: usize = 0;
        let mut i: usize = 1;
        while i < n
            invariant
                n == self.frame_times@.len(),
                1 <= i <= n,
                k < i,
                best == self.frame_times@[k as int],
                forall|j: int| 0 <= j < i ==> best <= #[trigger] self.frame_times@[j],
            decreases n - i,
        {
            if self.frame_times[i] < best {
                best = self.frame_times[i];
                k = i;
            }
            i = i + 1;
        }
        assert(self.frame_times@[k as int] == best);
        best
    }

    /// Longest recent frame time; zero with none.
    pub fn max_frame_time(&self) -> (r: u64)
        ensures
            self.spec_frame_times().len() == 0 ==> r == 0,
            self.spec_frame_times().len() > 0 ==> is_seq_max(r, self.spec_frame_times()),
    {
        let n = self.frame_times.len();
        if n == 0 {
            return 0;
        }
        let mut best = self.frame_times[0];
        let mut k: usize = 0;
        let mut i: usize = 1;
        while i < n
            invariant
                n == self.frame_times@.len(),
                1 <= i <= n,
                k < i,
                best == self.frame_times@[k as int],
                forall|j: int| 0 <= j < i ==> #[trigger] self.frame_times@[j] <= best,
            decreases n - i,
        {
            if self.frame_times[i] > best {
                best = self.frame_times[i];
                k = i;
            }
            i = i + 1;
        }
        assert(self.frame_times@[k as int] == best);
        best
    }

    /// Rate implied by the latest frame time; zero with none.
    pub fn current_fps(&self) -> (r: u64)
        ensures
            self.spec_frame_times().len() == 0 ==> r == 0,
            self.spec_frame_times().len() > 0 ==> r == rate_of(1, self.spec_frame_times().last() as int),
    {
        let n = self.frame_times.len();
        if n == 0 {
            return 0;
        }
        let last = self.frame_times[n - 1];
        assert(rate_of(1, last as int) <= ONE * MICROS_PER_SECOND) by (nonlinear_arith)
            requires
                last > 0 ==> rate_of(1, last as int) == ONE * MICROS_PER_SECOND / (last as int),
                last == 0 ==> rate_of(1, last as int) == 0,
        ;
        Self::rate(1, last)
    }

    /// Rate implied by the mean recent frame time; zero with none.
    pub fn average_fps(&self) -> (r: u64)
        ensures
            self.spec_frame_times().len() == 0 ==> r == 0,
            self.spec_frame_times().len() > 0 ==> r == rate_of(
                1,
                seq_sum(self.spec_frame_times()) / self.spec_frame_times().len() as int,
            ),
    {
        let avg = self.average_frame_time();
        assert(rate_of(1, avg as int) <= ONE * MICROS_PER_SECOND) by (nonlinear_arith)
            requires
                avg > 0 ==> rate_of(1, avg as int) == ONE * MICROS_PER_SECOND / (avg as int),
                avg == 0 ==> rate_of(1, avg as int) == 0,
        ;
        Self::rate(1, avg)
    }

    /// Mean rate over all frames recorded in `elapsed` microseconds.
    pub fn overall_average_fps(&self, elapsed: u64) -> (r: u64)
        requires
            rate_of(self.spec_total_frames() as int, elapsed as int) <= u64::MAX,
        ensures
            r == rate_of(self.spec_total_frames() as int, elapsed as int),
    {
        Self::rate(self.total_frames, elapsed)
    }

    fn rate(frames: u64, micros: u64) -> (r: u64)
        requires
            rate_of(frames as int, micros as int) <= u64::MAX,
        ensures
            r == rate_of(frames as int, micros as int),
    {
        if micros == 0 {
            return 0;
        }
        let per: u128 = 1_000_000_000_000;
        assert(per == ONE * MICROS_PER_SECOND);
        assert((frames as int) * per <= 0xffff_ffff_ffff_ffff * 1_000_000_000_000) by (
        nonlinear_arith)
            requires
                frames <= 0xffff_ffff_ffff_ffff,
                per == 1_000_000_000_000,
        ;
        let n: u128 = (frames as u128) * per;
        let q: u128 = n / (micros as u128);
        assert(q <= n) by (nonlinear_arith)
            requires
                micros >= 1,
                q == n / (micros as u128),
        ;
        assert(q == rate_of(frames as int, micros as int));
        q as u64
    }
}

impl Default for PerformanceMetrics {
    fn default() -> (r: PerformanceMetrics)
        ensures
            r.spec_frame_times() == Seq::<u64>::empty(),
            r.spec_max_samples() == DEFAULT_MAX_SAMPLES,
            r.spec_total_frames() == 0,
    {
        PerformanceMetrics::new(DEFAULT_MAX_SAMPLES)
    }
}

} // verus!
