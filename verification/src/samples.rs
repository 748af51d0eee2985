//! The mouse velocity tracker: a time-windowed buffer of raw relative mouse
//! deltas, trimmed from the front on every query and summed into an exact
//! windowed velocity.
//!
//! The velocity of a sample set is the rational number
//! `sum * sensitivity * 100 / (window_us * FP_ONE * FP_ONE)` in real units
//! per axis (equivalently, `sum * sensitivity / (10^4 * window_seconds)`
//! with both `sensitivity` and the result read in `FP_ONE` fixed point).
//! `velocity` returns the numerator exactly; the denominator
//! `window_us * FP_ONE` (for a fixed-point result) is left to the caller,
//! so no precision is lost before the final aggregation step.

use vstd::prelude::*;
use std::collections::VecDeque;
use crate::binds::SENS_MAX;

verus! {

/// One raw relative mouse motion: deltas plus the arrival time stamp in
/// microseconds of a monotonic clock.
#[derive(Clone, Copy, Debug, PartialEq, Eq, Structural)]
pub struct MouseSample {
    pub dx: i32,
    pub dy: i32,
    pub t_us: u64,
}

/// Largest number of buffered samples; a machine limit that keeps the
/// windowed sums exact in 128-bit arithmetic.
pub const MAX_SAMPLES: usize = 65536;

/// Every velocity numerator a well-formed buffer can produce lies within
/// this bound: delta range times `MAX_SAMPLES` times `SENS_MAX` times the
/// scaling constant.
pub const VEL_NUM_BOUND: i128 = 0x80000000 * 65536 * 33554432 * 100;

/// A sample's age at `now_us` exceeds the window.
pub open spec fn stale(s: MouseSample, now_us: u64, window_us: u64) -> bool {
    now_us - s.t_us > window_us
}

/// Timestamps are non-decreasing: samples are stored in arrival order and
/// the producer's clock is monotonic.
pub open spec fn arrival_ordered(s: Seq<MouseSample>) -> bool {
    forall|i: int, j: int| 0 <= i <= j < s.len() ==> s[i].t_us <= s[j].t_us
}

/// The suffix left by trimming stale samples off the front, one at a time,
/// stopping at the first sample whose age is within the window.
pub open spec fn evict_spec(s: Seq<MouseSample>, now_us: u64, window_us: u64) -> Seq<MouseSample>
    decreases s.len(),
{
    if s.len() > 0 && stale(s[0], now_us, window_us) {
        evict_spec(s.drop_first(), now_us, window_us)
    } else {
        s
    }
}

/// Sum of the x deltas of a sample set.
pub open spec fn sum_dx(s: Seq<MouseSample>) -> int
    decreases s.len(),
{
    if s.len() == 0 {
        0
    } else {
        sum_dx(s.drop_last()) + s.last().dx
    }
}

/// Sum of the y deltas of a sample set.
pub open spec fn sum_dy(s: Seq<MouseSample>) -> int
    decreases s.len(),
{
    if s.len() == 0 {
        0
    } else {
        sum_dy(s.drop_last()) + s.last().dy
    }
}

/// Numerator of the x velocity of a sample set at a given sensitivity; the
/// denominator is `window_us * FP_ONE` for a fixed-point result.
pub open spec fn vel_num_x(s: Seq<MouseSample>, sensitivity_fp: int) -> int {
    sum_dx(s) * sensitivity_fp * 100
}

/// Numerator of the y velocity of a sample set at a given sensitivity.
pub open spec fn vel_num_y(s: Seq<MouseSample>, sensitivity_fp: int) -> int {
    sum_dy(s) * sensitivity_fp * 100
}

/// Trimming the front by the length of the maximal stale prefix is exactly
/// what `evict_spec` does.
proof fn lemma_evict_spec_skip(s: Seq<MouseSample>, now_us: u64, window_us: u64, k: int)
    requires
        0 <= k <= s.len(),
        forall|j: int| 0 <= j < k ==> stale(s[j], now_us, window_us),
        k < s.len() ==> !stale(s[k as int], now_us, window_us),
    ensures
        evict_spec(s, now_us, window_us) == s.skip(k),
    decreases k,
{
    if k == 0 {
        assert(s.skip(0) =~= s);
    } else {
        lemma_evict_spec_skip(s.drop_first(), now_us, window_us, k - 1);
        assert(s.drop_first().skip(k - 1) =~= s.skip(k));
    }
}

/// Eviction never lengthens the buffer.
proof fn lemma_evict_len(s: Seq<MouseSample>, now_us: u64, window_us: u64)
    ensures
        evict_spec(s, now_us, window_us).len() <= s.len(),
    decreases s.len(),
{
    if s.len() > 0 && stale(s[0], now_us, window_us) {
        lemma_evict_len(s.drop_first(), now_us, window_us);
    }
}

/// Window eviction law: trimming a sample set in arrival order at time
/// `now_us` with window `window_us` keeps every sample whose age is within
/// the window and drops every sample whose age exceeds it — the retained
/// set is exactly the suffix of samples aged at most the window.
pub proof fn lemma_eviction_window_exact(s: Seq<MouseSample>, now_us: u64, window_us: u64)
    requires
        arrival_ordered(s),
    ensures
        evict_spec(s, now_us, window_us) == s.skip(
            s.len() - evict_spec(s, now_us, window_us).len(),
        ),
        forall|i: int|
            0 <= i < evict_spec(s, now_us, window_us).len() ==> !stale(
                evict_spec(s, now_us, window_us)[i],
                now_us,
                window_us,
            ),
        forall|i: int|
            0 <= i < s.len() - evict_spec(s, now_us, window_us).len() ==> stale(
                s[i],
                now_us,
                window_us,
            ),
    decreases s.len(),
{
    if s.len() > 0 && stale(s[0], now_us, window_us) {
        assert(arrival_ordered(s.drop_first()));
        lemma_eviction_window_exact(s.drop_first(), now_us, window_us);
        lemma_evict_len(s.drop_first(), now_us, window_us);
        let r = evict_spec(s, now_us, window_us);
        assert(s.drop_first().skip(s.len() - 1 - r.len()) =~= s.skip(s.len() - r.len()));
        assert forall|i: int| 0 <= i < s.len() - r.len() implies stale(
            s[i],
            now_us,
            window_us,
        ) by {
            if i > 0 {
                assert(stale(s.drop_first()[i - 1], now_us, window_us));
            }
        }
    } else if s.len() > 0 {
        assert(s.skip(0) =~= s);
        assert forall|i: int| 0 <= i < s.len() implies !stale(s[i], now_us, window_us) by {
            assert(s[0].t_us <= s[i].t_us);
        }
    } else {
        assert(s.skip(0) =~= s);
    }
}

/// Velocity scaling law: for a fixed sample set and window, scaling the
/// sensitivity by any integer factor scales the velocity numerator by the
/// same factor while the denominator stays put — in particular doubling
/// the sensitivity doubles the velocity.
pub proof fn lemma_velocity_sensitivity_linear(s: Seq<MouseSample>, sensitivity_fp: int, c: int)
    ensures
        vel_num_x(s, c * sensitivity_fp) == c * vel_num_x(s, sensitivity_fp),
        vel_num_y(s, c * sensitivity_fp) == c * vel_num_y(s, sensitivity_fp),
{
    let dx = sum_dx(s);
    let dy = sum_dy(s);
    assert(dx * (c * sensitivity_fp) * 100 == c * (dx * sensitivity_fp * 100))
        by (nonlinear_arith);
    assert(dy * (c * sensitivity_fp) * 100 == c * (dy * sensitivity_fp * 100))
        by (nonlinear_arith);
}

/// The time-windowed buffer of raw mouse deltas.
pub struct MouseSampleQueue {
    pub samples: VecDeque<MouseSample>,
}

impl View for MouseSampleQueue {
    type V = Seq<MouseSample>;

    open spec fn view(&self) -> Seq<MouseSample> {
        self.samples@
    }
}

impl MouseSampleQueue {
    /// Well-formed: bounded, in arrival order.
    pub open spec fn wf(&self) -> bool {
        &&& self@.len() <= MAX_SAMPLES
        &&& arrival_ordered(self@)
    }

    /// An empty buffer.
    pub fn new() -> (r: Self)
        ensures
            r.wf(),
            r@ == Seq::<MouseSample>::empty(),
    {
        MouseSampleQueue { samples: VecDeque::new() }
    }

    /// Number of buffered samples.
    pub fn len(&self) -> (r: usize)
        ensures
            r == self@.len(),
    {
        self.samples.len()
    }

    /// Append one raw delta; O(1) amortized. The producer hands samples
    /// over in arrival order of a monotonic clock, so the new time stamp is
    /// no earlier than the last one.
    pub fn record(&mut self, dx: i32, dy: i32, t_us: u64)
        requires
            old(self).wf(),
            old(self)@.len() < MAX_SAMPLES,
            old(self)@.len() > 0 ==> old(self)@.last().t_us <= t_us,
        ensures
            final(self).wf(),
            final(self)@ == old(self)@.push(MouseSample { dx, dy, t_us }),
    {
        self.samples.push_back(MouseSample { dx, dy, t_us });
    }

    /// Trim from the front every sample whose age exceeds the window; a
    /// prefix trim in arrival order, not a scan.
    pub fn evict(&mut self, now_us: u64, window_us: u64)
        requires
            old(self).wf(),
        ensures
            final(self).wf(),
            final(self)@ == evict_spec(old(self)@, now_us, window_us),
    {
        let ghost s0 = self@;
        let mut k: usize = 0;
        while k < self.samples.len() && (self.samples[k].t_us as u128) + (window_us as u128) < (
        now_us as u128)
            invariant
                self@ == s0,
                k <= self@.len(),
                forall|j: int| 0 <= j < k ==> stale(self@[j], now_us, window_us),
            decreases self@.len() - k,
        {
            k = k + 1;
        }
        proof {
            lemma_evict_spec_skip(s0, now_us, window_us, k as int);
        }
        let mut i: usize = 0;
        while i < k
            invariant
                i <= k,
                k <= s0.len(),
                self@ == s0.skip(i as int),
            decreases k - i,
        {
            self.samples.pop_front();
            proof {
                assert(s0.skip(i as int).drop_first() =~= s0.skip(i + 1));
            }
            i = i + 1;
        }
    }

    /// Sum the buffered deltas per axis, exactly.
    fn sums(&self) -> (r: (i128, i128))
        requires
            self.wf(),
        ensures
            r.0 == sum_dx(self@),
            r.1 == sum_dy(self@),
    {
        let mut sx: i128 = 0;
        let mut sy: i128 = 0;
        let mut i: usize = 0;
        while i < self.samples.len()
            invariant
                self.wf(),
                i <= self@.len(),
                sx == sum_dx(self@.take(i as int)),
                sy == sum_dy(self@.take(i as int)),
                -0x80000000 * (i as int) <= sx <= 0x80000000 * (i as int),
                -0x80000000 * (i as int) <= sy <= 0x80000000 * (i as int),
            decreases self@.len() - i,
        {
            let s = self.samples[i];
            proof {
                assert(self@.take(i + 1).drop_last() =~= self@.take(i as int));
                assert(self@.take(i + 1).last() == self@[i as int]);
            }
            sx = sx + (s.dx as i128);
            sy = sy + (s.dy as i128);
            i = i + 1;
        }
        proof {
            assert(self@.take(self@.len() as int) =~= self@);
        }
        (sx, sy)
    }

    /// Evict stale samples, then return the windowed velocity of what
    /// remains, as exact numerators over the denominator
    /// `window_us * FP_ONE`: velocity in fixed point is
    /// `sum * sensitivity_fp * 100 / (window_us * FP_ONE)` per axis.
    pub fn velocity(&mut self, now_us: u64, window_us: u64, sensitivity_fp: i64) -> (r: (
        i128,
        i128,
    ))
        requires
            old(self).wf(),
            -SENS_MAX <= sensitivity_fp <= SENS_MAX,
        ensures
            final(self).wf(),
            final(self)@ == evict_spec(old(self)@, now_us, window_us),
            r.0 == vel_num_x(final(self)@, sensitivity_fp as int),
            r.1 == vel_num_y(final(self)@, sensitivity_fp as int),
            -VEL_NUM_BOUND <= r.0 <= VEL_NUM_BOUND,
            -VEL_NUM_BOUND <= r.1 <= VEL_NUM_BOUND,
    {
        self.evict(now_us, window_us);
        let (sx, sy) = self.sums();
        proof {
            lemma_sum_bounds(self@);
            crate::math::lemma_mul_bounds(
                sx as int,
                sensitivity_fp as int,
                0x80000000 * (MAX_SAMPLES as int),
                SENS_MAX as int,
            );
            crate::math::lemma_mul_bounds(
                sy as int,
                sensitivity_fp as int,
                0x80000000 * (MAX_SAMPLES as int),
                SENS_MAX as int,
            );
        }
        (sx * (sensitivity_fp as i128) * 100, sy * (sensitivity_fp as i128) * 100)
    }
}

/// Per-axis delta sums are bounded by the sample count times the delta
/// range.
proof fn lemma_sum_bounds(s: Seq<MouseSample>)
    ensures
        -0x80000000 * s.len() <= sum_dx(s) <= 0x80000000 * s.len(),
        -0x80000000 * s.len() <= sum_dy(s) <= 0x80000000 * s.len(),
    decreases s.len(),
{
    if s.len() > 0 {
        lemma_sum_bounds(s.drop_last());
    }
}

} // verus!
