//! Per-tag animation timelines.
//!
//! A [`Timeline`] is derived from one named tag: a contiguous, inclusive
//! range of frame indices `[from, to]` together with the display duration of
//! each of those frames.  One loop of the animation is split into `to - from
//! + 1` half-open intervals, one per frame, whose widths are proportional to
//! the frame durations.  Boundaries are kept as cumulative millisecond
//! counts, so a position inside the loop is an exact rational `num / den` of
//! the loop and interval lookup is exact integer arithmetic.

use vstd::prelude::*;
use vstd::arithmetic::mul::{
    lemma_mul_inequality, lemma_mul_nonnegative, lemma_mul_strict_inequality,
    lemma_mul_strictly_positive, lemma_mul_upper_bound,
};

verus! {

/// A tag whose frames sum to a zero display duration: such a tag cannot be
/// sampled (there is no instant at which any of its frames is showing), so it
/// is rejected when the timeline is built, never at sample time.
#[derive(Clone, Copy, Debug, PartialEq, Eq, Structural)]
pub struct EmptyTagError;

/// Sum of `s[lo..hi]`, as a mathematical integer.
pub open spec fn sum_range(s: Seq<u32>, lo: int, hi: int) -> int
    decreases hi - lo,
{
    if lo >= hi {
        0
    } else {
        sum_range(s, lo, hi - 1) + s[hi - 1]
    }
}

/// The sum of a range of `u32` values is non-negative.
pub proof fn lemma_sum_range_nonneg(s: Seq<u32>, lo: int, hi: int)
    ensures
        sum_range(s, lo, hi) >= 0,
    decreases hi - lo,
{
    if lo < hi {
        lemma_sum_range_nonneg(s, lo, hi - 1);
    }
}

/// A sum over `[lo, hi)` splits at any point `mid` between the ends.
pub proof fn lemma_sum_range_split(s: Seq<u32>, lo: int, mid: int, hi: int)
    requires
        lo <= mid <= hi,
    ensures
        sum_range(s, lo, hi) == sum_range(s, lo, mid) + sum_range(s, mid, hi),
    decreases hi - mid,
{
    if mid < hi {
        lemma_sum_range_split(s, lo, mid, hi - 1);
    }
}

/// Each summand is a `u32`, so the sum of `hi - lo` of them is at most
/// `(hi - lo) * u32::MAX`.
pub proof fn lemma_sum_range_bound(s: Seq<u32>, lo: int, hi: int)
    requires
        lo <= hi,
    ensures
        sum_range(s, lo, hi) <= (hi - lo) * 0xFFFF_FFFF,
    decreases hi - lo,
{
    if lo < hi {
        lemma_sum_range_bound(s, lo, hi - 1);
    }
}

/// The normalized-time lookup structure for one tag.
///
/// Interval `k` (for `0 <= k <= to - from`) covers the positions `x` of one
/// loop with `bounds[k] <= x < bounds[k + 1]`, where a position is measured
/// in milliseconds from the start of the loop, and maps to frame `from + k`.
/// A fraction `num / den` of the loop corresponds to the position
/// `num * total_ms / den`, which lets every comparison stay in integers.
#[derive(Clone, Debug, PartialEq)]
pub struct Timeline {
    /// First frame index of the tag.
    pub from: usize,
    /// Last frame index of the tag (inclusive).
    pub to: usize,
    /// Cumulative frame durations in milliseconds: `bounds[0] == 0` and
    /// `bounds[k + 1] - bounds[k]` is the duration of frame `from + k`.
    pub bounds: Vec<u64>,
    /// Total duration of one loop in milliseconds; always positive.
    pub total_ms: u64,
}

impl Timeline {
    /// Number of intervals, equal to the number of frames in the tag.
    pub open spec fn intervals(self) -> int {
        self.to - self.from + 1
    }

    /// Well-formedness: the boundaries start at zero, never decrease, and end
    /// exactly at the positive loop duration.  Together these say that the
    /// intervals partition `[0, total_ms)`: no gaps and no overlaps.
    pub open spec fn wf(self) -> bool {
        &&& self.from <= self.to
        &&& self.bounds@.len() == self.intervals() + 1
        &&& self.bounds@[0] == 0
        &&& (forall|k: int|
            0 <= k < self.intervals() ==> #[trigger] self.bounds@[k] <= self.bounds@[k + 1])
        &&& self.bounds@[self.intervals()] == self.total_ms
        &&& self.total_ms > 0
    }

    /// Width of interval `k` in milliseconds.
    pub open spec fn width(self, k: int) -> int {
        self.bounds@[k + 1] - self.bounds@[k]
    }

    /// The fraction `num / den` of the loop falls inside interval `k`:
    /// `bounds[k] <= num * total_ms / den < bounds[k + 1]`, compared without
    /// division.
    pub open spec fn contains(self, k: int, num: int, den: int) -> bool {
        &&& self.bounds@[k] * den <= num * self.total_ms
        &&& num * self.total_ms < self.bounds@[k + 1] * den
    }

    /// Sum of the widths of intervals `0 .. k`.
    pub open spec fn widths_sum(self, k: int) -> int
        decreases k,
    {
        if k <= 0 {
            0
        } else {
            self.widths_sum(k - 1) + self.width(k - 1)
        }
    }

    /// Build the timeline of the tag `[from, to]` from the per-frame display
    /// durations of the whole sheet.
    ///
    /// Walking frames `from..=to` in order, each frame contributes the
    /// interval `[c, c + d)` where `c` is the running cumulative duration and
    /// `d` its own duration, so `bounds[k]` is the sum of the durations of
    /// the first `k` frames of the tag.  A tag whose durations sum to zero is
    /// rejected with [`EmptyTagError`]; on success the loop duration is
    /// positive and the intervals partition it exactly.
    pub fn build(durations: &Vec<u32>, from: usize, to: usize) -> (r: Result<
        Timeline,
        EmptyTagError,
    >)
        requires
            from <= to,
            to < durations@.len(),
            durations@.len() <= 0xFFFF_FFFF,
        ensures
            match r {
                Ok(tl) => {
                    &&& tl.wf()
                    &&& tl.from == from
                    &&& tl.to == to
                    &&& tl.total_ms == sum_range(durations@, from as int, to + 1)
                    &&& (forall|k: int|
                        0 <= k < tl.bounds@.len() ==> #[trigger] tl.bounds@[k] == sum_range(
                            durations@,
                            from as int,
                            from + k,
                        ))
                    &&& (forall|k: int|
                        0 <= k < tl.intervals() ==> #[trigger] tl.width(k) == durations@[from + k])
                },
                Err(e) => sum_range(durations@, from as int, to + 1) == 0,
            },
            (r is Err) <==> sum_range(durations@, from as int, to + 1) == 0,
    {
        let span = to - from + 1;
        let mut total: u64 = 0;
        let mut i: usize = 0;
        while i < span
            invariant
                from <= to,
                to < durations@.len(),
                durations@.len() <= 0xFFFF_FFFF,
                span == to - from + 1,
                i <= span,
                total == sum_range(durations@, from as int, from + i),
            decreases span - i,
        {
            proof {
                lemma_sum_range_bound(durations@, from as int, from + i);
                lemma_mul_inequality(i as int, 0xFFFF_FFFE, 0xFFFF_FFFF);
                assert(sum_range(durations@, from as int, from + i + 1) == sum_range(
                    durations@,
                    from as int,
                    from + i,
                ) + durations@[from + i]);
            }
            total = total + (durations[from + i] as u64);
            i = i + 1;
        }
        if total == 0 {
            return Err(EmptyTagError);
        }
        let mut bounds: Vec<u64> = Vec::new();
        bounds.push(0);
        let mut cur: u64 = 0;
        let mut k: usize = 0;
        while k < span
            invariant
                from <= to,
                to < durations@.len(),
                durations@.len() <= 0xFFFF_FFFF,
                span == to - from + 1,
                k <= span,
                bounds@.len() == k + 1,
                forall|j: int|
                    0 <= j <= k ==> #[trigger] bounds@[j] == sum_range(
                        durations@,
                        from as int,
                        from + j,
                    ),
                cur == sum_range(durations@, from as int, from + k),
                total == sum_range(durations@, from as int, to + 1),
                total > 0,
            decreases span - k,
        {
            let d = durations[from + k];
            proof {
                assert(sum_range(durations@, from as int, from + k + 1) == sum_range(
                    durations@,
                    from as int,
                    from + k,
                ) + durations@[from + k]);
                lemma_sum_range_split(durations@, from as int, from + k + 1, to + 1);
                lemma_sum_range_nonneg(durations@, from + k + 1, to + 1);
            }
            cur = cur + (d as u64);
            bounds.push(cur);
            k = k + 1;
        }
        let tl = Timeline { from, to, bounds, total_ms: total };
        proof {
            assert forall|j: int| 0 <= j < tl.intervals() implies #[trigger] tl.width(j)
                == durations@[from + j] by {
                assert(sum_range(durations@, from as int, from + j + 1) == sum_range(
                    durations@,
                    from as int,
                    from + j,
                ) + durations@[from + j]);
            }
        }
        Ok(tl)
    }

    /// Map the fraction `num / den` of one loop (with `0 <= num < den`, so a
    /// position in `[0, 1)`) to the frame index showing at that position.
    ///
    /// The result is the frame of the unique interval containing the
    /// position; it always lies within the tag's own range `[from, to]`.
    /// The final `self.to` is a clamp-to-last-frame guard that keeps the
    /// function total; with exact arithmetic the search cannot miss, so the
    /// guard is provably never reached.
    pub fn sample(&self, num: u64, den: u64) -> (r: usize)
        requires
            self.wf(),
            0 < den,
            num < den,
        ensures
            self.from <= r <= self.to,
            self.contains(r - self.from, num as int, den as int),
    {
        proof {
            lemma_mul_upper_bound(
                num as int,
                0xFFFF_FFFF_FFFF_FFFF,
                self.total_ms as int,
                0xFFFF_FFFF_FFFF_FFFF,
            );
            lemma_mul_nonnegative(num as int, self.total_ms as int);
        }
        let x: u128 = (num as u128) * (self.total_ms as u128);
        let n = self.bounds.len() - 1;
        let mut k: usize = 0;
        while k < n
            invariant
                self.wf(),
                0 < den,
                num < den,
                n == self.intervals(),
                x == (num as int) * (self.total_ms as int),
                k <= n,
                self.bounds@[k as int] * den <= (num as int) * (self.total_ms as int),
            decreases n - k,
        {
            let b = self.bounds[k + 1];
            proof {
                lemma_mul_upper_bound(b as int, 0xFFFF_FFFF_FFFF_FFFF, den as int, 0xFFFF_FFFF_FFFF_FFFF);
            }
            if x < (b as u128) * (den as u128) {
                return self.from + k;
            }
            k = k + 1;
        }
        proof {
            lemma_mul_strict_inequality(num as int, den as int, self.total_ms as int);
            assert(self.bounds@[self.intervals()] * den == (self.total_ms as int) * (den as int));
            assert(false);
        }
        self.to
    }

    /// Boundaries never decrease between any two positions.
    pub proof fn lemma_bounds_monotone(self, i: int, j: int)
        requires
            self.wf(),
            0 <= i <= j <= self.intervals(),
        ensures
            self.bounds@[i] <= self.bounds@[j],
        decreases j - i,
    {
        if i < j {
            self.lemma_bounds_monotone(i, j - 1);
            assert(self.bounds@[j - 1] <= self.bounds@[j - 1 + 1]);
        }
    }

    /// Law: intervals never overlap.  A fraction of the loop that lies in two
    /// intervals lies in one and the same.
    pub proof fn lemma_interval_unique(self, num: int, den: int, k1: int, k2: int)
        requires
            self.wf(),
            0 < den,
            0 <= k1 < self.intervals(),
            0 <= k2 < self.intervals(),
            self.contains(k1, num, den),
            self.contains(k2, num, den),
        ensures
            k1 == k2,
    {
        if k1 < k2 {
            self.lemma_bounds_monotone(k1 + 1, k2);
            lemma_mul_inequality(self.bounds@[k1 + 1] as int, self.bounds@[k2] as int, den);
        }
        if k2 < k1 {
            self.lemma_bounds_monotone(k2 + 1, k1);
            lemma_mul_inequality(self.bounds@[k2 + 1] as int, self.bounds@[k1] as int, den);
        }
    }

    proof fn lemma_interval_exists_from(self, num: int, den: int, k: int)
        requires
            self.wf(),
            0 < den,
            0 <= num < den,
            0 <= k < self.intervals(),
            self.bounds@[k] * den <= num * self.total_ms,
        ensures
            exists|j: int| 0 <= j < self.intervals() && self.contains(j, num, den),
        decreases self.intervals() - k,
    {
        if num * self.total_ms < self.bounds@[k + 1] * den {
            assert(self.contains(k, num, den));
        } else {
            lemma_mul_strict_inequality(num, den, self.total_ms as int);
            assert((self.total_ms as int) * den == den * (self.total_ms as int));
            if k + 1 == self.intervals() {
                assert(self.bounds@[k + 1] == self.total_ms);
                assert(false);
            }
            self.lemma_interval_exists_from(num, den, k + 1);
        }
    }

    /// Law: every fraction of the loop lies in some interval.  Together with
    /// [`Timeline::lemma_interval_unique`], sampling any fraction in
    /// `[0, 1)` yields exactly one frame, and that frame is in `[from, to]`.
    pub proof fn lemma_interval_exists(self, num: int, den: int)
        requires
            self.wf(),
            0 < den,
            0 <= num < den,
        ensures
            exists|j: int| 0 <= j < self.intervals() && self.contains(j, num, den),
    {
        lemma_mul_nonnegative(num, self.total_ms as int);
        assert(self.bounds@[0] * den == 0);
        self.lemma_interval_exists_from(num, den, 0);
    }

    proof fn lemma_widths_sum_prefix(self, k: int)
        requires
            self.wf(),
            0 <= k <= self.intervals(),
        ensures
            self.widths_sum(k) == self.bounds@[k],
        decreases k,
    {
        if k > 0 {
            self.lemma_widths_sum_prefix(k - 1);
        }
    }

    /// Law: the interval widths sum exactly to the whole loop duration: there
    /// are no gaps and no overlaps, so the normalized widths sum to one, not
    /// merely to within a tolerance.
    pub proof fn lemma_widths_partition(self)
        requires
            self.wf(),
        ensures
            self.widths_sum(self.intervals()) == self.total_ms,
    {
        self.lemma_widths_sum_prefix(self.intervals());
    }

    /// Law (low boundary): fraction zero lies in the first interval, so it
    /// maps to the tag's first frame — provided that frame's interval is not
    /// empty (a first frame of zero duration starts the loop on a later
    /// frame instead).
    pub proof fn lemma_frac_zero_first_frame(self, den: int)
        requires
            self.wf(),
            0 < den,
            self.width(0) > 0,
        ensures
            self.contains(0, 0, den),
            forall|k: int| 0 <= k < self.intervals() && self.contains(k, 0, den) ==> k == 0,
    {
        lemma_mul_strictly_positive(self.bounds@[1] as int, den);
        assert(self.contains(0, 0, den));
        assert forall|k: int| 0 <= k < self.intervals() && self.contains(k, 0, den) implies k
            == 0 by {
            self.lemma_interval_unique(0, den, k, 0);
        }
    }

    /// Law (high boundary): every fraction at or past the start of the last
    /// interval maps to the tag's last frame; as a fraction approaches one
    /// from below it therefore samples the last frame.
    pub proof fn lemma_frac_near_one_last_frame(self, num: int, den: int)
        requires
            self.wf(),
            0 < den,
            0 <= num < den,
            self.bounds@[self.intervals() - 1] * den <= num * self.total_ms,
        ensures
            self.contains(self.intervals() - 1, num, den),
            forall|k: int|
                0 <= k < self.intervals() && self.contains(k, num, den) ==> k == self.intervals()
                    - 1,
    {
        lemma_mul_strict_inequality(num, den, self.total_ms as int);
        assert((self.total_ms as int) * den == den * (self.total_ms as int));
        assert(self.contains(self.intervals() - 1, num, den));
        assert forall|k: int|
            0 <= k < self.intervals() && self.contains(k, num, den) implies k == self.intervals()
            - 1 by {
            self.lemma_interval_unique(num, den, k, self.intervals() - 1);
        }
    }

    /// Law (single frame): a tag of one frame, whatever its duration, yields
    /// a single interval covering the whole loop, so every fraction maps to
    /// that frame.
    pub proof fn lemma_single_frame_whole_loop(self, num: int, den: int)
        requires
            self.wf(),
            self.from == self.to,
            0 < den,
            0 <= num < den,
        ensures
            self.contains(0, num, den),
    {
        lemma_mul_nonnegative(num, self.total_ms as int);
        lemma_mul_strict_inequality(num, den, self.total_ms as int);
        assert((self.total_ms as int) * den == den * (self.total_ms as int));
    }
}

} // verus!
