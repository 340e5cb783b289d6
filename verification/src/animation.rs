//! The per-entity animator: an accumulator of normalized animation progress
//! and the per-tick update that turns it into a frame index.
//!
//! Progress is measured in fixed-point loop units: [`PROGRESS_UNIT`] units
//! make one full loop of the selected animation.  The integer part of the
//! accumulator counts completed loops and the remainder is the position
//! inside the current loop, so the accumulator is monotonic — it only grows
//! with elapsed time and is set back to zero by an explicit [`Animator::reset`]
//! alone.  The speed multiplier is an exact rational `speed_num / speed_den`.

use vstd::prelude::*;
use vstd::arithmetic::mul::{lemma_mul_strictly_positive, lemma_mul_upper_bound};

use crate::asset::{lemma_lookup_in_table, lookup_spec, AnimationAsset};
use crate::timeline::Timeline;

verus! {

/// Number of progress units in one full loop of an animation.
pub const PROGRESS_UNIT: u64 = 1_000_000;

/// How far one tick of `dt_ms` elapsed milliseconds advances the progress
/// accumulator, in loop units: `dt * speed / total` scaled to fixed point,
/// rounded towards zero.
pub open spec fn advance_amount(dt_ms: int, speed_num: int, speed_den: int, total_ms: int) -> int {
    (dt_ms * (PROGRESS_UNIT as int) * speed_num) / (speed_den * total_ms)
}

/// The animation state of one entity: which animation is selected, how fast
/// it plays, and how far it has progressed.
#[derive(Clone, Debug, PartialEq)]
pub struct Animator {
    /// Name of the selected animation: the tag name its timeline is looked
    /// up under.
    pub animation: String,
    /// Numerator of the speed multiplier.
    pub speed_num: u32,
    /// Denominator of the speed multiplier; always positive.
    pub speed_den: u32,
    /// Progress accumulator in loop units: `progress / PROGRESS_UNIT` full
    /// loops are complete and `progress % PROGRESS_UNIT` units of the
    /// current loop have elapsed.
    pub progress: u64,
}

impl Default for Animator {
    /// An animator with no animation selected yet, at normal speed, from the
    /// start.
    fn default() -> (r: Self)
        ensures
            r.wf(),
            r.animation@ == Seq::<char>::empty(),
            r.speed_num == 1,
            r.speed_den == 1,
            r.progress == 0,
    {
        Animator { animation: String::new(), speed_num: 1, speed_den: 1, progress: 0 }
    }
}

impl Animator {
    /// Well-formedness: the speed multiplier has a positive denominator.
    pub open spec fn wf(self) -> bool {
        self.speed_den > 0
    }

    /// A fresh animator playing `animation` from the start at normal speed.
    pub fn new(animation: String) -> (r: Animator)
        ensures
            r.wf(),
            r.animation@ == animation@,
            r.speed_num == 1,
            r.speed_den == 1,
            r.progress == 0,
    {
        Animator { animation, speed_num: 1, speed_den: 1, progress: 0 }
    }

    /// Select another animation.
    ///
    /// The progress accumulator is deliberately kept: switching the
    /// animation mid-progress does not alter the total progress, only which
    /// timeline the same fraction is resampled against — which may jump
    /// visually when the two animations' durations differ.
    pub fn set_animation(&mut self, animation: String)
        ensures
            final(self).animation@ == animation@,
            final(self).speed_num == old(self).speed_num,
            final(self).speed_den == old(self).speed_den,
            final(self).progress == old(self).progress,
    {
        self.animation = animation;
    }

    /// Set the progress accumulator back to zero: the next sample shows the
    /// selected animation from its start.  This is the only operation that
    /// ever decreases progress.
    pub fn reset(&mut self)
        ensures
            final(self).animation@ == old(self).animation@,
            final(self).speed_num == old(self).speed_num,
            final(self).speed_den == old(self).speed_den,
            final(self).progress == 0,
    {
        self.progress = 0;
    }

    /// Set the speed multiplier to the rational `num / den`: `1 / 1` is
    /// normal speed, `1 / 2` half speed, `2 / 1` double speed.
    pub fn set_speed(&mut self, num: u32, den: u32)
        requires
            den > 0,
        ensures
            final(self).wf(),
            final(self).animation@ == old(self).animation@,
            final(self).speed_num == num,
            final(self).speed_den == den,
            final(self).progress == old(self).progress,
    {
        self.speed_num = num;
        self.speed_den = den;
    }

    /// Position inside the current loop, in loop units: the fractional part
    /// of the accumulator, always in `[0, PROGRESS_UNIT)`.
    pub fn progress(&self) -> (r: u64)
        ensures
            r == self.progress % PROGRESS_UNIT,
            r < PROGRESS_UNIT,
    {
        self.progress % PROGRESS_UNIT
    }

    /// Number of completed loops: the integer part of the accumulator,
    /// saturated to the `u32` range.
    pub fn repititions(&self) -> (r: u32)
        ensures
            r as int == vstd::math::min((self.progress / PROGRESS_UNIT) as int, 0xFFFF_FFFF),
    {
        let q = self.progress / PROGRESS_UNIT;
        if q > 0xFFFF_FFFF {
            0xFFFF_FFFF
        } else {
            q as u32
        }
    }

    /// The whole accumulator: completed loops and the position inside the
    /// current loop in one number (`2_500_000` loop units after two and a
    /// half loops).
    pub fn total_progress(&self) -> (r: u64)
        ensures
            r == self.progress,
    {
        self.progress
    }

    /// Advance progress by `dt_ms` elapsed milliseconds of an animation
    /// whose loop lasts `total_ms` milliseconds: the accumulator grows by
    /// `dt * speed / total` in loop units, saturating only at the top of the
    /// `u64` range.
    pub fn advance(&mut self, dt_ms: u64, total_ms: u64)
        requires
            old(self).wf(),
            total_ms > 0,
        ensures
            final(self).wf(),
            final(self).animation@ == old(self).animation@,
            final(self).speed_num == old(self).speed_num,
            final(self).speed_den == old(self).speed_den,
            final(self).progress as int == vstd::math::min(
                old(self).progress + advance_amount(
                    dt_ms as int,
                    old(self).speed_num as int,
                    old(self).speed_den as int,
                    total_ms as int,
                ),
                0xFFFF_FFFF_FFFF_FFFF,
            ),
    {
        proof {
            lemma_mul_upper_bound(
                dt_ms as int,
                0xFFFF_FFFF_FFFF_FFFF,
                PROGRESS_UNIT as int,
                0xF_4240,
            );
            lemma_mul_upper_bound(
                (dt_ms as int) * (PROGRESS_UNIT as int),
                0xFFFF_FFFF_FFFF_FFFF * (0xF_4240 as int),
                self.speed_num as int,
                0xFFFF_FFFF,
            );
            lemma_mul_upper_bound(
                self.speed_den as int,
                0xFFFF_FFFF,
                total_ms as int,
                0xFFFF_FFFF_FFFF_FFFF,
            );
            lemma_mul_strictly_positive(self.speed_den as int, total_ms as int);
        }
        let scaled: u128 = (dt_ms as u128) * (PROGRESS_UNIT as u128) * (self.speed_num as u128);
        let inc: u128 = scaled / ((self.speed_den as u128) * (total_ms as u128));
        let sum: u128 = (self.progress as u128) + inc;
        if sum > 0xFFFF_FFFF_FFFF_FFFF {
            self.progress = 0xFFFF_FFFF_FFFF_FFFF;
        } else {
            self.progress = sum as u64;
        }
    }

    /// The atlas frame index the selected animation is showing at the
    /// current progress, or `0` when no animation of that name exists in
    /// the asset.
    pub fn current_frame_index(&self, asset: &AnimationAsset) -> (r: usize)
        requires
            asset.wf(),
        ensures
            match lookup_spec(asset.anims@, self.animation@) {
                Some(tl) => tl.from <= r <= tl.to && r < asset.durations@.len() && tl.contains(
                    r - tl.from,
                    (self.progress % PROGRESS_UNIT) as int,
                    PROGRESS_UNIT as int,
                ),
                None => r == 0,
            },
    {
        proof {
            lemma_lookup_in_table(asset.anims@, self.animation@);
        }
        match asset.get(&self.animation) {
            Some(tl) => tl.sample(self.progress % PROGRESS_UNIT, PROGRESS_UNIT),
            None => 0,
        }
    }
}

/// One tick of one entity: advance the animator's progress by the elapsed
/// time scaled to the selected animation's loop duration, then sample the
/// frame to show.
///
/// Returns `None` — and leaves the progress untouched — when the asset has
/// no animation of the selected name; an entity whose asset is still
/// loading is skipped by the host before it gets here.
pub fn update_animator(animator: &mut Animator, asset: &AnimationAsset, dt_ms: u64) -> (r: Option<
    usize,
>)
    requires
        old(animator).wf(),
        asset.wf(),
    ensures
        final(animator).wf(),
        final(animator).animation@ == old(animator).animation@,
        final(animator).speed_num == old(animator).speed_num,
        final(animator).speed_den == old(animator).speed_den,
        match lookup_spec(asset.anims@, old(animator).animation@) {
            Some(tl) => {
                &&& final(animator).progress as int == vstd::math::min(
                    old(animator).progress + advance_amount(
                        dt_ms as int,
                        old(animator).speed_num as int,
                        old(animator).speed_den as int,
                        tl.total_ms as int,
                    ),
                    0xFFFF_FFFF_FFFF_FFFF,
                )
                &&& (r matches Some(idx) && tl.from <= idx <= tl.to && idx
                    < asset.durations@.len() && tl.contains(
                    idx - tl.from,
                    (final(animator).progress % PROGRESS_UNIT) as int,
                    PROGRESS_UNIT as int,
                ))
            },
            None => r is None && final(animator).progress == old(animator).progress,
        },
{
    proof {
        lemma_lookup_in_table(asset.anims@, animator.animation@);
    }
    let tlo = asset.get(&animator.animation);
    match tlo {
        Some(tl) => {
            animator.advance(dt_ms, tl.total_ms);
            Some(tl.sample(animator.progress % PROGRESS_UNIT, PROGRESS_UNIT))
        },
        None => None,
    }
}

/// Law: after a reset the accumulator is zero, a tick of zero elapsed time
/// advances it by nothing, and the zero fraction lies only in the first
/// interval — so resetting and then sampling at `dt == 0` always yields the
/// first interval's frame.  (It needs the first frame of the tag to have a
/// positive duration; with a zero-duration first frame the loop starts on a
/// later frame instead.)
pub proof fn lemma_reset_then_zero_tick_shows_first_frame(a: Animator, tl: Timeline, k: int)
    requires
        a.wf(),
        a.progress == 0,
        tl.wf(),
        tl.width(0) > 0,
        0 <= k < tl.intervals(),
        tl.contains(k, (a.progress % PROGRESS_UNIT) as int, PROGRESS_UNIT as int),
    ensures
        advance_amount(0, a.speed_num as int, a.speed_den as int, tl.total_ms as int) == 0,
        k == 0,
{
    lemma_mul_strictly_positive(a.speed_den as int, tl.total_ms as int);
    tl.lemma_frac_zero_first_frame(PROGRESS_UNIT as int);
}

} // verus!
