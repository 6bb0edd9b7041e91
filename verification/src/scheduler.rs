//! Fixed-timestep scheduling: an accumulator of elapsed time that releases
//! exactly one simulation tick per fixed interval, however irregular the
//! surrounding frame durations are.

use vstd::prelude::*;

use vstd::arithmetic::div_mod::lemma_fundamental_div_mod;
use vstd::arithmetic::div_mod::lemma_fundamental_div_mod_converse;
use vstd::arithmetic::div_mod::lemma_mod_bound;
use vstd::arithmetic::mul::lemma_mul_is_distributive_add_other_way;

verus! {

/// The accumulator that decouples the simulation cadence from the frame
/// rate. Time is measured in any unit the caller picks; `step` is the length
/// of one fixed interval in that unit.
#[derive(Clone, Copy, PartialEq, Eq, Structural, Debug)]
pub struct FixedTimestep {
    pub acc: u64,
    pub step: u64,
}

/// The accumulator left after a frame of `dt` is added to `acc` and every
/// whole step is released.
pub open spec fn acc_after_frame(acc: int, step: int, dt: int) -> int {
    (acc + dt) % step
}

/// How many whole steps a frame of `dt` releases from an accumulator `acc`.
pub open spec fn ticks_of_frame(acc: int, step: int, dt: int) -> int {
    (acc + dt) / step
}

/// The accumulator left after a whole sequence of frame durations.
pub open spec fn acc_after_frames(acc: int, step: int, frames: Seq<int>) -> int
    decreases frames.len(),
{
    if frames.len() == 0 {
        acc
    } else {
        acc_after_frames(acc_after_frame(acc, step, frames[0]), step, frames.drop_first())
    }
}

/// The total number of ticks a whole sequence of frame durations releases.
pub open spec fn ticks_of_frames(acc: int, step: int, frames: Seq<int>) -> int
    decreases frames.len(),
{
    if frames.len() == 0 {
        0
    } else {
        ticks_of_frame(acc, step, frames[0]) + ticks_of_frames(
            acc_after_frame(acc, step, frames[0]),
            step,
            frames.drop_first(),
        )
    }
}

pub open spec fn all_nonnegative(frames: Seq<int>) -> bool {
    forall|i: int| 0 <= i < frames.len() ==> frames[i] >= 0
}

pub open spec fn sum_of(frames: Seq<int>) -> int
    decreases frames.len(),
{
    if frames.len() == 0 {
        0
    } else {
        frames[0] + sum_of(frames.drop_first())
    }
}

impl FixedTimestep {
    /// Well-formedness: a positive fixed interval, and never a whole
    /// interval left sitting in the accumulator.
    pub open spec fn wf(self) -> bool {
        &&& self.step > 0
        &&& self.acc < self.step
    }

    pub fn new(step: u64) -> (s: FixedTimestep)
        requires
            step > 0,
        ensures
            s.wf(),
            s.step == step,
            s.acc == 0,
    {
        FixedTimestep { acc: 0, step }
    }

    /// Adds one frame's real duration and returns how many fixed ticks are
    /// now due: every whole interval accumulated is released, none dropped
    /// and none duplicated, and the remainder stays for the next frame.
    pub fn advance(&mut self, frame_dt: u64) -> (ticks: u64)
        requires
            old(self).wf(),
            old(self).acc + frame_dt <= u64::MAX,
        ensures
            final(self).wf(),
            final(self).step == old(self).step,
            final(self).acc == acc_after_frame(old(self).acc as int, old(self).step as int, frame_dt as int),
            ticks == ticks_of_frame(old(self).acc as int, old(self).step as int, frame_dt as int),
    {
        let total = self.acc + frame_dt;
        let ticks = total / self.step;
        self.acc = total % self.step;
        ticks
    }
}

/// The accumulator never loses or invents time: across any sequence of
/// nonnegative frame durations, released ticks times the step plus the
/// remaining accumulator equals the starting accumulator plus all elapsed
/// time, and the remainder stays below one step.
pub proof fn lemma_accumulator_conserves_time(acc: int, step: int, frames: Seq<int>)
    requires
        step > 0,
        0 <= acc < step,
        all_nonnegative(frames),
    ensures
        0 <= acc_after_frames(acc, step, frames) < step,
        ticks_of_frames(acc, step, frames) * step + acc_after_frames(acc, step, frames) == acc
            + sum_of(frames),
    decreases frames.len(),
{
    if frames.len() == 0 {
    } else {
        let total = acc + frames[0];
        let released = total / step;
        let rest = total % step;
        lemma_fundamental_div_mod(total, step);
        lemma_mod_bound(total, step);
        assert(all_nonnegative(frames.drop_first())) by {
            assert(forall|i: int|
                0 <= i < frames.drop_first().len() ==> frames.drop_first()[i] == frames[i + 1]);
        }
        lemma_accumulator_conserves_time(rest, step, frames.drop_first());
        let t_rest = ticks_of_frames(rest, step, frames.drop_first());
        lemma_mul_is_distributive_add_other_way(step, released, t_rest);
        assert((released + t_rest) * step == released * step + t_rest * step);
    }
}

/// Law: a sequence of frame durations summing to exactly `k` whole fixed
/// intervals drives exactly `k` ticks and leaves the accumulator empty,
/// however the total is partitioned across frames.
pub proof fn lemma_exact_frames_exact_ticks(step: int, frames: Seq<int>, k: int)
    requires
        step > 0,
        k >= 0,
        all_nonnegative(frames),
        sum_of(frames) == k * step,
    ensures
        ticks_of_frames(0, step, frames) == k,
        acc_after_frames(0, step, frames) == 0,
{
    lemma_accumulator_conserves_time(0, step, frames);
    let t = ticks_of_frames(0, step, frames);
    let a = acc_after_frames(0, step, frames);
    lemma_fundamental_div_mod_converse(k * step, step, t, a);
    lemma_fundamental_div_mod_converse(k * step, step, k, 0);
}

} // verus!
