use vstd::prelude::*;

use crate::timing::{ms_to_samples, samples_in_ms};

verus! {

/// What one sample of a parameter ramp does to the smoothed value.
#[derive(PartialEq, Eq, Structural, Clone, Copy, Debug)]
pub enum RampStep {
    /// The value moves one step along the ramp: `done` of `total` steps are now
    /// taken. On the step with `done == total` the value lands exactly on the
    /// target.
    Advance { done: u64, total: u64 },
    /// The ramp is over: the value is the target.
    Settled,
}

/// The step counter of a parameter smoother: how many samples a ramp towards
/// a new target takes, and how far along it the smoother is.
#[derive(PartialEq, Eq, Structural, Clone, Copy, Debug)]
pub struct Ramp {
    /// Number of samples the current ramp takes.
    pub total_steps: u64,
    /// Number of samples left before the target is reached.
    pub steps_left: u64,
}

impl Ramp {
    pub open spec fn wf(self) -> bool {
        self.steps_left <= self.total_steps
    }

    /// The counter after one sample.
    pub open spec fn step(self) -> Ramp {
        if self.steps_left == 0 {
            self
        } else {
            Ramp { steps_left: (self.steps_left - 1) as u64, ..self }
        }
    }

    /// What the sample that goes with `self.step()` does to the value.
    pub open spec fn step_kind(self) -> RampStep {
        if self.steps_left == 0 {
            RampStep::Settled
        } else {
            RampStep::Advance {
                done: (self.total_steps - self.steps_left + 1) as u64,
                total: self.total_steps,
            }
        }
    }

    /// The counter after `n` samples.
    pub open spec fn after(self, n: nat) -> Ramp
        decreases n,
    {
        if n == 0 {
            self
        } else {
            self.after((n - 1) as nat).step()
        }
    }

    /// A counter with no ramp under way.
    pub fn new() -> (r: Ramp)
        ensures
            r.wf(),
            r.total_steps == 0,
            r.steps_left == 0,
    {
        Ramp { total_steps: 0, steps_left: 0 }
    }

    /// Starts a ramp of `ramp_ms` milliseconds at `sample_rate` Hz towards a
    /// new target. A ramp of zero samples settles on the first sample.
    pub fn configure(&mut self, ramp_ms: u32, sample_rate: u32)
        ensures
            final(self).wf(),
            final(self).total_steps == samples_in_ms(ramp_ms as nat, sample_rate as nat),
            final(self).steps_left == final(self).total_steps,
    {
        let steps = ms_to_samples(ramp_ms, sample_rate);
        self.total_steps = steps;
        self.steps_left = steps;
    }

    /// Whether the value has reached its target.
    pub fn is_settled(&self) -> (r: bool)
        ensures
            r == (self.steps_left == 0),
    {
        self.steps_left == 0
    }

    /// Takes one sample of the ramp.
    pub fn next(&mut self) -> (r: RampStep)
        requires
            old(self).wf(),
        ensures
            *final(self) == old(self).step(),
            final(self).wf(),
            r == old(self).step_kind(),
    {
        if self.steps_left == 0 {
            RampStep::Settled
        } else {
            self.steps_left = self.steps_left - 1;
            RampStep::Advance { done: self.total_steps - self.steps_left, total: self.total_steps }
        }
    }
}

/// A ramp of `total` samples, once configured, takes its steps one by one:
/// the `k`-th sample (counting from zero) reports `k + 1` of `total` steps
/// done while `k < total`, the last of them landing on the target, and every
/// sample after that reports the ramp as settled.
pub proof fn lemma_ramp_sequence(r: Ramp, k: nat)
    requires
        r.wf(),
        r.steps_left == r.total_steps,
    ensures
        r.after(k).wf(),
        k < r.total_steps ==> r.after(k).step_kind() == (RampStep::Advance {
            done: (k + 1) as u64,
            total: r.total_steps,
        }),
        k >= r.total_steps ==> r.after(k).step_kind() == RampStep::Settled,
{
    lemma_ramp_left(r, k);
}

/// After `k` samples of a fresh ramp, `total - k` steps are left, or none.
proof fn lemma_ramp_left(r: Ramp, k: nat)
    requires
        r.wf(),
        r.steps_left == r.total_steps,
    ensures
        r.after(k).wf(),
        r.after(k).total_steps == r.total_steps,
        r.after(k).steps_left == if k < r.total_steps {
            r.total_steps - k
        } else {
            0
        },
    decreases k,
{
    if k > 0 {
        lemma_ramp_left(r, (k - 1) as nat);
    }
}

} // verus!
