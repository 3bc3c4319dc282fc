use vstd::prelude::*;

use crate::timing::{ms_to_samples, samples_in_ms};

verus! {

/// Length of unbroken silence, in milliseconds, after which the output starts
/// fading out, so that a hard-clipped silent input does not leave a constant
/// DC level at the output.
pub const SILENCE_FADEOUT_START_MS: u32 = 1000;

/// Length of unbroken silence, in milliseconds, after which the output is
/// forced to exact silence.
pub const SILENCE_FADEOUT_END_MS: u32 = SILENCE_FADEOUT_START_MS + 1000;

/// What the silence fade does to every channel of one sample.
#[derive(PartialEq, Eq, Structural, Clone, Copy, Debug)]
pub enum FadeGain {
    /// The sample passes unchanged.
    Unity,
    /// The sample is multiplied by `1 - elapsed / length`, with
    /// `elapsed < length`.
    Ramp { elapsed: u64, length: u64 },
    /// The sample is replaced by exact silence.
    Mute,
}

/// The gain applied after `counter` consecutive silent samples, given the
/// fade thresholds `start <= end`.
pub open spec fn gain_at(counter: nat, start: nat, end: nat) -> FadeGain {
    if counter >= end {
        FadeGain::Mute
    } else if counter >= start {
        FadeGain::Ramp { elapsed: (counter - start) as u64, length: (end - start) as u64 }
    } else {
        FadeGain::Unity
    }
}

/// Tracks how long every channel has been exactly silent, and ramps the output
/// down to silence once that lasts long enough.
///
/// The counter never goes past `end_samples`: any longer silence behaves the
/// same as that one.
#[derive(Clone, Copy, Debug, PartialEq, Eq, Structural)]
pub struct SilenceFade {
    /// Consecutive samples on which every channel was exactly zero.
    pub silent_samples: u64,
    /// Silent samples after which the fade starts.
    pub start_samples: u64,
    /// Silent samples after which the output is muted.
    pub end_samples: u64,
}

impl SilenceFade {
    pub open spec fn wf(self) -> bool {
        &&& self.start_samples <= self.end_samples
        &&& self.silent_samples <= self.end_samples
    }

    /// The state after one sample; `silent` tells whether every channel of
    /// that sample was exactly zero.
    pub open spec fn step(self, silent: bool) -> SilenceFade {
        SilenceFade {
            silent_samples: if !silent {
                0
            } else if self.silent_samples < self.end_samples {
                (self.silent_samples + 1) as u64
            } else {
                self.end_samples
            },
            ..self
        }
    }

    /// The gain that goes with the current state, right after a sample was
    /// counted.
    pub open spec fn gain(self) -> FadeGain {
        gain_at(self.silent_samples as nat, self.start_samples as nat, self.end_samples as nat)
    }

    /// The gain applied to a sample; a sample that is not silent always
    /// passes unchanged.
    pub open spec fn gain_for(self, silent: bool) -> FadeGain {
        if silent {
            self.step(silent).gain()
        } else {
            FadeGain::Unity
        }
    }

    /// The state after a reset: as if the input had been silent for good.
    pub open spec fn reset_state(self) -> SilenceFade {
        SilenceFade { silent_samples: self.end_samples, ..self }
    }

    /// The state after `n` silent samples in a row.
    pub open spec fn after_silence(self, n: nat) -> SilenceFade
        decreases n,
    {
        if n == 0 {
            self
        } else {
            self.after_silence((n - 1) as nat).step(true)
        }
    }

    /// The fade for `sample_rate` Hz, as right after a reset.
    pub open spec fn initial(sample_rate: nat) -> SilenceFade {
        let end = samples_in_ms(SILENCE_FADEOUT_END_MS as nat, sample_rate) as u64;
        SilenceFade {
            silent_samples: end,
            start_samples: samples_in_ms(SILENCE_FADEOUT_START_MS as nat, sample_rate) as u64,
            end_samples: end,
        }
    }

    /// Sets up the fade for `sample_rate` Hz; a sample rate of zero is refused.
    /// The new state counts as having been silent for good, as after `reset`.
    pub fn new(sample_rate: u32) -> (r: Option<SilenceFade>)
        ensures
            sample_rate == 0 <==> r is None,
            r matches Some(f) ==> f.wf() && f == SilenceFade::initial(sample_rate as nat),
    {
        if sample_rate == 0 {
            return None;
        }
        let start = ms_to_samples(SILENCE_FADEOUT_START_MS, sample_rate);
        let end = ms_to_samples(SILENCE_FADEOUT_END_MS, sample_rate);
        assert(start <= end) by (nonlinear_arith)
            requires
                start == (1000 * (sample_rate as nat) + 500) / 1000,
                end == (2000 * (sample_rate as nat) + 500) / 1000,
        ;
        Some(SilenceFade { silent_samples: end, start_samples: start, end_samples: end })
    }

    /// Number of samples the fade from full level down to silence takes.
    pub fn fade_length_samples(&self) -> (r: u64)
        requires
            self.wf(),
        ensures
            r == self.end_samples - self.start_samples,
    {
        self.end_samples - self.start_samples
    }

    /// Forgets any sound heard so far: the output stays muted until a
    /// non-silent sample arrives.
    pub fn reset(&mut self)
        requires
            old(self).wf(),
        ensures
            *final(self) == old(self).reset_state(),
            final(self).wf(),
    {
        self.silent_samples = self.end_samples;
    }

    /// Counts one sample and returns the gain for it.
    pub fn observe(&mut self, silent: bool) -> (r: FadeGain)
        requires
            old(self).wf(),
        ensures
            *final(self) == old(self).step(silent),
            final(self).wf(),
            r == old(self).gain_for(silent),
    {
        if !silent {
            self.silent_samples = 0;
            return FadeGain::Unity;
        }
        if self.silent_samples < self.end_samples {
            self.silent_samples = self.silent_samples + 1;
        }
        if self.silent_samples >= self.end_samples {
            FadeGain::Mute
        } else if self.silent_samples >= self.start_samples {
            FadeGain::Ramp {
                elapsed: self.silent_samples - self.start_samples,
                length: self.end_samples - self.start_samples,
            }
        } else {
            FadeGain::Unity
        }
    }
}

/// After `n` silent samples the counter has grown by `n`, up to the end of the
/// fade.
pub proof fn lemma_after_silence_counter(f: SilenceFade, n: nat)
    requires
        f.wf(),
    ensures
        f.after_silence(n).wf(),
        f.after_silence(n).start_samples == f.start_samples,
        f.after_silence(n).end_samples == f.end_samples,
        f.after_silence(n).silent_samples == if f.silent_samples + n < f.end_samples {
            f.silent_samples + n
        } else {
            f.end_samples as int
        },
    decreases n,
{
    if n > 0 {
        lemma_after_silence_counter(f, (n - 1) as nat);
    }
}

/// Once every channel has been silent for `end_samples` samples in a row, every
/// further silent sample comes out as exact silence: for each `k >= end_samples`,
/// the sample at index `k` of the silent run is muted.
pub proof fn lemma_silence_ends_muted(f: SilenceFade, k: nat)
    requires
        f.wf(),
        k >= f.end_samples,
    ensures
        f.after_silence(k).gain_for(true) == FadeGain::Mute,
{
    lemma_after_silence_counter(f, k);
    lemma_after_silence_counter(f, k + 1);
    assert(f.after_silence(k + 1) == f.after_silence(k).step(true));
}

/// A sample that is not silent on some channel passes unchanged and resets the
/// silence counter, so the next sample starts counting from zero again.
pub proof fn lemma_sound_restarts_count(f: SilenceFade)
    requires
        f.wf(),
    ensures
        f.gain_for(false) == FadeGain::Unity,
        f.step(false).silent_samples == 0,
        f.step(false).wf(),
        f.start_samples > 1 ==> f.step(false).gain_for(true) == FadeGain::Unity,
{
}

/// Resetting twice leaves the fade where resetting once does.
pub proof fn lemma_reset_idempotent(f: SilenceFade)
    requires
        f.wf(),
    ensures
        f.reset_state().reset_state() == f.reset_state(),
        f.reset_state().wf(),
{
}

} // verus!
