use vstd::prelude::*;

use crate::fade::{
    lemma_silence_ends_muted, FadeGain, SilenceFade,
};
use crate::shaper::{shape, shape_spec, Polarity, SampleClass};

verus! {

/// Why a pipeline cannot be set up.
#[derive(PartialEq, Eq, Structural, Clone, Copy, Debug)]
pub enum ConfigError {
    /// The host negotiated no output channel.
    NoChannels,
    /// The sample rate is zero.
    ZeroSampleRate,
}

/// One sample of every channel, as it reaches the pipeline.
#[derive(Clone, Debug)]
pub struct FrameInput {
    /// The distortion amount's smoothed value as of the previous sample; the
    /// filter bank is engaged while it is above zero.
    pub distortion: SampleClass,
    /// Each channel's sample as it came in.
    pub raw: Vec<SampleClass>,
    /// Each channel's sample after the filter bank; only read while the
    /// filter bank is engaged.
    pub filtered: Vec<SampleClass>,
}

/// What the pipeline makes of one sample of every channel.
#[derive(Clone, Debug)]
pub struct FrameOutput {
    /// The hard-clipped level of each channel, before the silence fade.
    pub polarities: Vec<Polarity>,
    /// The silence fade applied to every channel of the sample.
    pub fade: FadeGain,
}

/// Whether the filter bank runs on a sample, given the distortion amount's
/// previous smoothed value.
pub open spec fn engaged_spec(distortion: SampleClass) -> bool {
    distortion is Positive
}

/// Whether every channel of the sample is exactly zero.
pub open spec fn silent_spec(raw: Seq<SampleClass>) -> bool {
    forall|i: int| 0 <= i < raw.len() ==> (#[trigger] raw[i]) is Zero
}

/// The sample each channel's hard clip sees.
pub open spec fn shaper_input(frame: FrameInput, i: int) -> SampleClass {
    if engaged_spec(frame.distortion) {
        frame.filtered@[i]
    } else {
        frame.raw@[i]
    }
}

/// The hard-clipped level of every channel of a sample.
pub open spec fn polarities_spec(frame: FrameInput) -> Seq<Polarity> {
    Seq::new(frame.raw@.len(), |i: int| shape_spec(shaper_input(frame, i)))
}

/// A frame carries one sample for each of `channels` channels.
pub open spec fn frame_fits(frame: FrameInput, channels: nat) -> bool {
    &&& frame.raw@.len() == channels
    &&& engaged_spec(frame.distortion) ==> frame.filtered@.len() == channels
}

/// The silence fade after the first `n` frames of a block.
pub open spec fn fade_after(fade: SilenceFade, block: Seq<FrameInput>, n: nat) -> SilenceFade
    decreases n,
{
    if n == 0 {
        fade
    } else {
        fade_after(fade, block, (n - 1) as nat).step(silent_spec(block[n - 1].raw@))
    }
}

/// Whether the filter bank runs on a sample, given the distortion amount's
/// previous smoothed value. Reading the previous value, rather than advancing
/// the smoother once more, keeps the decision in step with the ramp.
pub fn filters_engaged(distortion: SampleClass) -> (r: bool)
    ensures
        r == engaged_spec(distortion),
{
    match distortion {
        SampleClass::Positive => true,
        _ => false,
    }
}

/// The distortion pipeline's per-sample decisions: hard clip of each channel,
/// and the silence fade shared by all of them.
#[derive(Clone, Copy, Debug, PartialEq, Eq, Structural)]
pub struct Pipeline {
    /// Number of output channels, fixed for the session.
    pub channels: usize,
    /// The silence fade shared by all channels.
    pub fade: SilenceFade,
}

impl Pipeline {
    pub open spec fn wf(self) -> bool {
        &&& self.channels > 0
        &&& self.fade.wf()
    }

    /// The pipeline after a reset: the channel count stays, and the fade
    /// stands as if the input had been silent for good.
    pub open spec fn reset_state(self) -> Pipeline {
        Pipeline { fade: self.fade.reset_state(), ..self }
    }

    /// Sets up the pipeline for `channels` channels at `sample_rate` Hz. The
    /// pipeline starts out as after `reset`.
    pub fn new(sample_rate: u32, channels: usize) -> (r: Result<Pipeline, ConfigError>)
        ensures
            r matches Err(e) ==> e == if channels == 0 {
                ConfigError::NoChannels
            } else {
                ConfigError::ZeroSampleRate
            },
            r is Ok <==> channels > 0 && sample_rate > 0,
            r matches Ok(p) ==> {
                &&& p.wf()
                &&& p.channels == channels
                &&& p.fade == SilenceFade::initial(sample_rate as nat)
            },
    {
        if channels == 0 {
            return Err(ConfigError::NoChannels);
        }
        match SilenceFade::new(sample_rate) {
            Some(fade) => Ok(Pipeline { channels, fade }),
            None => Err(ConfigError::ZeroSampleRate),
        }
    }

    /// Clears all state between processing sessions.
    pub fn reset(&mut self)
        requires
            old(self).wf(),
        ensures
            final(self).wf(),
            *final(self) == old(self).reset_state(),
    {
        self.fade.reset();
    }

    /// Runs one sample of every channel through the hard clip and the
    /// silence fade.
    pub fn process_frame(&mut self, frame: &FrameInput) -> (r: FrameOutput)
        requires
            old(self).wf(),
            frame_fits(*frame, old(self).channels as nat),
        ensures
            final(self).wf(),
            final(self).channels == old(self).channels,
            final(self).fade == old(self).fade.step(silent_spec(frame.raw@)),
            r.polarities@ == polarities_spec(*frame),
            r.fade == old(self).fade.gain_for(silent_spec(frame.raw@)),
    {
        let engaged = filters_engaged(frame.distortion);
        let mut silent = true;
        let mut polarities: Vec<Polarity> = Vec::new();
        let n = frame.raw.len();
        let mut i: usize = 0;
        while i < n
            invariant
                n == frame.raw@.len(),
                engaged == engaged_spec(frame.distortion),
                frame_fits(*frame, n as nat),
                i <= n,
                polarities@.len() == i,
                forall|j: int| 0 <= j < i ==> polarities@[j] == shape_spec(shaper_input(*frame, j)),
                silent == (forall|j: int| 0 <= j < i ==> (#[trigger] frame.raw@[j]) is Zero),
            decreases n - i,
        {
            let raw = frame.raw[i];
            silent = silent && (raw == SampleClass::Zero);
            let input = if engaged {
                frame.filtered[i]
            } else {
                raw
            };
            polarities.push(shape(input));
            i = i + 1;
        }
        assert(polarities@ =~= polarities_spec(*frame));
        let fade = self.fade.observe(silent);
        FrameOutput { polarities, fade }
    }

    /// Runs a block of samples, in order, through the pipeline. An empty
    /// block changes nothing.
    pub fn process_block(&mut self, block: &Vec<FrameInput>) -> (r: Vec<FrameOutput>)
        requires
            old(self).wf(),
            forall|k: int|
                0 <= k < block@.len() ==> frame_fits(#[trigger] block@[k], old(self).channels as nat),
        ensures
            final(self).wf(),
            final(self).channels == old(self).channels,
            final(self).fade == fade_after(old(self).fade, block@, block@.len()),
            r@.len() == block@.len(),
            forall|k: int|
                0 <= k < block@.len() ==> {
                    &&& (#[trigger] r@[k]).polarities@ == polarities_spec(block@[k])
                    &&& r@[k].fade == fade_after(old(self).fade, block@, k as nat).gain_for(
                        silent_spec(block@[k].raw@),
                    )
                },
    {
        let ghost start = self.fade;
        let mut out: Vec<FrameOutput> = Vec::new();
        let mut k: usize = 0;
        while k < block.len()
            invariant
                self.wf(),
                self.channels == old(self).channels,
                start == old(self).fade,
                forall|m: int|
                    0 <= m < block@.len() ==> frame_fits(#[trigger] block@[m], self.channels as nat),
                k <= block@.len(),
                self.fade == fade_after(start, block@, k as nat),
                out@.len() == k,
                forall|m: int|
                    0 <= m < k ==> {
                        &&& (#[trigger] out@[m]).polarities@ == polarities_spec(block@[m])
                        &&& out@[m].fade == fade_after(start, block@, m as nat).gain_for(
                            silent_spec(block@[m].raw@),
                        )
                    },
            decreases block@.len() - k,
        {
            let frame_out = self.process_frame(&block[k]);
            out.push(frame_out);
            k = k + 1;
        }
        out
    }
}

/// While the filter bank is bypassed, the pipeline's output for a sample does
/// not depend on what the filter bank would have made of it.
pub proof fn lemma_bypass_ignores_filters(a: FrameInput, b: FrameInput, fade: SilenceFade)
    requires
        !engaged_spec(a.distortion),
        a.distortion == b.distortion,
        a.raw@ == b.raw@,
    ensures
        polarities_spec(a) == polarities_spec(b),
        fade.step(silent_spec(a.raw@)) == fade.step(silent_spec(b.raw@)),
        fade.gain_for(silent_spec(a.raw@)) == fade.gain_for(silent_spec(b.raw@)),
{
    assert(polarities_spec(a) =~= polarities_spec(b));
}

/// Every level the pipeline puts out before the fade is `+gain` or `-gain`,
/// and a sample that reaches the hard clip as zero or above comes out as
/// `+gain`.
pub proof fn lemma_two_levels(frame: FrameInput, i: int)
    requires
        0 <= i < frame.raw@.len(),
    ensures
        polarities_spec(frame)[i] == Polarity::Plus <==> !(shaper_input(frame, i) is Negative),
        polarities_spec(frame)[i] == Polarity::Minus <==> shaper_input(frame, i) is Negative,
{
}

/// A block of no samples leaves the silence fade as it was.
pub proof fn lemma_empty_block(fade: SilenceFade, block: Seq<FrameInput>)
    requires
        block.len() == 0,
    ensures
        fade_after(fade, block, block.len()) == fade,
{
}

/// Over a block in which every channel is silent, the fade counts the frames
/// one by one, as a plain run of silence does.
proof fn lemma_silent_block_counts(fade: SilenceFade, block: Seq<FrameInput>, n: nat)
    requires
        fade.wf(),
        n <= block.len(),
        forall|k: int| 0 <= k < block.len() ==> silent_spec(#[trigger] block[k].raw@),
    ensures
        fade_after(fade, block, n) == fade.after_silence(n),
    decreases n,
{
    if n > 0 {
        lemma_silent_block_counts(fade, block, (n - 1) as nat);
        assert(silent_spec(block[n - 1].raw@));
    }
}

/// When every channel is exactly silent for a whole block, every frame from
/// index `end_samples` on comes out muted, wherever the fade stood before.
pub proof fn lemma_silent_block_mutes(fade: SilenceFade, block: Seq<FrameInput>, k: nat)
    requires
        fade.wf(),
        fade.end_samples <= k < block.len(),
        forall|m: int| 0 <= m < block.len() ==> silent_spec(#[trigger] block[m].raw@),
    ensures
        fade_after(fade, block, k).gain_for(silent_spec(block[k as int].raw@)) == FadeGain::Mute,
{
    lemma_silent_block_counts(fade, block, k);
    lemma_silence_ends_muted(fade, k);
    assert(silent_spec(block[k as int].raw@));
}

/// A frame in which some channel is not exactly zero passes unfaded and sets
/// the silence count back to zero for the frame after it.
pub proof fn lemma_sound_resets_block_count(fade: SilenceFade, block: Seq<FrameInput>, k: nat)
    requires
        fade.wf(),
        k < block.len(),
        !silent_spec(block[k as int].raw@),
    ensures
        fade_after(fade, block, k).gain_for(silent_spec(block[k as int].raw@)) == FadeGain::Unity,
        fade_after(fade, block, k + 1).silent_samples == 0,
{
    assert(fade_after(fade, block, k + 1) == fade_after(fade, block, k).step(
        silent_spec(block[k as int].raw@),
    ));
}

/// Resetting a pipeline twice leaves it where resetting once does.
pub proof fn lemma_pipeline_reset_idempotent(p: Pipeline)
    requires
        p.wf(),
    ensures
        p.reset_state().wf(),
        p.reset_state().reset_state() == p.reset_state(),
{
}

} // verus!
