use vstd::prelude::*;

verus! {

/// The waveform a test-tone generator produces.
#[derive(PartialEq, Eq, Structural, Clone, Copy, Debug)]
pub enum Wave {
    Sine,
    Sawtooth,
    Triangle,
    Square,
    Pulse,
}

} // verus!
