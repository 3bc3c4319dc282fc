use vstd::prelude::*;

verus! {

/// Number of samples in `ms` milliseconds at `sample_rate` Hz, rounded to the
/// nearest integer with halves rounded up: `round(ms / 1000 * sample_rate)`.
pub open spec fn samples_in_ms(ms: nat, sample_rate: nat) -> nat {
    (ms * sample_rate + 500) / 1000
}

/// Converts a duration in milliseconds to a whole number of samples.
pub fn ms_to_samples(ms: u32, sample_rate: u32) -> (r: u64)
    ensures
        r == samples_in_ms(ms as nat, sample_rate as nat),
{
    assert((ms as nat) * (sample_rate as nat) <= 0xffff_fffe_0000_0001nat) by (nonlinear_arith)
        requires
            ms <= 0xffff_ffffu32,
            sample_rate <= 0xffff_ffffu32,
    ;
    let product: u64 = (ms as u64) * (sample_rate as u64);
    (product + 500) / 1000
}

} // verus!
