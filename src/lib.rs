//! The decisions of a hard-clip distortion's per-sample pipeline: how long
//! parameter ramps and silence thresholds last, when the filter bank runs,
//! which level the hard clip puts out, and how silent input fades to zero.
//! The arithmetic on audio samples is left to the caller.

pub mod fade;
pub mod pipeline;
pub mod shaper;
pub mod smoother;
pub mod timing;
pub mod tone;
