use distorto::fade::{FadeGain, SilenceFade};

fn fade_48k() -> SilenceFade {
    SilenceFade::new(48000).unwrap()
}

#[test]
fn zero_sample_rate_is_refused() {
    assert!(SilenceFade::new(0).is_none());
}

#[test]
fn thresholds_follow_the_sample_rate() {
    let f = fade_48k();
    assert_eq!(f.start_samples, 48000);
    assert_eq!(f.end_samples, 96000);
    assert_eq!(f.fade_length_samples(), 48000);
    // A new fade starts as after a reset: muted.
    assert_eq!(f.silent_samples, 96000);
    let mut g = f;
    assert_eq!(g.observe(true), FadeGain::Mute);
}

#[test]
fn fade_starts_silent_after_reset() {
    let mut f = fade_48k();
    assert_eq!(f.observe(false), FadeGain::Unity);
    assert_eq!(f.silent_samples, 0);
    f.reset();
    assert_eq!(f.silent_samples, 96000);
    assert_eq!(f.observe(true), FadeGain::Mute);
}

#[test]
fn long_silence_ramps_then_mutes() {
    let mut f = fade_48k();
    assert_eq!(f.observe(false), FadeGain::Unity);
    let mut gains = Vec::new();
    for _ in 0..100000 {
        gains.push(f.observe(true));
    }
    // The k-th silent sample (from zero) has counted k + 1 samples.
    for k in 0..47999 {
        assert_eq!(gains[k], FadeGain::Unity);
    }
    assert_eq!(gains[47999], FadeGain::Ramp { elapsed: 0, length: 48000 });
    assert_eq!(gains[48000], FadeGain::Ramp { elapsed: 1, length: 48000 });
    assert_eq!(gains[95998], FadeGain::Ramp { elapsed: 47999, length: 48000 });
    for k in 95999..100000 {
        assert_eq!(gains[k], FadeGain::Mute);
    }
    assert_eq!(f.silent_samples, 96000);
}

#[test]
fn one_sound_sample_restarts_the_count() {
    let mut f = fade_48k();
    for _ in 0..50000 {
        f.observe(true);
    }
    assert_eq!(f.observe(false), FadeGain::Unity);
    assert_eq!(f.silent_samples, 0);
    assert_eq!(f.observe(true), FadeGain::Unity);
    assert_eq!(f.silent_samples, 1);
}

#[test]
fn reset_twice_equals_reset_once() {
    let mut a = fade_48k();
    a.observe(false);
    a.observe(true);
    let mut b = a;
    a.reset();
    b.reset();
    b.reset();
    assert_eq!(a, b);
}
