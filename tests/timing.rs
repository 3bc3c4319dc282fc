use distorto::timing::ms_to_samples;

#[test]
fn whole_seconds_convert_exactly() {
    assert_eq!(ms_to_samples(1000, 48000), 48000);
    assert_eq!(ms_to_samples(2000, 48000), 96000);
    assert_eq!(ms_to_samples(1000, 44100), 44100);
}

#[test]
fn short_ramps_convert_to_steps() {
    assert_eq!(ms_to_samples(10, 1000), 10);
    assert_eq!(ms_to_samples(30, 44100), 1323);
    assert_eq!(ms_to_samples(0, 48000), 0);
}

#[test]
fn fractions_round_to_nearest_with_halves_up() {
    // 1 ms at 44.1 kHz is 44.1 samples.
    assert_eq!(ms_to_samples(1, 44100), 44);
    // 1 ms at 500 Hz is half a sample.
    assert_eq!(ms_to_samples(1, 500), 1);
    // 1 ms at 499 Hz is just under half a sample.
    assert_eq!(ms_to_samples(1, 499), 0);
    assert_eq!(ms_to_samples(3, 44100), 132);
}

#[test]
fn largest_inputs_do_not_overflow() {
    let r = ms_to_samples(u32::MAX, u32::MAX);
    assert_eq!(r, ((u32::MAX as u64) * (u32::MAX as u64) + 500) / 1000);
}
