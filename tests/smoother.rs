use distorto::smoother::{Ramp, RampStep};

#[test]
fn ten_ms_at_one_khz_takes_ten_steps() {
    let mut r = Ramp::new();
    r.configure(10, 1000);
    assert_eq!(r.total_steps, 10);
    for k in 1..=10u64 {
        assert!(!r.is_settled());
        assert_eq!(r.next(), RampStep::Advance { done: k, total: 10 });
    }
    assert!(r.is_settled());
    for _ in 0..3 {
        assert_eq!(r.next(), RampStep::Settled);
    }
}

#[test]
fn ten_step_linear_ramp_values() {
    // Linear law from 0.0 to 1.0: the value after `done` steps is done / total.
    let mut r = Ramp::new();
    r.configure(10, 1000);
    let mut values = Vec::new();
    for _ in 0..12 {
        let v = match r.next() {
            RampStep::Advance { done, total } => done as f64 / total as f64,
            RampStep::Settled => 1.0,
        };
        values.push(v);
    }
    let expected = [0.1, 0.2, 0.3, 0.4, 0.5, 0.6, 0.7, 0.8, 0.9, 1.0, 1.0, 1.0];
    for (v, e) in values.iter().zip(expected.iter()) {
        assert!((v - e).abs() < 1e-12);
    }
    assert_eq!(values[9], 1.0);
}

#[test]
fn zero_ramp_settles_at_once() {
    let mut r = Ramp::new();
    r.configure(0, 48000);
    assert!(r.is_settled());
    assert_eq!(r.next(), RampStep::Settled);
}

#[test]
fn new_ramp_is_settled() {
    let mut r = Ramp::new();
    assert!(r.is_settled());
    assert_eq!(r.next(), RampStep::Settled);
}

#[test]
fn reconfiguring_restarts_the_ramp() {
    let mut r = Ramp::new();
    r.configure(10, 1000);
    r.next();
    r.next();
    r.configure(30, 1000);
    assert_eq!(r.next(), RampStep::Advance { done: 1, total: 30 });
}
