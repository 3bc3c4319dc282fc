use distorto::shaper::{shape, Polarity, SampleClass};

#[test]
fn zero_clips_to_plus() {
    assert_eq!(shape(SampleClass::Zero), Polarity::Plus);
}

#[test]
fn sign_decides_the_level() {
    assert_eq!(shape(SampleClass::Positive), Polarity::Plus);
    assert_eq!(shape(SampleClass::Negative), Polarity::Minus);
}

#[test]
fn polarity_signs() {
    assert_eq!(Polarity::Plus.sign(), 1);
    assert_eq!(Polarity::Minus.sign(), -1);
}
