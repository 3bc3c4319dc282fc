use vstd::prelude::*;

verus! {

/// How the pipeline sees one audio sample: whether it is exactly zero, and
/// otherwise on which side of zero it lies.
#[derive(PartialEq, Eq, Structural, Clone, Copy, Debug)]
pub enum SampleClass {
    /// Exactly zero (of either sign).
    Zero,
    /// Greater than zero.
    Positive,
    /// Less than zero, or not a number: neither compares as `>= 0`.
    Negative,
}

/// The two levels a hard clip can put out.
#[derive(PartialEq, Eq, Structural, Clone, Copy, Debug)]
pub enum Polarity {
    /// `+gain`
    Plus,
    /// `-gain`
    Minus,
}

/// The hard clip: any sample that is zero or above maps to `+gain`, any other
/// to `-gain`. This is not a soft saturator: there is no level in between.
pub open spec fn shape_spec(c: SampleClass) -> Polarity {
    if c is Negative {
        Polarity::Minus
    } else {
        Polarity::Plus
    }
}

/// Hard-clips one sample to the level of its sign; zero counts as
/// non-negative.
pub fn shape(c: SampleClass) -> (r: Polarity)
    ensures
        r == shape_spec(c),
        r == Polarity::Plus <==> (c is Zero || c is Positive),
        r == Polarity::Minus <==> c is Negative,
{
    match c {
        SampleClass::Negative => Polarity::Minus,
        _ => Polarity::Plus,
    }
}

impl Polarity {
    /// The factor the output gain is multiplied by.
    pub fn sign(&self) -> (r: i8)
        ensures
            *self == Polarity::Plus ==> r == 1,
            *self == Polarity::Minus ==> r == -1,
    {
        match self {
            Polarity::Plus => 1,
            Polarity::Minus => -1,
        }
    }
}

} // verus!
