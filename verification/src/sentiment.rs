//! What the sentiment classifier says about one text.

use vstd::prelude::*;

verus! {

/// The categorical label the classifier assigns to a text.
#[derive(Clone, Copy, Debug, PartialEq, Eq, Structural)]
pub enum Polarity {
    Positive,
    Negative,
    Neutral,
}

/// The classifier's verdict on one text.
///
/// The confidence is carried as the bit pattern of an IEEE-754 double
/// (`f64::to_bits`); nothing in this crate interprets it.
#[derive(Clone, Copy, Debug, PartialEq, Eq, Structural)]
pub struct Sentiment {
    pub polarity: Polarity,
    pub score_bits: u64,
}

impl Sentiment {
    /// Whether the verdict is positive, whatever the confidence.
    pub open spec fn positive(self) -> bool {
        self.polarity == Polarity::Positive
    }

    pub fn new(polarity: Polarity, score_bits: u64) -> (s: Sentiment)
        ensures
            s == (Sentiment { polarity, score_bits }),
    {
        Sentiment { polarity, score_bits }
    }

    pub fn is_positive(&self) -> (b: bool)
        ensures
            b == self.positive(),
    {
        self.polarity == Polarity::Positive
    }
}

} // verus!
