//! The shapes that a detector's rules give to its scores.
//!
//! A rule decides from a measured statistic which formula the score follows.
//! The formula is handed back as a value: dividing and multiplying round, and
//! rounding is done where the measuring is done.

use vstd::prelude::*;
use crate::binary64::below;
use crate::binary64::HALF;
use crate::binary64::less_than;
use crate::binary64::ONE;

verus! {

/// A sub-score, as far as a rule can decide it.
#[derive(Clone, Copy, Debug, PartialEq, Eq)]
pub enum SubScore {
    /// The score is this number.
    Fixed(u64),
    /// The score is the quotient of `numerator` by `denominator`, capped at
    /// 1.0, times `factor`.
    Scaled { numerator: u64, denominator: u64, factor: u64 },
}

/// One sub-score and its weight in the detector's score.
#[derive(Clone, Copy, Debug, PartialEq, Eq)]
pub struct WeightedScore {
    /// The weight, a number between 0.0 and 1.0.
    pub weight: u64,
    /// The sub-score.
    pub score: SubScore,
}

/// A detector's score, as far as its rules can decide it.
#[derive(Debug)]
pub enum Assessment {
    /// There is too little to judge: the score is the neutral 0.5.
    Neutral,
    /// The score is the sum, in this order, of the sub-scores times their
    /// weights.
    Weighted(Vec<WeightedScore>),
}

/// The neutral sub-score, 0.5: there is too little to judge.
pub open spec fn neutral() -> SubScore {
    SubScore::Fixed(HALF)
}

/// The full sub-score, 1.0: the statistic lies in its natural range.
pub open spec fn full() -> SubScore {
    SubScore::Fixed(ONE)
}

/// The score of a statistic with a natural range from `low` to `high`.
/// Below the range the score falls with the statistic, above it the score
/// falls as the statistic grows, each with its own factor. A NaN is neither
/// below nor above.
pub open spec fn banded(
    statistic: u64,
    low: u64,
    low_factor: u64,
    high: u64,
    high_factor: u64,
) -> SubScore {
    if below(statistic, low) {
        SubScore::Scaled { numerator: statistic, denominator: low, factor: low_factor }
    } else if below(high, statistic) {
        SubScore::Scaled { numerator: high, denominator: statistic, factor: high_factor }
    } else {
        full()
    }
}

/// The score of a statistic that is natural from `low` upwards.
pub open spec fn floored(statistic: u64, low: u64, low_factor: u64) -> SubScore {
    if below(statistic, low) {
        SubScore::Scaled { numerator: statistic, denominator: low, factor: low_factor }
    } else {
        full()
    }
}

/// The score of a statistic that is natural up to `high`.
pub open spec fn capped(statistic: u64, high: u64, high_factor: u64) -> SubScore {
    if below(high, statistic) {
        SubScore::Scaled { numerator: high, denominator: statistic, factor: high_factor }
    } else {
        full()
    }
}

/// Scores a statistic against its natural range.
pub fn band_score(statistic: u64, low: u64, low_factor: u64, high: u64, high_factor: u64) -> (r:
    SubScore)
    ensures
        r == banded(statistic, low, low_factor, high, high_factor),
{
    if less_than(statistic, low) {
        SubScore::Scaled { numerator: statistic, denominator: low, factor: low_factor }
    } else if less_than(high, statistic) {
        SubScore::Scaled { numerator: high, denominator: statistic, factor: high_factor }
    } else {
        SubScore::Fixed(ONE)
    }
}

/// Scores a statistic against the lower end of its natural range.
pub fn floor_score(statistic: u64, low: u64, low_factor: u64) -> (r: SubScore)
    ensures
        r == floored(statistic, low, low_factor),
{
    if less_than(statistic, low) {
        SubScore::Scaled { numerator: statistic, denominator: low, factor: low_factor }
    } else {
        SubScore::Fixed(ONE)
    }
}

/// Scores a statistic against the upper end of its natural range.
pub fn cap_score(statistic: u64, high: u64, high_factor: u64) -> (r: SubScore)
    ensures
        r == capped(statistic, high, high_factor),
{
    if less_than(high, statistic) {
        SubScore::Scaled { numerator: high, denominator: statistic, factor: high_factor }
    } else {
        SubScore::Fixed(ONE)
    }
}

} // verus!
