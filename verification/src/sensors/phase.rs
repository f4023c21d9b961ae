//! The phase-coherence sensor: how the phases of the spectrum move from
//! frame to frame.
//!
//! Phases that agree too well across frames, or not at all, speak for
//! synthesis or manipulation; so do phases that change too evenly, and high
//! frequency phases that cluster instead of spreading.

use vstd::prelude::*;
use vstd::arithmetic::power2::lemma2_to64;
use vstd::arithmetic::power2::lemma2_to64_rest;
use crate::binary64::approximates;
use crate::binary64::at_least;
use crate::binary64::at_most;
use crate::binary64::below;
use crate::binary64::clamp_unit;
use crate::binary64::HALF;
use crate::binary64::in_unit_interval;
use crate::binary64::lemma_approximates;
use crate::binary64::lemma_unit_clamped;
use crate::binary64::less_than;
use crate::binary64::nan;
use crate::binary64::SIGN_BIT;
use crate::binary64::unit_clamped;
use crate::result::SensorResult;
use crate::score::Assessment;
use crate::score::band_score;
use crate::score::banded;
use crate::score::cap_score;
use crate::score::capped;
use crate::score::neutral;
use crate::score::SubScore;
use crate::score::WeightedScore;
use crate::sensors::judge;
use crate::sensors::lemma_scaled_samples_fit;
use crate::sensors::scale_to_rate;
use crate::sensors::scaled_samples;
use crate::sensors::verdict;

verus! {

/// The encoding of 0.65, the threshold of a sensor made without one.
pub const DEFAULT_THRESHOLD: u64 = 0x3FE4_CCCC_CCCC_CCCD;

/// The frame size at the reference rate: 32 ms.
pub const FRAME_SIZE: u32 = 512;

/// The hop size at the reference rate: 8 ms.
pub const HOP_SIZE: u32 = 128;

/// The least number of frames, and of frames that are not silent.
pub const MIN_FRAMES: usize = 2;

/// The least number of bins that two frames must share to be compared.
pub const MIN_SHARED_BINS: usize = 10;

/// The least number of bins of a frame whose high band is looked at.
pub const MIN_BAND_BINS: usize = 20;

/// The encoding of 0.4, the weight of the coherence score.
pub const COHERENCE_WEIGHT: u64 = 0x3FD9_9999_9999_999A;

/// The encoding of 0.3, the weight of the derivative score.
pub const DERIVATIVE_WEIGHT: u64 = 0x3FD3_3333_3333_3333;

/// The encoding of 0.3, the weight of the randomness score.
pub const RANDOMNESS_WEIGHT: u64 = 0x3FD3_3333_3333_3333;

/// The encodings of 0.3 and 5.0: the natural range of the mean variance of
/// the phase differences between adjacent frames.
pub const VARIANCE_MIN: u64 = 0x3FD3_3333_3333_3333;

pub const VARIANCE_MAX: u64 = 0x4014_0000_0000_0000;

/// The encodings of 0.5 and 0.7: what remains of the coherence score below
/// and above the natural range.
pub const VARIANCE_LOW_FACTOR: u64 = 0x3FE0_0000_0000_0000;

pub const VARIANCE_HIGH_FACTOR: u64 = 0x3FE6_6666_6666_6666;

/// The encodings of 0.1 and 2.0: the natural range of the mean second
/// difference of the phases.
pub const ACCELERATION_MIN: u64 = 0x3FB9_9999_9999_999A;

pub const ACCELERATION_MAX: u64 = 0x4000_0000_0000_0000;

/// The encodings of 0.5 and 0.6: what remains of the derivative score below
/// and above the natural range.
pub const ACCELERATION_LOW_FACTOR: u64 = 0x3FE0_0000_0000_0000;

pub const ACCELERATION_HIGH_FACTOR: u64 = 0x3FE3_3333_3333_3333;

/// The encoding of 0.3: the greatest natural mean deviation of the
/// normalized high band phases from 0.5.
pub const DEVIATION_MAX: u64 = 0x3FD3_3333_3333_3333;

/// The encoding of 0.7: what remains of the randomness score above it.
pub const DEVIATION_HIGH_FACTOR: u64 = 0x3FE6_6666_6666_6666;

/// The encodings of pi and of -pi: a wrapped phase lies above -pi and is at
/// most pi.
pub const PI: u64 = 0x4009_21FB_5444_2D18;

pub const NEGATIVE_PI: u64 = 0xC009_21FB_5444_2D18;

/// What brings the remainder of a phase by a full turn into the range above
/// -pi and up to pi.
#[derive(Clone, Copy, Debug, PartialEq, Eq)]
pub enum Turn {
    /// A full turn is taken off.
    Back,
    /// A full turn is added.
    Forward,
    /// The remainder lies in the range.
    Stay,
}

/// The phase-coherence sensor.
#[derive(Debug, Clone)]
pub struct PhaseSensor {
    /// The detection threshold, a binary64 encoding.
    pub threshold: u64,
    /// The sensor's name.
    pub name: String,
}

/// What was measured over the phase spectra of the frames that are not
/// silent.
#[derive(Clone, Copy, Debug, PartialEq, Eq)]
pub struct PhaseStatistics {
    /// The number of frames that are not silent.
    pub frames: usize,
    /// The number of adjacent pairs of frames that could be compared.
    pub pairs: usize,
    /// The mean over those pairs of the variance of the wrapped phase
    /// differences.
    pub mean_variance: u64,
    /// The number of adjacent triples of frames that could be compared.
    pub triples: usize,
    /// The mean over those triples of the mean absolute second difference.
    pub mean_acceleration: u64,
    /// The number of frames whose high band was looked at.
    pub banded_frames: usize,
    /// The mean over those frames of the deviation of the mean normalized
    /// high band phase from 0.5.
    pub mean_deviation: u64,
}

impl PhaseSensor {
    /// The coherence score: neutral where no pair of frames was compared.
    pub open spec fn coherence(frames: nat, pairs: nat, mean_variance: u64) -> SubScore {
        if frames < 2 || pairs == 0 {
            neutral()
        } else {
            banded(
                mean_variance,
                VARIANCE_MIN,
                VARIANCE_LOW_FACTOR,
                VARIANCE_MAX,
                VARIANCE_HIGH_FACTOR,
            )
        }
    }

    /// The derivative score: neutral where no triple of frames was compared.
    pub open spec fn continuity(frames: nat, triples: nat, mean_acceleration: u64) -> SubScore {
        if frames < 3 || triples == 0 {
            neutral()
        } else {
            banded(
                mean_acceleration,
                ACCELERATION_MIN,
                ACCELERATION_LOW_FACTOR,
                ACCELERATION_MAX,
                ACCELERATION_HIGH_FACTOR,
            )
        }
    }

    /// The randomness score: neutral where no frame had a high band to
    /// look at.
    pub open spec fn randomness(frames: nat, banded_frames: nat, mean_deviation: u64) -> SubScore {
        if frames == 0 || banded_frames == 0 {
            neutral()
        } else {
            capped(mean_deviation, DEVIATION_MAX, DEVIATION_HIGH_FACTOR)
        }
    }

    /// The three sub-scores with their weights: coherence, derivative,
    /// randomness.
    pub open spec fn coherence_scores(statistics: PhaseStatistics) -> Seq<WeightedScore> {
        let frames = statistics.frames as nat;
        seq![
            WeightedScore {
                weight: COHERENCE_WEIGHT,
                score: Self::coherence(frames, statistics.pairs as nat, statistics.mean_variance),
            },
            WeightedScore {
                weight: DERIVATIVE_WEIGHT,
                score: Self::continuity(
                    frames,
                    statistics.triples as nat,
                    statistics.mean_acceleration,
                ),
            },
            WeightedScore {
                weight: RANDOMNESS_WEIGHT,
                score: Self::randomness(
                    frames,
                    statistics.banded_frames as nat,
                    statistics.mean_deviation,
                ),
            },
        ]
    }

    /// A sensor with the given threshold, clamped to the unit interval, or
    /// with the default threshold of 0.65.
    pub fn new(threshold: Option<u64>) -> (r: Self)
        ensures
            r.threshold == unit_clamped(
                match threshold {
                    Some(t) => t,
                    None => DEFAULT_THRESHOLD,
                },
            ),
            r.name@ == "phase_sensor"@,
            !(threshold matches Some(t) && nan(t)) ==> in_unit_interval(r.threshold),
    {
        let given = match threshold {
            Some(t) => t,
            None => DEFAULT_THRESHOLD,
        };
        proof {
            lemma_unit_clamped(given);
        }
        PhaseSensor { threshold: clamp_unit(given), name: "phase_sensor".to_owned() }
    }

    /// The number of samples in a frame at this sample rate.
    pub fn frame_size(sample_rate: u32) -> (r: usize)
        ensures
            r == scaled_samples(FRAME_SIZE as nat, sample_rate as nat),
    {
        proof {
            lemma_scaled_samples_fit(FRAME_SIZE, sample_rate);
        }
        scale_to_rate(FRAME_SIZE, sample_rate)
    }

    /// The number of samples between the starts of two frames at this
    /// sample rate.
    pub fn hop_size(sample_rate: u32) -> (r: usize)
        ensures
            r == scaled_samples(HOP_SIZE as nat, sample_rate as nat),
    {
        proof {
            lemma_scaled_samples_fit(HOP_SIZE, sample_rate);
        }
        scale_to_rate(HOP_SIZE, sample_rate)
    }

    /// The sensor's verdict on a buffer, from the score measured on it.
    pub fn analyze(&self, audio: &[u64], sample_rate: u32, score: u64) -> (r: SensorResult)
        ensures
            r@ == verdict(
                self.name@,
                self.threshold,
                audio@,
                sample_rate,
                score,
                "phase_anomaly"@,
                "Phase coherence analysis passed"@,
                "Abnormal phase patterns detected"@,
            ),
            in_unit_interval(r.value),
    {
        judge(
            &self.name,
            self.threshold,
            audio,
            sample_rate,
            score,
            "phase_anomaly",
            "Phase coherence analysis passed",
            "Abnormal phase patterns detected",
        )
    }

    /// The shape of the score: neutral where the buffer holds fewer than two
    /// frames or fewer than two of them are not silent, else the three
    /// weighted sub-scores.
    pub fn compute_phase_coherence_score(
        &self,
        raw_frames: usize,
        statistics: &PhaseStatistics,
    ) -> (r: Assessment)
        ensures
            match r {
                Assessment::Neutral => raw_frames < MIN_FRAMES || statistics.frames < MIN_FRAMES,
                Assessment::Weighted(scores) => {
                    &&& raw_frames >= MIN_FRAMES
                    &&& statistics.frames >= MIN_FRAMES
                    &&& scores@ == Self::coherence_scores(*statistics)
                },
            },
    {
        if raw_frames < MIN_FRAMES || statistics.frames < MIN_FRAMES {
            return Assessment::Neutral;
        }
        let frames = statistics.frames;
        let mut scores: Vec<WeightedScore> = Vec::new();
        scores.push(
            WeightedScore {
                weight: COHERENCE_WEIGHT,
                score: self.compute_cross_frame_coherence(
                    frames,
                    statistics.pairs,
                    statistics.mean_variance,
                ),
            },
        );
        scores.push(
            WeightedScore {
                weight: DERIVATIVE_WEIGHT,
                score: self.compute_phase_derivative_score(
                    frames,
                    statistics.triples,
                    statistics.mean_acceleration,
                ),
            },
        );
        scores.push(
            WeightedScore {
                weight: RANDOMNESS_WEIGHT,
                score: self.compute_phase_randomness_score(
                    frames,
                    statistics.banded_frames,
                    statistics.mean_deviation,
                ),
            },
        );
        assert(scores@ =~= Self::coherence_scores(*statistics));
        Assessment::Weighted(scores)
    }

    /// The coherence score from the mean variance of the wrapped phase
    /// differences over the `pairs` adjacent pairs that could be compared:
    /// a low variance is too coherent, a high one too random.
    pub fn compute_cross_frame_coherence(
        &self,
        frames: usize,
        pairs: usize,
        mean_variance: u64,
    ) -> (r: SubScore)
        ensures
            r == Self::coherence(frames as nat, pairs as nat, mean_variance),
    {
        if frames < 2 || pairs == 0 {
            SubScore::Fixed(HALF)
        } else {
            band_score(
                mean_variance,
                VARIANCE_MIN,
                VARIANCE_LOW_FACTOR,
                VARIANCE_MAX,
                VARIANCE_HIGH_FACTOR,
            )
        }
    }

    /// The derivative score from the mean absolute second difference of the
    /// phases over the `triples` adjacent triples that could be compared.
    pub fn compute_phase_derivative_score(
        &self,
        frames: usize,
        triples: usize,
        mean_acceleration: u64,
    ) -> (r: SubScore)
        ensures
            r == Self::continuity(frames as nat, triples as nat, mean_acceleration),
    {
        if frames < 3 || triples == 0 {
            SubScore::Fixed(HALF)
        } else {
            band_score(
                mean_acceleration,
                ACCELERATION_MIN,
                ACCELERATION_LOW_FACTOR,
                ACCELERATION_MAX,
                ACCELERATION_HIGH_FACTOR,
            )
        }
    }

    /// The randomness score from the mean deviation of the normalized high
    /// band phases from 0.5, over the `banded_frames` frames that have a
    /// high band to look at.
    pub fn compute_phase_randomness_score(
        &self,
        frames: usize,
        banded_frames: usize,
        mean_deviation: u64,
    ) -> (r: SubScore)
        ensures
            r == Self::randomness(frames as nat, banded_frames as nat, mean_deviation),
    {
        if frames == 0 || banded_frames == 0 {
            SubScore::Fixed(HALF)
        } else {
            cap_score(mean_deviation, DEVIATION_MAX, DEVIATION_HIGH_FACTOR)
        }
    }

    /// The turn that wraps a remainder: back from above pi, forward from -pi
    /// and below, none within the range. A NaN is left as it is.
    pub open spec fn turn_of(remainder: u64) -> Turn {
        if below(PI, remainder) {
            Turn::Back
        } else if at_most(remainder, NEGATIVE_PI) {
            Turn::Forward
        } else {
            Turn::Stay
        }
    }

    /// Wraps a phase of which the remainder by a full turn is given, into
    /// the range above -pi and up to pi: a remainder above pi goes a turn
    /// back, one at or below -pi a turn forward.
    pub fn wrap_phase(remainder: u64) -> (r: Turn)
        ensures
            r == Self::turn_of(remainder),
            !nan(remainder) ==> (r == Turn::Stay) == (below(NEGATIVE_PI, remainder) && at_most(
                remainder,
                PI,
            )),
    {
        if less_than(PI, remainder) {
            Turn::Back
        } else if at_least(NEGATIVE_PI, remainder) {
            Turn::Forward
        } else {
            Turn::Stay
        }
    }

    /// The number of bins over which two phase spectra are compared: the
    /// length of the shorter, and none where that is below ten.
    pub fn shared_bins(first: usize, second: usize) -> (r: Option<usize>)
        ensures
            r == (if first < MIN_SHARED_BINS || second < MIN_SHARED_BINS {
                None
            } else if first <= second {
                Some(first)
            } else {
                Some(second)
            }),
    {
        let shorter = if first <= second {
            first
        } else {
            second
        };
        if shorter < MIN_SHARED_BINS {
            None
        } else {
            Some(shorter)
        }
    }

    /// The bin at which the high band of a phase spectrum starts: two thirds
    /// of the way up, and none for a spectrum of fewer than twenty bins.
    pub fn high_band_start(bins: usize) -> (r: Option<usize>)
        ensures
            r == (if bins < MIN_BAND_BINS {
                None
            } else {
                Some((bins * 2 / 3) as usize)
            }),
    {
        if bins < MIN_BAND_BINS {
            None
        } else {
            Some(bins / 3 * 2 + bins % 3 * 2 / 3)
        }
    }
}

/// The constants are the numbers nearest to the decimals of the rules, and
/// to pi as far as sixteen digits tell; the negative bound is the positive
/// one with the sign bit set.
pub proof fn lemma_constants()
    ensures
        approximates(DEFAULT_THRESHOLD, 65, 100),
        approximates(COHERENCE_WEIGHT, 4, 10),
        approximates(DERIVATIVE_WEIGHT, 3, 10),
        approximates(RANDOMNESS_WEIGHT, 3, 10),
        approximates(VARIANCE_MIN, 3, 10),
        approximates(VARIANCE_MAX, 5, 1),
        approximates(VARIANCE_LOW_FACTOR, 1, 2),
        approximates(VARIANCE_HIGH_FACTOR, 7, 10),
        approximates(ACCELERATION_MIN, 1, 10),
        approximates(ACCELERATION_MAX, 2, 1),
        approximates(ACCELERATION_LOW_FACTOR, 1, 2),
        approximates(ACCELERATION_HIGH_FACTOR, 6, 10),
        approximates(DEVIATION_MAX, 3, 10),
        approximates(DEVIATION_HIGH_FACTOR, 7, 10),
        approximates(PI, 3141592653589793, 1000000000000000),
        NEGATIVE_PI == PI + SIGN_BIT,
{
    lemma2_to64();
    lemma2_to64_rest();
    lemma_approximates(DEFAULT_THRESHOLD, 65, 100);
    lemma_approximates(COHERENCE_WEIGHT, 4, 10);
    lemma_approximates(DERIVATIVE_WEIGHT, 3, 10);
    lemma_approximates(RANDOMNESS_WEIGHT, 3, 10);
    lemma_approximates(VARIANCE_MIN, 3, 10);
    lemma_approximates(VARIANCE_MAX, 5, 1);
    lemma_approximates(VARIANCE_LOW_FACTOR, 1, 2);
    lemma_approximates(VARIANCE_HIGH_FACTOR, 7, 10);
    lemma_approximates(ACCELERATION_MIN, 1, 10);
    lemma_approximates(ACCELERATION_MAX, 2, 1);
    lemma_approximates(ACCELERATION_LOW_FACTOR, 1, 2);
    lemma_approximates(ACCELERATION_HIGH_FACTOR, 6, 10);
    lemma_approximates(DEVIATION_MAX, 3, 10);
    lemma_approximates(DEVIATION_HIGH_FACTOR, 7, 10);
    lemma_approximates(PI, 3141592653589793, 1000000000000000);
}

} // verus!
