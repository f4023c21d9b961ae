//! The source-filter sensor: how steady the spectral envelope of a voice is.
//!
//! A natural voice varies within bounds. Spectral centroid, bandwidth and
//! energy that hardly move from frame to frame, or that move wildly, speak
//! for synthesis; so does a centroid that jumps between frames.

use vstd::prelude::*;
use vstd::arithmetic::power2::lemma2_to64;
use vstd::arithmetic::power2::lemma2_to64_rest;
use crate::binary64::approximates;
use crate::binary64::below;
use crate::binary64::clamp_unit;
use crate::binary64::HALF;
use crate::binary64::in_unit_interval;
use crate::binary64::lemma_approximates;
use crate::binary64::lemma_unit_clamped;
use crate::binary64::nan;
use crate::binary64::ONE;
use crate::binary64::unit_clamped;
use crate::result::SensorResult;
use crate::score::Assessment;
use crate::score::band_score;
use crate::score::banded;
use crate::score::cap_score;
use crate::score::capped;
use crate::score::neutral;
use crate::score::SubScore;
use crate::score::WeightedScore;
use crate::sensors::judge;
use crate::sensors::lemma_scaled_samples_fit;
use crate::sensors::scale_to_rate;
use crate::sensors::scaled_samples;
use crate::sensors::verdict;

verus! {

/// The encoding of 0.7, the threshold of a sensor made without one.
pub const DEFAULT_THRESHOLD: u64 = 0x3FE6_6666_6666_6666;

/// The frame size at the reference rate: 25 ms.
pub const FRAME_SIZE: u32 = 400;

/// The hop size at the reference rate: 10 ms.
pub const HOP_SIZE: u32 = 160;

/// The least number of frames that are not silent.
pub const MIN_FRAMES: usize = 3;

/// The encoding of 0.25, the weight of each of the four sub-scores.
pub const WEIGHT: u64 = 0x3FD0_0000_0000_0000;

/// The encodings of 50.0 and 500.0: the natural range, in Hz, of the
/// standard deviation of the spectral centroid.
pub const CENTROID_MIN: u64 = 0x4049_0000_0000_0000;

pub const CENTROID_MAX: u64 = 0x407F_4000_0000_0000;

/// The encodings of 20.0 and 200.0: the natural range, in Hz, of the
/// standard deviation of the spectral bandwidth.
pub const BANDWIDTH_MIN: u64 = 0x4034_0000_0000_0000;

pub const BANDWIDTH_MAX: u64 = 0x4069_0000_0000_0000;

/// The encodings of 0.01 and 0.5: the natural range of the standard
/// deviation of the RMS energy.
pub const ENERGY_MIN: u64 = 0x3F84_7AE1_47AE_147B;

pub const ENERGY_MAX: u64 = 0x3FE0_0000_0000_0000;

/// The encoding of 200.0: the greatest natural mean step, in Hz, of the
/// spectral centroid from one frame to the next.
pub const STEP_MAX: u64 = 0x4069_0000_0000_0000;

/// The source-filter sensor.
#[derive(Debug, Clone)]
pub struct VacuumSensor {
    /// The detection threshold, a binary64 encoding.
    pub threshold: u64,
    /// The sensor's name.
    pub name: String,
}

/// What was measured over the frames that are not silent.
#[derive(Clone, Copy, Debug, PartialEq, Eq)]
pub struct VacuumStatistics {
    /// The number of frames that are not silent.
    pub frames: usize,
    /// The sample standard deviation of the spectral centroid, in Hz.
    pub centroid_deviation: u64,
    /// The sample standard deviation of the spectral bandwidth, in Hz.
    pub bandwidth_deviation: u64,
    /// The sample standard deviation of the RMS energy.
    pub energy_deviation: u64,
    /// The mean absolute step of the centroid between adjacent frames, in Hz.
    pub mean_centroid_step: u64,
}

impl VacuumSensor {
    /// The stability of a feature measured on `count` frames: neutral for
    /// fewer than two frames, else by the natural range of its deviation.
    pub open spec fn stability(count: nat, deviation: u64, min_var: u64, max_var: u64) -> SubScore {
        if count < 2 {
            neutral()
        } else {
            banded(deviation, min_var, ONE, max_var, ONE)
        }
    }

    /// The smoothness of the centroid over `count` frames: neutral for fewer
    /// than two frames, else by the greatest natural mean step.
    pub open spec fn smoothness(count: nat, mean_step: u64) -> SubScore {
        if count < 2 {
            neutral()
        } else {
            capped(mean_step, STEP_MAX, ONE)
        }
    }

    /// The four sub-scores with their weights: stability of centroid,
    /// bandwidth and energy, and smoothness of the centroid.
    pub open spec fn pattern_scores(statistics: VacuumStatistics) -> Seq<WeightedScore> {
        let count = statistics.frames as nat;
        seq![
            WeightedScore {
                weight: WEIGHT,
                score: Self::stability(
                    count,
                    statistics.centroid_deviation,
                    CENTROID_MIN,
                    CENTROID_MAX,
                ),
            },
            WeightedScore {
                weight: WEIGHT,
                score: Self::stability(
                    count,
                    statistics.bandwidth_deviation,
                    BANDWIDTH_MIN,
                    BANDWIDTH_MAX,
                ),
            },
            WeightedScore {
                weight: WEIGHT,
                score: Self::stability(count, statistics.energy_deviation, ENERGY_MIN, ENERGY_MAX),
            },
            WeightedScore {
                weight: WEIGHT,
                score: Self::smoothness(count, statistics.mean_centroid_step),
            },
        ]
    }

    /// A sensor with the given threshold, clamped to the unit interval, or
    /// with the default threshold of 0.7.
    pub fn new(threshold: Option<u64>) -> (r: Self)
        ensures
            r.threshold == unit_clamped(
                match threshold {
                    Some(t) => t,
                    None => DEFAULT_THRESHOLD,
                },
            ),
            r.name@ == "vacuum_sensor"@,
            !(threshold matches Some(t) && nan(t)) ==> in_unit_interval(r.threshold),
    {
        let given = match threshold {
            Some(t) => t,
            None => DEFAULT_THRESHOLD,
        };
        proof {
            lemma_unit_clamped(given);
        }
        VacuumSensor { threshold: clamp_unit(given), name: "vacuum_sensor".to_owned() }
    }

    /// The number of samples in a frame at this sample rate.
    pub fn frame_size(sample_rate: u32) -> (r: usize)
        ensures
            r == scaled_samples(FRAME_SIZE as nat, sample_rate as nat),
    {
        proof {
            lemma_scaled_samples_fit(FRAME_SIZE, sample_rate);
        }
        scale_to_rate(FRAME_SIZE, sample_rate)
    }

    /// The number of samples between the starts of two frames at this
    /// sample rate.
    pub fn hop_size(sample_rate: u32) -> (r: usize)
        ensures
            r == scaled_samples(HOP_SIZE as nat, sample_rate as nat),
    {
        proof {
            lemma_scaled_samples_fit(HOP_SIZE, sample_rate);
        }
        scale_to_rate(HOP_SIZE, sample_rate)
    }

    /// The sensor's verdict on a buffer, from the score measured on it.
    pub fn analyze(&self, audio: &[u64], sample_rate: u32, score: u64) -> (r: SensorResult)
        ensures
            r@ == verdict(
                self.name@,
                self.threshold,
                audio@,
                sample_rate,
                score,
                "sfm_anomaly"@,
                "Source-filter model analysis passed"@,
                "Potential synthetic audio detected"@,
            ),
            in_unit_interval(r.value),
    {
        judge(
            &self.name,
            self.threshold,
            audio,
            sample_rate,
            score,
            "sfm_anomaly",
            "Source-filter model analysis passed",
            "Potential synthetic audio detected",
        )
    }

    /// The shape of the score: neutral where fewer than three frames are not
    /// silent, else the four weighted sub-scores.
    pub fn compute_sfm_score(&self, statistics: &VacuumStatistics) -> (r: Assessment)
        ensures
            match r {
                Assessment::Neutral => statistics.frames < MIN_FRAMES,
                Assessment::Weighted(scores) => {
                    &&& statistics.frames >= MIN_FRAMES
                    &&& scores@ == Self::pattern_scores(*statistics)
                },
            },
    {
        if statistics.frames < MIN_FRAMES {
            Assessment::Neutral
        } else {
            self.analyze_patterns(statistics)
        }
    }

    /// The four weighted sub-scores of the measured features; neutral where
    /// there is no frame.
    pub fn analyze_patterns(&self, statistics: &VacuumStatistics) -> (r: Assessment)
        ensures
            match r {
                Assessment::Neutral => statistics.frames == 0,
                Assessment::Weighted(scores) => {
                    &&& statistics.frames > 0
                    &&& scores@ == Self::pattern_scores(*statistics)
                },
            },
    {
        if statistics.frames == 0 {
            return Assessment::Neutral;
        }
        let count = statistics.frames;
        let mut scores: Vec<WeightedScore> = Vec::new();
        scores.push(
            WeightedScore {
                weight: WEIGHT,
                score: self.compute_stability_score(
                    count,
                    statistics.centroid_deviation,
                    CENTROID_MIN,
                    CENTROID_MAX,
                ),
            },
        );
        scores.push(
            WeightedScore {
                weight: WEIGHT,
                score: self.compute_stability_score(
                    count,
                    statistics.bandwidth_deviation,
                    BANDWIDTH_MIN,
                    BANDWIDTH_MAX,
                ),
            },
        );
        scores.push(
            WeightedScore {
                weight: WEIGHT,
                score: self.compute_stability_score(
                    count,
                    statistics.energy_deviation,
                    ENERGY_MIN,
                    ENERGY_MAX,
                ),
            },
        );
        scores.push(
            WeightedScore {
                weight: WEIGHT,
                score: self.compute_smoothness_score(count, statistics.mean_centroid_step),
            },
        );
        assert(scores@ =~= Self::pattern_scores(*statistics));
        Assessment::Weighted(scores)
    }

    /// The stability score of a feature from the sample standard deviation
    /// of its `count` values: a deviation below `min_var` is too static, one
    /// above `max_var` too erratic.
    pub fn compute_stability_score(
        &self,
        count: usize,
        deviation: u64,
        min_var: u64,
        max_var: u64,
    ) -> (r: SubScore)
        ensures
            r == Self::stability(count as nat, deviation, min_var, max_var),
    {
        if count < 2 {
            SubScore::Fixed(HALF)
        } else {
            band_score(deviation, min_var, ONE, max_var, ONE)
        }
    }

    /// The smoothness score from the mean absolute step of the centroid
    /// between adjacent frames, `count` frames in all.
    pub fn compute_smoothness_score(&self, count: usize, mean_step: u64) -> (r: SubScore)
        ensures
            r == Self::smoothness(count as nat, mean_step),
    {
        if count < 2 {
            SubScore::Fixed(HALF)
        } else {
            cap_score(mean_step, STEP_MAX, ONE)
        }
    }
}

/// Features that hardly move are too stable: where three frames or more
/// were measured and each deviation lies below its natural range, each of
/// the three stability scores is the quotient of the deviation by the lower
/// end of the range, and with a centroid that does not jump the smoothness
/// score is full.
pub proof fn lemma_too_stable(statistics: VacuumStatistics)
    requires
        statistics.frames >= MIN_FRAMES,
        below(statistics.centroid_deviation, CENTROID_MIN),
        below(statistics.bandwidth_deviation, BANDWIDTH_MIN),
        below(statistics.energy_deviation, ENERGY_MIN),
        !below(STEP_MAX, statistics.mean_centroid_step),
    ensures
        VacuumSensor::pattern_scores(statistics) == seq![
            WeightedScore {
                weight: WEIGHT,
                score: SubScore::Scaled {
                    numerator: statistics.centroid_deviation,
                    denominator: CENTROID_MIN,
                    factor: ONE,
                },
            },
            WeightedScore {
                weight: WEIGHT,
                score: SubScore::Scaled {
                    numerator: statistics.bandwidth_deviation,
                    denominator: BANDWIDTH_MIN,
                    factor: ONE,
                },
            },
            WeightedScore {
                weight: WEIGHT,
                score: SubScore::Scaled {
                    numerator: statistics.energy_deviation,
                    denominator: ENERGY_MIN,
                    factor: ONE,
                },
            },
            WeightedScore { weight: WEIGHT, score: SubScore::Fixed(ONE) },
        ],
{
}

/// The constants are the numbers nearest to the decimals of the rules.
pub proof fn lemma_constants()
    ensures
        approximates(DEFAULT_THRESHOLD, 7, 10),
        approximates(WEIGHT, 1, 4),
        approximates(CENTROID_MIN, 50, 1),
        approximates(CENTROID_MAX, 500, 1),
        approximates(BANDWIDTH_MIN, 20, 1),
        approximates(BANDWIDTH_MAX, 200, 1),
        approximates(ENERGY_MIN, 1, 100),
        approximates(ENERGY_MAX, 1, 2),
        approximates(STEP_MAX, 200, 1),
{
    lemma2_to64();
    lemma2_to64_rest();
    lemma_approximates(DEFAULT_THRESHOLD, 7, 10);
    lemma_approximates(WEIGHT, 1, 4);
    lemma_approximates(CENTROID_MIN, 50, 1);
    lemma_approximates(CENTROID_MAX, 500, 1);
    lemma_approximates(BANDWIDTH_MIN, 20, 1);
    lemma_approximates(BANDWIDTH_MAX, 200, 1);
    lemma_approximates(ENERGY_MIN, 1, 100);
    lemma_approximates(ENERGY_MAX, 1, 2);
    lemma_approximates(STEP_MAX, 200, 1);
}

} // verus!
