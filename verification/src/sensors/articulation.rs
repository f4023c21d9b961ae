//! The articulation sensor: how speech moves from sound to sound.
//!
//! Natural articulation shows in spectral transitions of varying speed, a
//! wide range of loudness, a zero-crossing rate that changes between voiced
//! and unvoiced sounds, and a spectral flux that is neither even nor
//! erratic.

use vstd::prelude::*;
use vstd::arithmetic::power2::lemma2_to64;
use vstd::arithmetic::power2::lemma2_to64_rest;
use vstd::arithmetic::power2::lemma_pow2_adds;
use crate::binary64::approximates;
use crate::binary64::at_most;
use crate::binary64::below;
use crate::binary64::clamp_unit;
use crate::binary64::greater_of;
use crate::binary64::HALF;
use crate::binary64::in_unit_interval;
use crate::binary64::INFINITY;
use crate::binary64::lemma_approximates;
use crate::binary64::lemma_unit_clamped;
use crate::binary64::less_than;
use crate::binary64::lesser_of;
use crate::binary64::maximum;
use crate::binary64::minimum;
use crate::binary64::nan;
use crate::binary64::ONE;
use crate::binary64::unit_clamped;
use crate::binary64::ZERO;
use crate::result::SensorResult;
use crate::score::Assessment;
use crate::score::band_score;
use crate::score::banded;
use crate::score::floor_score;
use crate::score::floored;
use crate::score::full;
use crate::score::neutral;
use crate::score::SubScore;
use crate::score::WeightedScore;
use crate::sensors::judge;
use crate::sensors::lemma_scaled_samples_fit;
use crate::sensors::scale_to_rate;
use crate::sensors::scaled_samples;
use crate::sensors::verdict;

verus! {

/// The encoding of 0.6, the threshold of a sensor made without one.
pub const DEFAULT_THRESHOLD: u64 = 0x3FE3_3333_3333_3333;

/// The frame size at the reference rate: 20 ms.
pub const FRAME_SIZE: u32 = 320;

/// The hop size at the reference rate: 10 ms.
pub const HOP_SIZE: u32 = 160;

/// The least number of frames in the buffer.
pub const MIN_RAW_FRAMES: usize = 5;

/// The least number of frames that are not silent.
pub const MIN_FRAMES: usize = 3;

/// The encoding of 0.85: the share of the total magnitude at which the
/// spectral rolloff is taken.
pub const ROLLOFF_SHARE: u64 = 0x3FEB_3333_3333_3333;

/// The encodings of 0.3, 0.25, 0.2 and 0.25: the weights of the transition,
/// dynamics, zero-crossing and spectral flux scores.
pub const TRANSITION_WEIGHT: u64 = 0x3FD3_3333_3333_3333;

pub const DYNAMICS_WEIGHT: u64 = 0x3FD0_0000_0000_0000;

pub const CROSSING_WEIGHT: u64 = 0x3FC9_9999_9999_999A;

pub const FLUX_WEIGHT: u64 = 0x3FD0_0000_0000_0000;

/// The encodings of 50.0 and 500.0: the natural range, in Hz, of the
/// standard deviation of the centroid's steps.
pub const TRANSITION_MIN: u64 = 0x4049_0000_0000_0000;

pub const TRANSITION_MAX: u64 = 0x407F_4000_0000_0000;

/// The encodings of 0.6 and 0.7: what remains of the transition score below
/// and above the natural range.
pub const TRANSITION_LOW_FACTOR: u64 = 0x3FE3_3333_3333_3333;

pub const TRANSITION_HIGH_FACTOR: u64 = 0x3FE6_6666_6666_6666;

/// The encoding of 1e-8: an RMS energy must be above it to count as the
/// quietest, and the quietest is never taken below it.
pub const AUDIBLE_FLOOR: u64 = 0x3E45_798E_E230_8C3A;

/// The encoding of the greatest finite number.
pub const GREATEST: u64 = 0x7FEF_FFFF_FFFF_FFFF;

/// The encodings of 10.0 and 60.0: the natural range, in dB, of the dynamic
/// range.
pub const RANGE_MIN: u64 = 0x4024_0000_0000_0000;

pub const RANGE_MAX: u64 = 0x404E_0000_0000_0000;

/// The encodings of 0.5 and 0.8: what remains of the dynamics score below
/// and above the natural range.
pub const RANGE_LOW_FACTOR: u64 = 0x3FE0_0000_0000_0000;

pub const RANGE_HIGH_FACTOR: u64 = 0x3FE9_9999_9999_999A;

/// The encoding of 0.05: the least natural standard deviation of the
/// zero-crossing rate.
pub const CROSSING_MIN: u64 = 0x3FA9_9999_9999_999A;

/// The encoding of 0.6: what remains of the zero-crossing score below it.
pub const CROSSING_LOW_FACTOR: u64 = 0x3FE3_3333_3333_3333;

/// The encodings of 0.1 and 3.0: the natural range of the standard
/// deviation of the spectral flux, as multiples of its mean.
pub const FLUX_LOW_SHARE: u64 = 0x3FB9_9999_9999_999A;

pub const FLUX_HIGH_SHARE: u64 = 0x4008_0000_0000_0000;

/// The encodings of 0.6 and 0.7: the spectral flux score of a flux that is
/// too even, and of one that is too erratic.
pub const FLUX_EVEN_SCORE: u64 = 0x3FE3_3333_3333_3333;

pub const FLUX_ERRATIC_SCORE: u64 = 0x3FE6_6666_6666_6666;

/// The articulation sensor.
#[derive(Debug, Clone)]
pub struct ArticulationSensor {
    /// The detection threshold, a binary64 encoding.
    pub threshold: u64,
    /// The sensor's name.
    pub name: String,
}

/// What was measured over the frames that are not silent.
#[derive(Clone, Copy, Debug, PartialEq, Eq)]
pub struct ArticulationStatistics {
    /// The number of frames that are not silent.
    pub frames: usize,
    /// The standard deviation of the absolute steps of the centroid between
    /// adjacent frames, in Hz.
    pub transition_deviation: u64,
    /// The dynamic range in dB, where the loudest frame can be heard.
    pub dynamic_range: Option<u64>,
    /// The standard deviation of the zero-crossing rate.
    pub crossing_deviation: u64,
    /// The standard deviation of the spectral flux, the first frame left
    /// out.
    pub flux_deviation: u64,
    /// The mean of the spectral flux times `FLUX_LOW_SHARE`.
    pub flux_low_mark: u64,
    /// The mean of the spectral flux times `FLUX_HIGH_SHARE`.
    pub flux_high_mark: u64,
}

/// The loudest of a list of energies: the greatest of them and 0.0, a NaN
/// never counting.
pub open spec fn loudest(energies: Seq<u64>) -> u64
    decreases energies.len(),
{
    if energies.len() == 0 {
        ZERO
    } else {
        greater_of(loudest(energies.drop_last()), energies.last())
    }
}

/// The quietest of the energies above the audible floor, and the greatest
/// finite number where there is none.
pub open spec fn quietest(energies: Seq<u64>) -> u64
    decreases energies.len(),
{
    if energies.len() == 0 {
        GREATEST
    } else if below(AUDIBLE_FLOOR, energies.last()) {
        lesser_of(quietest(energies.drop_last()), energies.last())
    } else {
        quietest(energies.drop_last())
    }
}

/// The loudest is no NaN and not negative, no energy that is a number
/// exceeds it, and it is 0.0 or one of the energies.
pub proof fn lemma_loudest(energies: Seq<u64>)
    ensures
        !nan(loudest(energies)),
        at_most(ZERO, loudest(energies)),
        forall|i: int|
            0 <= i < energies.len() && !nan(energies[i]) ==> at_most(
                #[trigger] energies[i],
                loudest(energies),
            ),
        loudest(energies) == ZERO || exists|i: int|
            0 <= i < energies.len() && loudest(energies) == #[trigger] energies[i],
    decreases energies.len(),
{
    if energies.len() > 0 {
        let rest = energies.drop_last();
        lemma_loudest(rest);
        assert forall|i: int| 0 <= i < energies.len() && !nan(energies[i]) implies at_most(
            #[trigger] energies[i],
            loudest(energies),
        ) by {
            if i < rest.len() {
                assert(rest[i] == energies[i]);
            }
        }
        if loudest(energies) != ZERO {
            if loudest(energies) == energies.last() {
                assert(loudest(energies) == energies[energies.len() - 1]);
            } else {
                let i = choose|i: int| 0 <= i < rest.len() && loudest(rest) == rest[i];
                assert(rest[i] == energies[i]);
            }
        }
    }
}

/// The quietest is no NaN, every energy above the audible floor is at least
/// the quietest, and the quietest is such an energy or, where there is
/// none, the greatest finite number.
pub proof fn lemma_quietest(energies: Seq<u64>)
    ensures
        !nan(quietest(energies)),
        forall|i: int|
            0 <= i < energies.len() && below(AUDIBLE_FLOOR, energies[i]) ==> at_most(
                quietest(energies),
                #[trigger] energies[i],
            ),
        quietest(energies) == GREATEST || exists|i: int|
            0 <= i < energies.len() && below(AUDIBLE_FLOOR, energies[i]) && quietest(energies)
                == #[trigger] energies[i],
    decreases energies.len(),
{
    if energies.len() > 0 {
        let rest = energies.drop_last();
        lemma_quietest(rest);
        assert forall|i: int|
            0 <= i < energies.len() && below(AUDIBLE_FLOOR, energies[i]) implies at_most(
            quietest(energies),
            #[trigger] energies[i],
        ) by {
            if i < rest.len() {
                assert(rest[i] == energies[i]);
            }
        }
        if quietest(energies) != GREATEST {
            if below(AUDIBLE_FLOOR, energies.last()) && quietest(energies) == energies.last() {
                assert(quietest(energies) == energies[energies.len() - 1]);
            } else {
                let i = choose|i: int|
                    0 <= i < rest.len() && below(AUDIBLE_FLOOR, rest[i]) && quietest(rest)
                        == rest[i];
                assert(rest[i] == energies[i]);
            }
        }
    }
}

impl ArticulationSensor {
    /// The transition score: neutral for fewer than two frames.
    pub open spec fn transition(frames: nat, deviation: u64) -> SubScore {
        if frames < 2 {
            neutral()
        } else {
            banded(
                deviation,
                TRANSITION_MIN,
                TRANSITION_LOW_FACTOR,
                TRANSITION_MAX,
                TRANSITION_HIGH_FACTOR,
            )
        }
    }

    /// The dynamics score: neutral where no dynamic range was measured.
    pub open spec fn dynamics(range: Option<u64>) -> SubScore {
        match range {
            None => neutral(),
            Some(decibels) => banded(
                decibels,
                RANGE_MIN,
                RANGE_LOW_FACTOR,
                RANGE_MAX,
                RANGE_HIGH_FACTOR,
            ),
        }
    }

    /// The zero-crossing score: neutral where there is no frame.
    pub open spec fn crossing_pattern(frames: nat, deviation: u64) -> SubScore {
        if frames == 0 {
            neutral()
        } else {
            floored(deviation, CROSSING_MIN, CROSSING_LOW_FACTOR)
        }
    }

    /// The spectral flux score: neutral for fewer than two frames; 0.6 where
    /// the deviation is below the low mark, 0.7 where it is above the high
    /// mark.
    pub open spec fn flux_pattern(
        frames: nat,
        deviation: u64,
        low_mark: u64,
        high_mark: u64,
    ) -> SubScore {
        if frames < 2 {
            neutral()
        } else if below(deviation, low_mark) {
            SubScore::Fixed(FLUX_EVEN_SCORE)
        } else if below(high_mark, deviation) {
            SubScore::Fixed(FLUX_ERRATIC_SCORE)
        } else {
            full()
        }
    }

    /// The four sub-scores with their weights: transition, dynamics,
    /// zero-crossing pattern, spectral flux pattern.
    pub open spec fn articulation_scores(statistics: ArticulationStatistics) -> Seq<WeightedScore> {
        let frames = statistics.frames as nat;
        seq![
            WeightedScore {
                weight: TRANSITION_WEIGHT,
                score: Self::transition(frames, statistics.transition_deviation),
            },
            WeightedScore {
                weight: DYNAMICS_WEIGHT,
                score: Self::dynamics(statistics.dynamic_range),
            },
            WeightedScore {
                weight: CROSSING_WEIGHT,
                score: Self::crossing_pattern(frames, statistics.crossing_deviation),
            },
            WeightedScore {
                weight: FLUX_WEIGHT,
                score: Self::flux_pattern(
                    frames,
                    statistics.flux_deviation,
                    statistics.flux_low_mark,
                    statistics.flux_high_mark,
                ),
            },
        ]
    }

    /// The loudest and the quietest energy between which the dynamic range
    /// is measured: none for fewer than three energies or where the loudest
    /// is below the audible floor; the quietest is taken among the energies
    /// above the floor, and not below the floor.
    pub open spec fn range_bounds(energies: Seq<u64>) -> Option<(u64, u64)> {
        if energies.len() < 3 || below(loudest(energies), AUDIBLE_FLOOR) {
            None
        } else {
            Some((loudest(energies), greater_of(quietest(energies), AUDIBLE_FLOOR)))
        }
    }

    /// A sensor with the given threshold, clamped to the unit interval, or
    /// with the default threshold of 0.6.
    pub fn new(threshold: Option<u64>) -> (r: Self)
        ensures
            r.threshold == unit_clamped(
                match threshold {
                    Some(t) => t,
                    None => DEFAULT_THRESHOLD,
                },
            ),
            r.name@ == "articulation_sensor"@,
            !(threshold matches Some(t) && nan(t)) ==> in_unit_interval(r.threshold),
    {
        let given = match threshold {
            Some(t) => t,
            None => DEFAULT_THRESHOLD,
        };
        proof {
            lemma_unit_clamped(given);
        }
        ArticulationSensor { threshold: clamp_unit(given), name: "articulation_sensor".to_owned() }
    }

    /// The number of samples in a frame at this sample rate.
    pub fn frame_size(sample_rate: u32) -> (r: usize)
        ensures
            r == scaled_samples(FRAME_SIZE as nat, sample_rate as nat),
    {
        proof {
            lemma_scaled_samples_fit(FRAME_SIZE, sample_rate);
        }
        scale_to_rate(FRAME_SIZE, sample_rate)
    }

    /// The number of samples between the starts of two frames at this
    /// sample rate.
    pub fn hop_size(sample_rate: u32) -> (r: usize)
        ensures
            r == scaled_samples(HOP_SIZE as nat, sample_rate as nat),
    {
        proof {
            lemma_scaled_samples_fit(HOP_SIZE, sample_rate);
        }
        scale_to_rate(HOP_SIZE, sample_rate)
    }

    /// The sensor's verdict on a buffer, from the score measured on it.
    pub fn analyze(&self, audio: &[u64], sample_rate: u32, score: u64) -> (r: SensorResult)
        ensures
            r@ == verdict(
                self.name@,
                self.threshold,
                audio@,
                sample_rate,
                score,
                "articulation_anomaly"@,
                "Articulation pattern analysis passed"@,
                "Unnatural articulation patterns detected"@,
            ),
            in_unit_interval(r.value),
    {
        judge(
            &self.name,
            self.threshold,
            audio,
            sample_rate,
            score,
            "articulation_anomaly",
            "Articulation pattern analysis passed",
            "Unnatural articulation patterns detected",
        )
    }

    /// The shape of the score: neutral where the buffer holds fewer than
    /// five frames or fewer than three of them are not silent, else the four
    /// weighted sub-scores.
    pub fn compute_articulation_score(
        &self,
        raw_frames: usize,
        statistics: &ArticulationStatistics,
    ) -> (r: Assessment)
        ensures
            match r {
                Assessment::Neutral => raw_frames < MIN_RAW_FRAMES || statistics.frames
                    < MIN_FRAMES,
                Assessment::Weighted(scores) => {
                    &&& raw_frames >= MIN_RAW_FRAMES
                    &&& statistics.frames >= MIN_FRAMES
                    &&& scores@ == Self::articulation_scores(*statistics)
                },
            },
    {
        if raw_frames < MIN_RAW_FRAMES || statistics.frames < MIN_FRAMES {
            return Assessment::Neutral;
        }
        let frames = statistics.frames;
        let mut scores: Vec<WeightedScore> = Vec::new();
        scores.push(
            WeightedScore {
                weight: TRANSITION_WEIGHT,
                score: self.compute_transition_score(frames, statistics.transition_deviation),
            },
        );
        scores.push(
            WeightedScore {
                weight: DYNAMICS_WEIGHT,
                score: self.compute_dynamics_score(statistics.dynamic_range),
            },
        );
        scores.push(
            WeightedScore {
                weight: CROSSING_WEIGHT,
                score: self.compute_zcr_pattern_score(frames, statistics.crossing_deviation),
            },
        );
        scores.push(
            WeightedScore {
                weight: FLUX_WEIGHT,
                score: self.compute_spectral_flux_pattern_score(
                    frames,
                    statistics.flux_deviation,
                    statistics.flux_low_mark,
                    statistics.flux_high_mark,
                ),
            },
        );
        assert(scores@ =~= Self::articulation_scores(*statistics));
        Assessment::Weighted(scores)
    }

    /// The transition score from the standard deviation of the absolute
    /// steps of the centroid between adjacent frames, `frames` in all: steps
    /// that hardly vary are too uniform, steps that vary wildly too abrupt.
    pub fn compute_transition_score(&self, frames: usize, deviation: u64) -> (r: SubScore)
        ensures
            r == Self::transition(frames as nat, deviation),
    {
        if frames < 2 {
            SubScore::Fixed(HALF)
        } else {
            band_score(
                deviation,
                TRANSITION_MIN,
                TRANSITION_LOW_FACTOR,
                TRANSITION_MAX,
                TRANSITION_HIGH_FACTOR,
            )
        }
    }

    /// The loudest and the quietest energy between which the dynamic range
    /// of the frames is measured, where it can be measured.
    pub fn dynamic_range_bounds(energies: &[u64]) -> (r: Option<(u64, u64)>)
        ensures
            r == Self::range_bounds(energies@),
    {
        let mut peak: u64 = ZERO;
        let mut low: u64 = GREATEST;
        let mut i: usize = 0;
        assert(energies@.subrange(0, 0) =~= Seq::<u64>::empty());
        while i < energies.len()
            invariant
                i <= energies@.len(),
                peak == loudest(energies@.subrange(0, i as int)),
                low == quietest(energies@.subrange(0, i as int)),
            decreases energies@.len() - i,
        {
            let energy = energies[i];
            proof {
                let grown = energies@.subrange(0, i + 1);
                assert(grown.drop_last() =~= energies@.subrange(0, i as int));
                assert(grown.last() == energy);
            }
            peak = maximum(peak, energy);
            if less_than(AUDIBLE_FLOOR, energy) {
                low = minimum(low, energy);
            }
            i += 1;
        }
        assert(energies@.subrange(0, energies@.len() as int) =~= energies@);
        if energies.len() < 3 || less_than(peak, AUDIBLE_FLOOR) {
            None
        } else {
            Some((peak, maximum(low, AUDIBLE_FLOOR)))
        }
    }

    /// The dynamics score from the dynamic range in dB: a narrow range is
    /// too compressed, a very wide one unusual.
    pub fn compute_dynamics_score(&self, range: Option<u64>) -> (r: SubScore)
        ensures
            r == Self::dynamics(range),
    {
        match range {
            None => SubScore::Fixed(HALF),
            Some(decibels) => band_score(
                decibels,
                RANGE_MIN,
                RANGE_LOW_FACTOR,
                RANGE_MAX,
                RANGE_HIGH_FACTOR,
            ),
        }
    }

    /// The zero-crossing score from the standard deviation of the
    /// zero-crossing rate over `frames` frames: a rate that hardly varies is
    /// too uniform.
    pub fn compute_zcr_pattern_score(&self, frames: usize, deviation: u64) -> (r: SubScore)
        ensures
            r == Self::crossing_pattern(frames as nat, deviation),
    {
        if frames == 0 {
            SubScore::Fixed(HALF)
        } else {
            floor_score(deviation, CROSSING_MIN, CROSSING_LOW_FACTOR)
        }
    }

    /// The spectral flux score from the standard deviation of the flux over
    /// `frames` frames and the two marks that its mean sets.
    pub fn compute_spectral_flux_pattern_score(
        &self,
        frames: usize,
        deviation: u64,
        low_mark: u64,
        high_mark: u64,
    ) -> (r: SubScore)
        ensures
            r == Self::flux_pattern(frames as nat, deviation, low_mark, high_mark),
    {
        if frames < 2 {
            SubScore::Fixed(HALF)
        } else if less_than(deviation, low_mark) {
            SubScore::Fixed(FLUX_EVEN_SCORE)
        } else if less_than(high_mark, deviation) {
            SubScore::Fixed(FLUX_ERRATIC_SCORE)
        } else {
            SubScore::Fixed(ONE)
        }
    }

    /// The frequency of the rolloff bin: the entry of `frequencies` at
    /// `index`, the last entry where `index` lies beyond them, and 0.0 where
    /// there is none.
    pub fn rolloff_frequency(frequencies: &[u64], index: usize) -> (r: u64)
        ensures
            r == (if index < frequencies@.len() {
                frequencies@[index as int]
            } else if frequencies@.len() > 0 {
                frequencies@[frequencies@.len() - 1]
            } else {
                ZERO
            }),
    {
        if index < frequencies.len() {
            frequencies[index]
        } else if frequencies.len() > 0 {
            frequencies[frequencies.len() - 1]
        } else {
            ZERO
        }
    }
}

/// The constants are the numbers nearest to the decimals of the rules, and
/// the greatest finite number is the last encoding before infinity.
pub proof fn lemma_constants()
    ensures
        approximates(DEFAULT_THRESHOLD, 6, 10),
        approximates(ROLLOFF_SHARE, 85, 100),
        approximates(TRANSITION_WEIGHT, 3, 10),
        approximates(DYNAMICS_WEIGHT, 25, 100),
        approximates(CROSSING_WEIGHT, 2, 10),
        approximates(FLUX_WEIGHT, 25, 100),
        approximates(TRANSITION_MIN, 50, 1),
        approximates(TRANSITION_MAX, 500, 1),
        approximates(TRANSITION_LOW_FACTOR, 6, 10),
        approximates(TRANSITION_HIGH_FACTOR, 7, 10),
        approximates(AUDIBLE_FLOOR, 1, 100000000),
        approximates(RANGE_MIN, 10, 1),
        approximates(RANGE_MAX, 60, 1),
        approximates(RANGE_LOW_FACTOR, 1, 2),
        approximates(RANGE_HIGH_FACTOR, 8, 10),
        approximates(CROSSING_MIN, 5, 100),
        approximates(CROSSING_LOW_FACTOR, 6, 10),
        approximates(FLUX_LOW_SHARE, 1, 10),
        approximates(FLUX_HIGH_SHARE, 3, 1),
        approximates(FLUX_EVEN_SCORE, 6, 10),
        approximates(FLUX_ERRATIC_SCORE, 7, 10),
        GREATEST + 1 == INFINITY,
{
    lemma2_to64();
    lemma2_to64_rest();
    lemma_pow2_adds(64, 15);
    lemma_approximates(DEFAULT_THRESHOLD, 6, 10);
    lemma_approximates(ROLLOFF_SHARE, 85, 100);
    lemma_approximates(TRANSITION_WEIGHT, 3, 10);
    lemma_approximates(DYNAMICS_WEIGHT, 25, 100);
    lemma_approximates(CROSSING_WEIGHT, 2, 10);
    lemma_approximates(FLUX_WEIGHT, 25, 100);
    lemma_approximates(TRANSITION_MIN, 50, 1);
    lemma_approximates(TRANSITION_MAX, 500, 1);
    lemma_approximates(TRANSITION_LOW_FACTOR, 6, 10);
    lemma_approximates(TRANSITION_HIGH_FACTOR, 7, 10);
    lemma_approximates(AUDIBLE_FLOOR, 1, 100000000);
    lemma_approximates(RANGE_MIN, 10, 1);
    lemma_approximates(RANGE_MAX, 60, 1);
    lemma_approximates(RANGE_LOW_FACTOR, 1, 2);
    lemma_approximates(RANGE_HIGH_FACTOR, 8, 10);
    lemma_approximates(CROSSING_MIN, 5, 100);
    lemma_approximates(CROSSING_LOW_FACTOR, 6, 10);
    lemma_approximates(FLUX_LOW_SHARE, 1, 10);
    lemma_approximates(FLUX_HIGH_SHARE, 3, 1);
    lemma_approximates(FLUX_EVEN_SCORE, 6, 10);
    lemma_approximates(FLUX_ERRATIC_SCORE, 7, 10);
}

} // verus!
