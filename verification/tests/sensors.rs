use sonotheia_rust::score::Assessment;
use sonotheia_rust::score::SubScore;
use sonotheia_rust::score::WeightedScore;
use sonotheia_rust::sensors::articulation;
use sonotheia_rust::sensors::articulation::ArticulationSensor;
use sonotheia_rust::sensors::articulation::ArticulationStatistics;
use sonotheia_rust::sensors::phase;
use sonotheia_rust::sensors::phase::PhaseSensor;
use sonotheia_rust::sensors::phase::PhaseStatistics;
use sonotheia_rust::sensors::phase::Turn;
use sonotheia_rust::sensors::scale_to_rate;
use sonotheia_rust::sensors::vacuum;
use sonotheia_rust::sensors::vacuum::VacuumSensor;
use sonotheia_rust::sensors::vacuum::VacuumStatistics;

fn bits(x: f64) -> u64 {
    x.to_bits()
}

fn number(score: SubScore) -> f64 {
    match score {
        SubScore::Fixed(value) => f64::from_bits(value),
        SubScore::Scaled { numerator, denominator, factor } => {
            (f64::from_bits(numerator) / f64::from_bits(denominator)).min(1.0)
                * f64::from_bits(factor)
        }
    }
}

fn scaled(numerator: f64, denominator: f64, factor: f64) -> SubScore {
    SubScore::Scaled {
        numerator: bits(numerator),
        denominator: bits(denominator),
        factor: bits(factor),
    }
}

fn fixed(value: f64) -> SubScore {
    SubScore::Fixed(bits(value))
}

fn average(values: &[f64]) -> f64 {
    values.iter().sum::<f64>() / values.len() as f64
}

fn spread(values: &[f64], divisor: usize) -> f64 {
    let center = average(values);
    (values.iter().map(|x| (x - center).powi(2)).sum::<f64>() / divisor as f64).sqrt()
}

fn wrap(phase: f64) -> f64 {
    let two_pi = 2.0 * std::f64::consts::PI;
    let remainder = phase % two_pi;
    match PhaseSensor::wrap_phase(remainder.to_bits()) {
        Turn::Back => remainder - two_pi,
        Turn::Forward => remainder + two_pi,
        Turn::Stay => remainder,
    }
}

#[test]
fn test_vacuum_sensor_creation() {
    let sensor = VacuumSensor::new(None);
    assert_eq!(sensor.name, "vacuum_sensor");
    assert!((f64::from_bits(sensor.threshold) - 0.7).abs() < f64::EPSILON);
}

#[test]
fn test_vacuum_sensor_custom_threshold() {
    let sensor = VacuumSensor::new(Some(bits(0.8)));
    assert!((f64::from_bits(sensor.threshold) - 0.8).abs() < f64::EPSILON);
}

#[test]
fn test_vacuum_sensor_threshold_clamping() {
    let sensor = VacuumSensor::new(Some(bits(1.5)));
    assert!((f64::from_bits(sensor.threshold) - 1.0).abs() < f64::EPSILON);

    let sensor = VacuumSensor::new(Some(bits(-0.5)));
    assert!((f64::from_bits(sensor.threshold) - 0.0).abs() < f64::EPSILON);
}

#[test]
fn test_stability_score() {
    let sensor = VacuumSensor::new(None);

    // Normal variation
    let values = vec![100.0, 110.0, 95.0, 105.0, 100.0];
    let deviation = spread(&values, values.len() - 1);
    let score = number(sensor.compute_stability_score(
        values.len(),
        bits(deviation),
        bits(5.0),
        bits(50.0),
    ));
    assert!(score > 0.8);

    // Too stable
    let values = vec![100.0, 100.0, 100.0, 100.0];
    let deviation = spread(&values, values.len() - 1);
    let score = number(sensor.compute_stability_score(
        values.len(),
        bits(deviation),
        bits(5.0),
        bits(50.0),
    ));
    assert!(score < 0.5);
}

#[test]
fn test_smoothness_score() {
    let sensor = VacuumSensor::new(None);

    // Smooth transitions
    let centroids = [1000.0f64, 1010.0, 1020.0];
    let steps: Vec<f64> = centroids.windows(2).map(|w| (w[1] - w[0]).abs()).collect();
    let score = number(sensor.compute_smoothness_score(centroids.len(), bits(average(&steps))));
    assert!(score > 0.9);
}

#[test]
fn test_phase_sensor_creation() {
    let sensor = PhaseSensor::new(None);
    assert_eq!(sensor.name, "phase_sensor");
    assert!((f64::from_bits(sensor.threshold) - 0.65).abs() < f64::EPSILON);
}

#[test]
fn test_phase_sensor_custom_threshold() {
    let sensor = PhaseSensor::new(Some(bits(0.8)));
    assert!((f64::from_bits(sensor.threshold) - 0.8).abs() < f64::EPSILON);
}

#[test]
fn test_wrap_phase() {
    // Test wrapping
    let pi = std::f64::consts::PI;
    assert!((wrap(0.0) - 0.0).abs() < 1e-10);
    assert!((wrap(pi) - pi).abs() < 1e-10);
    assert!((wrap(2.0 * pi) - 0.0).abs() < 1e-10);
    assert!((wrap(-2.0 * pi) - 0.0).abs() < 1e-10);
    // 3*pi wraps to pi (not -pi, as it wraps down from 3pi to pi)
    assert!((wrap(3.0 * pi) - pi).abs() < 1e-10);
}

#[test]
fn a_remainder_outside_the_range_is_turned() {
    let pi = std::f64::consts::PI;
    assert_eq!(phase::PI, bits(pi));
    assert_eq!(phase::NEGATIVE_PI, bits(-pi));
    assert_eq!(PhaseSensor::wrap_phase(bits(0.0)), Turn::Stay);
    assert_eq!(PhaseSensor::wrap_phase(bits(pi)), Turn::Stay);
    assert_eq!(PhaseSensor::wrap_phase(bits(-pi)), Turn::Forward);
    assert_eq!(PhaseSensor::wrap_phase(bits(-3.1415926535897927)), Turn::Stay);
    assert_eq!(PhaseSensor::wrap_phase(bits(-3.1415926535897936)), Turn::Forward);
    assert_eq!(PhaseSensor::wrap_phase(bits(3.1415926535897936)), Turn::Back);
    assert_eq!(wrap(-pi), pi);
    assert_eq!(PhaseSensor::wrap_phase(bits(3.5)), Turn::Back);
    assert_eq!(PhaseSensor::wrap_phase(bits(-3.5)), Turn::Forward);
    assert_eq!(PhaseSensor::wrap_phase(bits(f64::NAN)), Turn::Stay);
    assert!((wrap(3.5) - (3.5 - 2.0 * pi)).abs() < 1e-15);
    assert!((wrap(-3.5) - (2.0 * pi - 3.5)).abs() < 1e-15);
    assert!((wrap(-3.0 * pi) - pi).abs() < 1e-10);
}

#[test]
fn wrapped_phases_lie_above_minus_pi_and_up_to_pi() {
    let pi = std::f64::consts::PI;
    let mut state: u64 = 0x0123_4567_89AB_CDEF;
    let mut phases = vec![-pi, pi, 0.0, -0.0, 2.0 * pi, -2.0 * pi, 3.0 * pi, -3.0 * pi, 5.0 * pi];
    for _ in 0..5000 {
        state ^= state << 13;
        state ^= state >> 7;
        state ^= state << 17;
        phases.push(((state >> 11) as f64 / (1u64 << 53) as f64 - 0.5) * 200.0);
    }
    for phase in phases {
        let wrapped = wrap(phase);
        assert!(-pi < wrapped && wrapped <= pi, "{:?} wrapped to {:?}", phase, wrapped);
        if -pi < phase && phase <= pi {
            assert_eq!(wrapped.to_bits(), phase.to_bits());
        }
        let turns = (phase - wrapped) / (2.0 * pi);
        assert!((turns - turns.round()).abs() < 1e-9);
    }
}

#[test]
fn test_coherence_score_natural_range() {
    let sensor = PhaseSensor::new(None);

    // Simulate natural phase variance
    let phase_spectra: Vec<Vec<f64>> = (0..5)
        .map(|i| {
            (0..50)
                .map(|j| (i as f64 * 0.3 + j as f64 * 0.1).sin() * std::f64::consts::PI)
                .collect()
        })
        .collect();

    let mut variances = Vec::new();
    for pair in phase_spectra.windows(2) {
        if let Some(shared) = PhaseSensor::shared_bins(pair[0].len(), pair[1].len()) {
            let differences: Vec<f64> =
                (0..shared).map(|j| wrap(pair[1][j] - pair[0][j])).collect();
            variances.push(spread(&differences, differences.len()).powi(2));
        }
    }
    assert_eq!(variances.len(), 4);
    let score = number(sensor.compute_cross_frame_coherence(
        phase_spectra.len(),
        variances.len(),
        bits(average(&variances)),
    ));
    // Should be in reasonable range for natural-like phases
    assert!(score > 0.3);
}

#[test]
fn test_articulation_sensor_creation() {
    let sensor = ArticulationSensor::new(None);
    assert_eq!(sensor.name, "articulation_sensor");
    assert!((f64::from_bits(sensor.threshold) - 0.6).abs() < f64::EPSILON);
}

#[test]
fn test_articulation_sensor_custom_threshold() {
    let sensor = ArticulationSensor::new(Some(bits(0.75)));
    assert!((f64::from_bits(sensor.threshold) - 0.75).abs() < f64::EPSILON);
}

#[test]
fn test_transition_score() {
    let sensor = ArticulationSensor::new(None);

    // Features with natural-like transitions
    let centroids = [1000.0f64, 1100.0, 1050.0];
    let rates: Vec<f64> = centroids.windows(2).map(|w| (w[1] - w[0]).abs()).collect();
    let deviation = spread(&rates, rates.len());
    let score = number(sensor.compute_transition_score(centroids.len(), bits(deviation)));
    assert!(score > 0.0); // Just verify it runs without error
    assert!((score - 0.3).abs() < 1e-12);
}

#[test]
fn test_dynamics_score() {
    let sensor = ArticulationSensor::new(None);

    // Features with natural dynamics
    let energies = [bits(0.1), bits(0.3), bits(0.05)];
    let range = ArticulationSensor::dynamic_range_bounds(&energies).map(|(loudest, quietest)| {
        bits(20.0 * (f64::from_bits(loudest) / f64::from_bits(quietest)).log10())
    });
    let score = number(sensor.compute_dynamics_score(range));
    // Good dynamics should score well
    assert!(score > 0.5);
}

#[test]
fn thresholds_are_clamped_by_every_sensor() {
    assert_eq!(PhaseSensor::new(Some(bits(1.5))).threshold, bits(1.0));
    assert_eq!(PhaseSensor::new(Some(bits(-0.5))).threshold, bits(0.0));
    assert_eq!(ArticulationSensor::new(Some(bits(1.5))).threshold, bits(1.0));
    assert_eq!(ArticulationSensor::new(Some(bits(-0.5))).threshold, bits(0.0));
    assert_eq!(VacuumSensor::new(Some(bits(f64::INFINITY))).threshold, bits(1.0));
    assert_eq!(VacuumSensor::new(Some(bits(0.0))).threshold, bits(0.0));
    assert_eq!(VacuumSensor::new(Some(bits(1.0))).threshold, bits(1.0));
    assert!(f64::from_bits(VacuumSensor::new(Some(bits(f64::NAN))).threshold).is_nan());
}

#[test]
fn default_thresholds_are_exact() {
    assert_eq!(VacuumSensor::new(None).threshold, bits(0.7));
    assert_eq!(PhaseSensor::new(None).threshold, bits(0.65));
    assert_eq!(ArticulationSensor::new(None).threshold, bits(0.6));
    assert_eq!(vacuum::DEFAULT_THRESHOLD, bits(0.7));
    assert_eq!(phase::DEFAULT_THRESHOLD, bits(0.65));
    assert_eq!(articulation::DEFAULT_THRESHOLD, bits(0.6));
}

#[test]
fn constants_encode_the_numbers_of_the_rules() {
    assert_eq!(vacuum::WEIGHT, bits(0.25));
    assert_eq!(vacuum::CENTROID_MIN, bits(50.0));
    assert_eq!(vacuum::CENTROID_MAX, bits(500.0));
    assert_eq!(vacuum::BANDWIDTH_MIN, bits(20.0));
    assert_eq!(vacuum::BANDWIDTH_MAX, bits(200.0));
    assert_eq!(vacuum::ENERGY_MIN, bits(0.01));
    assert_eq!(vacuum::ENERGY_MAX, bits(0.5));
    assert_eq!(vacuum::STEP_MAX, bits(200.0));
    assert_eq!(phase::COHERENCE_WEIGHT, bits(0.4));
    assert_eq!(phase::DERIVATIVE_WEIGHT, bits(0.3));
    assert_eq!(phase::RANDOMNESS_WEIGHT, bits(0.3));
    assert_eq!(phase::VARIANCE_MIN, bits(0.3));
    assert_eq!(phase::VARIANCE_MAX, bits(5.0));
    assert_eq!(phase::VARIANCE_LOW_FACTOR, bits(0.5));
    assert_eq!(phase::VARIANCE_HIGH_FACTOR, bits(0.7));
    assert_eq!(phase::ACCELERATION_MIN, bits(0.1));
    assert_eq!(phase::ACCELERATION_MAX, bits(2.0));
    assert_eq!(phase::ACCELERATION_LOW_FACTOR, bits(0.5));
    assert_eq!(phase::ACCELERATION_HIGH_FACTOR, bits(0.6));
    assert_eq!(phase::DEVIATION_MAX, bits(0.3));
    assert_eq!(phase::DEVIATION_HIGH_FACTOR, bits(0.7));
    assert_eq!(articulation::ROLLOFF_SHARE, bits(0.85));
    assert_eq!(articulation::TRANSITION_WEIGHT, bits(0.3));
    assert_eq!(articulation::DYNAMICS_WEIGHT, bits(0.25));
    assert_eq!(articulation::CROSSING_WEIGHT, bits(0.2));
    assert_eq!(articulation::FLUX_WEIGHT, bits(0.25));
    assert_eq!(articulation::TRANSITION_MIN, bits(50.0));
    assert_eq!(articulation::TRANSITION_MAX, bits(500.0));
    assert_eq!(articulation::TRANSITION_LOW_FACTOR, bits(0.6));
    assert_eq!(articulation::TRANSITION_HIGH_FACTOR, bits(0.7));
    assert_eq!(articulation::AUDIBLE_FLOOR, bits(1e-8));
    assert_eq!(articulation::GREATEST, bits(f64::MAX));
    assert_eq!(articulation::RANGE_MIN, bits(10.0));
    assert_eq!(articulation::RANGE_MAX, bits(60.0));
    assert_eq!(articulation::RANGE_LOW_FACTOR, bits(0.5));
    assert_eq!(articulation::RANGE_HIGH_FACTOR, bits(0.8));
    assert_eq!(articulation::CROSSING_MIN, bits(0.05));
    assert_eq!(articulation::CROSSING_LOW_FACTOR, bits(0.6));
    assert_eq!(articulation::FLUX_LOW_SHARE, bits(0.1));
    assert_eq!(articulation::FLUX_HIGH_SHARE, bits(3.0));
    assert_eq!(articulation::FLUX_EVEN_SCORE, bits(0.6));
    assert_eq!(articulation::FLUX_ERRATIC_SCORE, bits(0.7));
    assert_eq!(sonotheia_rust::audio::SILENCE_FLOOR, bits(1e-6));
    assert_eq!(sonotheia_rust::binary64::EPSILON, bits(f64::EPSILON));
}

#[test]
fn frame_sizes_follow_the_sample_rate() {
    assert_eq!(VacuumSensor::frame_size(16000), 400);
    assert_eq!(VacuumSensor::hop_size(16000), 160);
    assert_eq!(PhaseSensor::frame_size(16000), 512);
    assert_eq!(PhaseSensor::hop_size(16000), 128);
    assert_eq!(ArticulationSensor::frame_size(16000), 320);
    assert_eq!(ArticulationSensor::hop_size(16000), 160);
    assert_eq!(VacuumSensor::frame_size(8000), 200);
    assert_eq!(VacuumSensor::hop_size(8000), 80);
    assert_eq!(PhaseSensor::frame_size(44100), 1411);
    assert_eq!(PhaseSensor::hop_size(44100), 352);
    assert_eq!(ArticulationSensor::frame_size(96000), 1920);
    assert_eq!(ArticulationSensor::hop_size(22050), 220);
    assert_eq!(VacuumSensor::frame_size(0), 0);
    assert_eq!(PhaseSensor::frame_size(u32::MAX), 137438953);
    assert_eq!(scale_to_rate(16000, u32::MAX), u32::MAX as usize);
    assert_eq!(scale_to_rate(1, 15999), 0);
}

#[test]
fn stability_is_scored_by_the_natural_range() {
    let sensor = VacuumSensor::new(None);
    let (low, high) = (bits(50.0), bits(500.0));
    assert_eq!(sensor.compute_stability_score(1, bits(100.0), low, high), fixed(0.5));
    assert_eq!(sensor.compute_stability_score(0, bits(100.0), low, high), fixed(0.5));
    assert_eq!(sensor.compute_stability_score(2, bits(50.0), low, high), fixed(1.0));
    assert_eq!(sensor.compute_stability_score(2, bits(500.0), low, high), fixed(1.0));
    assert_eq!(sensor.compute_stability_score(9, bits(f64::NAN), low, high), fixed(1.0));
    assert_eq!(
        sensor.compute_stability_score(5, bits(25.0), low, high),
        scaled(25.0, 50.0, 1.0)
    );
    assert_eq!(
        sensor.compute_stability_score(5, bits(2000.0), low, high),
        scaled(500.0, 2000.0, 1.0)
    );
    assert_eq!(number(sensor.compute_stability_score(5, bits(25.0), low, high)), 0.5);
    assert_eq!(number(sensor.compute_stability_score(5, bits(2000.0), low, high)), 0.25);
    assert_eq!(number(sensor.compute_stability_score(5, bits(0.0), low, high)), 0.0);
}

#[test]
fn smoothness_is_scored_by_the_mean_step() {
    let sensor = VacuumSensor::new(None);
    assert_eq!(sensor.compute_smoothness_score(1, bits(10.0)), fixed(0.5));
    assert_eq!(sensor.compute_smoothness_score(2, bits(200.0)), fixed(1.0));
    assert_eq!(sensor.compute_smoothness_score(2, bits(800.0)), scaled(200.0, 800.0, 1.0));
    assert_eq!(number(sensor.compute_smoothness_score(2, bits(800.0))), 0.25);
}

#[test]
fn features_that_hardly_move_are_too_stable() {
    let sensor = VacuumSensor::new(None);
    let statistics = VacuumStatistics {
        frames: 98,
        centroid_deviation: bits(0.5),
        bandwidth_deviation: bits(0.25),
        energy_deviation: bits(0.0001),
        mean_centroid_step: bits(0.75),
    };
    match sensor.compute_sfm_score(&statistics) {
        Assessment::Weighted(scores) => {
            assert_eq!(
                scores,
                vec![
                    WeightedScore { weight: bits(0.25), score: scaled(0.5, 50.0, 1.0) },
                    WeightedScore { weight: bits(0.25), score: scaled(0.25, 20.0, 1.0) },
                    WeightedScore { weight: bits(0.25), score: scaled(0.0001, 0.01, 1.0) },
                    WeightedScore { weight: bits(0.25), score: fixed(1.0) },
                ]
            );
            let score: f64 =
                scores.iter().map(|s| f64::from_bits(s.weight) * number(s.score)).sum();
            assert!((score - 0.258125).abs() < 1e-12);
            let audio: Vec<u64> = (0..64).map(|i| bits((i as f64 * 0.3).sin())).collect();
            let result = sensor.analyze(&audio, 16000, bits(score));
            assert_eq!(result.passed, Some(false));
            assert_eq!(result.reason.as_deref(), Some("sfm_anomaly"));
            assert_eq!(
                result.detail.as_deref(),
                Some("Potential synthetic audio detected (score: 0.26)")
            );
        }
        Assessment::Neutral => panic!("ninety-eight frames are enough"),
    }
}

#[test]
fn the_vacuum_score_needs_three_frames() {
    let sensor = VacuumSensor::new(None);
    let mut statistics = VacuumStatistics {
        frames: 2,
        centroid_deviation: bits(100.0),
        bandwidth_deviation: bits(10.0),
        energy_deviation: bits(1.0),
        mean_centroid_step: bits(400.0),
    };
    assert!(matches!(sensor.compute_sfm_score(&statistics), Assessment::Neutral));
    assert!(matches!(sensor.analyze_patterns(&statistics), Assessment::Weighted(_)));
    statistics.frames = 0;
    assert!(matches!(sensor.analyze_patterns(&statistics), Assessment::Neutral));
    statistics.frames = 3;
    match sensor.compute_sfm_score(&statistics) {
        Assessment::Weighted(scores) => assert_eq!(
            scores,
            vec![
                WeightedScore { weight: bits(0.25), score: fixed(1.0) },
                WeightedScore { weight: bits(0.25), score: scaled(10.0, 20.0, 1.0) },
                WeightedScore { weight: bits(0.25), score: scaled(0.5, 1.0, 1.0) },
                WeightedScore { weight: bits(0.25), score: scaled(200.0, 400.0, 1.0) },
            ]
        ),
        Assessment::Neutral => panic!("three frames are enough"),
    }
}

#[test]
fn phase_scores_follow_their_ranges() {
    let sensor = PhaseSensor::new(None);
    assert_eq!(sensor.compute_cross_frame_coherence(1, 0, bits(1.0)), fixed(0.5));
    assert_eq!(sensor.compute_cross_frame_coherence(5, 0, bits(1.0)), fixed(0.5));
    assert_eq!(sensor.compute_cross_frame_coherence(5, 4, bits(1.0)), fixed(1.0));
    assert_eq!(sensor.compute_cross_frame_coherence(5, 4, bits(0.3)), fixed(1.0));
    assert_eq!(sensor.compute_cross_frame_coherence(5, 4, bits(5.0)), fixed(1.0));
    assert_eq!(sensor.compute_cross_frame_coherence(5, 4, bits(0.15)), scaled(0.15, 0.3, 0.5));
    assert_eq!(sensor.compute_cross_frame_coherence(5, 4, bits(10.0)), scaled(5.0, 10.0, 0.7));
    assert_eq!(number(sensor.compute_cross_frame_coherence(5, 4, bits(0.15))), 0.25);
    assert_eq!(number(sensor.compute_cross_frame_coherence(5, 4, bits(10.0))), 0.35);

    assert_eq!(sensor.compute_phase_derivative_score(2, 1, bits(1.0)), fixed(0.5));
    assert_eq!(sensor.compute_phase_derivative_score(3, 0, bits(1.0)), fixed(0.5));
    assert_eq!(sensor.compute_phase_derivative_score(3, 1, bits(1.0)), fixed(1.0));
    assert_eq!(sensor.compute_phase_derivative_score(3, 1, bits(0.05)), scaled(0.05, 0.1, 0.5));
    assert_eq!(sensor.compute_phase_derivative_score(3, 1, bits(4.0)), scaled(2.0, 4.0, 0.6));
    assert_eq!(number(sensor.compute_phase_derivative_score(3, 1, bits(4.0))), 0.3);

    assert_eq!(sensor.compute_phase_randomness_score(0, 0, bits(0.1)), fixed(0.5));
    assert_eq!(sensor.compute_phase_randomness_score(4, 0, bits(0.1)), fixed(0.5));
    assert_eq!(sensor.compute_phase_randomness_score(4, 4, bits(0.3)), fixed(1.0));
    assert_eq!(sensor.compute_phase_randomness_score(4, 4, bits(0.0)), fixed(1.0));
    assert_eq!(sensor.compute_phase_randomness_score(4, 4, bits(0.4)), scaled(0.3, 0.4, 0.7));
}

#[test]
fn the_phase_score_needs_two_frames() {
    let sensor = PhaseSensor::new(None);
    let mut statistics = PhaseStatistics {
        frames: 4,
        pairs: 3,
        mean_variance: bits(0.15),
        triples: 2,
        mean_acceleration: bits(1.0),
        banded_frames: 4,
        mean_deviation: bits(0.6),
    };
    assert!(matches!(
        sensor.compute_phase_coherence_score(1, &statistics),
        Assessment::Neutral
    ));
    match sensor.compute_phase_coherence_score(4, &statistics) {
        Assessment::Weighted(scores) => assert_eq!(
            scores,
            vec![
                WeightedScore { weight: bits(0.4), score: scaled(0.15, 0.3, 0.5) },
                WeightedScore { weight: bits(0.3), score: fixed(1.0) },
                WeightedScore { weight: bits(0.3), score: scaled(0.3, 0.6, 0.7) },
            ]
        ),
        Assessment::Neutral => panic!("four frames are enough"),
    }
    statistics.frames = 1;
    assert!(matches!(
        sensor.compute_phase_coherence_score(4, &statistics),
        Assessment::Neutral
    ));
}

#[test]
fn spectra_are_compared_over_ten_bins_or_more() {
    assert_eq!(PhaseSensor::shared_bins(50, 40), Some(40));
    assert_eq!(PhaseSensor::shared_bins(10, 257), Some(10));
    assert_eq!(PhaseSensor::shared_bins(9, 257), None);
    assert_eq!(PhaseSensor::shared_bins(257, 0), None);
    assert_eq!(PhaseSensor::shared_bins(257, 257), Some(257));
}

#[test]
fn the_high_band_is_the_upper_third() {
    assert_eq!(PhaseSensor::high_band_start(19), None);
    assert_eq!(PhaseSensor::high_band_start(20), Some(13));
    assert_eq!(PhaseSensor::high_band_start(21), Some(14));
    assert_eq!(PhaseSensor::high_band_start(22), Some(14));
    assert_eq!(PhaseSensor::high_band_start(257), Some(171));
    assert_eq!(PhaseSensor::high_band_start(usize::MAX), Some(usize::MAX / 3 * 2));
    for bins in 20..2000usize {
        assert_eq!(PhaseSensor::high_band_start(bins), Some(bins * 2 / 3));
    }
}

#[test]
fn articulation_scores_follow_their_ranges() {
    let sensor = ArticulationSensor::new(None);
    assert_eq!(sensor.compute_transition_score(1, bits(100.0)), fixed(0.5));
    assert_eq!(sensor.compute_transition_score(2, bits(100.0)), fixed(1.0));
    assert_eq!(sensor.compute_transition_score(2, bits(25.0)), scaled(25.0, 50.0, 0.6));
    assert_eq!(sensor.compute_transition_score(2, bits(1000.0)), scaled(500.0, 1000.0, 0.7));
    assert_eq!(number(sensor.compute_transition_score(2, bits(1000.0))), 0.35);

    assert_eq!(sensor.compute_dynamics_score(None), fixed(0.5));
    assert_eq!(sensor.compute_dynamics_score(Some(bits(10.0))), fixed(1.0));
    assert_eq!(sensor.compute_dynamics_score(Some(bits(60.0))), fixed(1.0));
    assert_eq!(sensor.compute_dynamics_score(Some(bits(5.0))), scaled(5.0, 10.0, 0.5));
    assert_eq!(sensor.compute_dynamics_score(Some(bits(120.0))), scaled(60.0, 120.0, 0.8));
    assert_eq!(number(sensor.compute_dynamics_score(Some(bits(5.0)))), 0.25);
    assert_eq!(number(sensor.compute_dynamics_score(Some(bits(120.0)))), 0.4);

    assert_eq!(sensor.compute_zcr_pattern_score(0, bits(0.01)), fixed(0.5));
    assert_eq!(sensor.compute_zcr_pattern_score(3, bits(0.05)), fixed(1.0));
    assert_eq!(sensor.compute_zcr_pattern_score(3, bits(0.9)), fixed(1.0));
    assert_eq!(sensor.compute_zcr_pattern_score(3, bits(0.025)), scaled(0.025, 0.05, 0.6));
    assert_eq!(number(sensor.compute_zcr_pattern_score(3, bits(0.025))), 0.3);

    let (low, high) = (bits(0.1 * 2.0), bits(3.0 * 2.0));
    assert_eq!(sensor.compute_spectral_flux_pattern_score(1, bits(0.1), low, high), fixed(0.5));
    assert_eq!(sensor.compute_spectral_flux_pattern_score(2, bits(0.1), low, high), fixed(0.6));
    assert_eq!(sensor.compute_spectral_flux_pattern_score(2, bits(0.2), low, high), fixed(1.0));
    assert_eq!(sensor.compute_spectral_flux_pattern_score(2, bits(6.0), low, high), fixed(1.0));
    assert_eq!(sensor.compute_spectral_flux_pattern_score(2, bits(6.5), low, high), fixed(0.7));
}

#[test]
fn the_articulation_score_needs_five_frames_and_three_audible() {
    let sensor = ArticulationSensor::new(None);
    let mut statistics = ArticulationStatistics {
        frames: 3,
        transition_deviation: bits(25.0),
        dynamic_range: Some(bits(30.0)),
        crossing_deviation: bits(0.025),
        flux_deviation: bits(1.0),
        flux_low_mark: bits(0.2),
        flux_high_mark: bits(6.0),
    };
    assert!(matches!(
        sensor.compute_articulation_score(4, &statistics),
        Assessment::Neutral
    ));
    match sensor.compute_articulation_score(5, &statistics) {
        Assessment::Weighted(scores) => assert_eq!(
            scores,
            vec![
                WeightedScore { weight: bits(0.3), score: scaled(25.0, 50.0, 0.6) },
                WeightedScore { weight: bits(0.25), score: fixed(1.0) },
                WeightedScore { weight: bits(0.2), score: scaled(0.025, 0.05, 0.6) },
                WeightedScore { weight: bits(0.25), score: fixed(1.0) },
            ]
        ),
        Assessment::Neutral => panic!("five frames, three of them audible, are enough"),
    }
    statistics.frames = 2;
    assert!(matches!(
        sensor.compute_articulation_score(9, &statistics),
        Assessment::Neutral
    ));
}

#[test]
fn the_dynamic_range_lies_between_the_loudest_and_the_quietest_audible() {
    let of = |energies: &[f64]| {
        let encoded: Vec<u64> = energies.iter().map(|x| x.to_bits()).collect();
        ArticulationSensor::dynamic_range_bounds(&encoded)
            .map(|(loudest, quietest)| (f64::from_bits(loudest), f64::from_bits(quietest)))
    };
    assert_eq!(of(&[0.1, 0.3, 0.05]), Some((0.3, 0.05)));
    assert_eq!(of(&[0.1, 0.3]), None);
    assert_eq!(of(&[]), None);
    assert_eq!(of(&[1e-9, 2e-9, 3e-9]), None);
    // what is not above the floor does not count as the quietest
    assert_eq!(of(&[1e-9, 0.5, 0.25, 1e-8]), Some((0.5, 0.25)));
    // the loudest is exactly the floor: nothing is above it
    assert_eq!(of(&[1e-8, 1e-9, 0.0]), Some((1e-8, f64::MAX)));
    assert_eq!(of(&[f64::NAN, 0.2, 0.4, f64::NAN]), Some((0.4, 0.2)));
    assert_eq!(of(&[0.2, 0.2, 0.2]), Some((0.2, 0.2)));
}

#[test]
fn the_rolloff_frequency_is_looked_up_by_bin() {
    let frequencies = [bits(0.0), bits(50.0), bits(100.0)];
    assert_eq!(ArticulationSensor::rolloff_frequency(&frequencies, 0), bits(0.0));
    assert_eq!(ArticulationSensor::rolloff_frequency(&frequencies, 2), bits(100.0));
    assert_eq!(ArticulationSensor::rolloff_frequency(&frequencies, 3), bits(100.0));
    assert_eq!(ArticulationSensor::rolloff_frequency(&frequencies, usize::MAX), bits(100.0));
    assert_eq!(ArticulationSensor::rolloff_frequency(&[], 0), bits(0.0));
}
