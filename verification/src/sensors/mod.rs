//! The three detectors, and what they share: how frame sizes follow the
//! sample rate, and how a score becomes a verdict.

pub mod articulation;
pub mod phase;
pub mod vacuum;

use vstd::prelude::*;
use vstd::string::StringExecFns;
use crate::audio::rate_accepted;
use crate::audio::rejection_text;
use crate::audio::valid_input;
use crate::audio::validate_audio_input;
use crate::binary64::at_least;
use crate::binary64::at_most;
use crate::binary64::below;
use crate::binary64::clamp_unit;
use crate::binary64::HALF;
use crate::binary64::in_unit_interval;
use crate::binary64::is_nan;
use crate::binary64::lemma_order_on_encodings;
use crate::binary64::lemma_unit_clamped;
use crate::binary64::lemma_unit_magnitude;
use crate::binary64::lemma_zero_value;
use crate::binary64::nan;
use crate::binary64::ONE;
use crate::binary64::unit_clamped;
use crate::binary64::ZERO;
use crate::result::SensorResult;
use crate::result::SensorResultView;
use crate::text::push_two_decimals;
use crate::text::two_decimals;

verus! {

/// The sample rate, in Hz, at which the frame and hop sizes are defined.
pub const REFERENCE_RATE: u32 = 16000;

/// A count of samples defined at the reference rate, at another sample rate.
pub open spec fn scaled_samples(reference: nat, sample_rate: nat) -> nat {
    reference * sample_rate / (REFERENCE_RATE as nat)
}

/// Scales a count of samples from the reference rate to `sample_rate`.
pub fn scale_to_rate(reference: u32, sample_rate: u32) -> (r: usize)
    requires
        scaled_samples(reference as nat, sample_rate as nat) <= usize::MAX,
    ensures
        r == scaled_samples(reference as nat, sample_rate as nat),
{
    assert(reference * sample_rate <= 0xFFFF_FFFF * 0xFFFF_FFFF) by (nonlinear_arith)
        requires
            reference <= 0xFFFF_FFFF,
            sample_rate <= 0xFFFF_FFFF,
    ;
    let product: u64 = reference as u64 * sample_rate as u64;
    (product / (REFERENCE_RATE as u64)) as usize
}

/// A count of at most a second's samples at the reference rate fits a
/// `usize` at every sample rate.
pub proof fn lemma_scaled_samples_fit(reference: u32, sample_rate: u32)
    requires
        reference <= REFERENCE_RATE,
    ensures
        scaled_samples(reference as nat, sample_rate as nat) <= sample_rate,
        scaled_samples(reference as nat, sample_rate as nat) <= usize::MAX,
{
    assert(reference * sample_rate <= 16000 * sample_rate) by (nonlinear_arith)
        requires
            reference <= 16000,
    ;
}

/// At an accepted sample rate a scaled count is at least half its reference
/// and at most six times it: no frame or hop size is zero there unless its
/// reference is below two.
pub proof fn lemma_scaled_samples_bounds(reference: u32, sample_rate: u32)
    requires
        rate_accepted(sample_rate),
    ensures
        reference / 2 <= scaled_samples(reference as nat, sample_rate as nat) <= 6 * reference,
{
    assert(8000 * reference <= reference * sample_rate <= 96000 * reference)
        by (nonlinear_arith)
        requires
            8000 <= sample_rate <= 96000,
    ;
}

/// The value that a verdict gives for a measured score: the score clamped
/// to the unit interval, and the neutral 0.5 for a score that is no number.
pub open spec fn settled(score: u64) -> u64 {
    if nan(score) {
        HALF
    } else {
        unit_clamped(score)
    }
}

/// Settles a measured score: the result is always a number in the unit
/// interval.
pub fn settle(score: u64) -> (r: u64)
    ensures
        r == settled(score),
        in_unit_interval(r),
{
    proof {
        lemma_unit_clamped(score);
        lemma_order_on_encodings(ZERO, HALF);
        lemma_order_on_encodings(HALF, ONE);
        lemma_zero_value(ZERO);
    }
    if is_nan(score) {
        HALF
    } else {
        clamp_unit(score)
    }
}

/// What a sensor returns for a buffer, a sample rate and the score measured
/// on them.
///
/// Input that is not fit for analysis fails with the value 0.0 and the reason
/// `validation_error`, whatever the score. Otherwise the value is the settled
/// score, the audio passes where the value is at least the threshold, and
/// only a failure carries the sensor's reason code. The detail ends with the
/// value to two decimals.
pub open spec fn verdict(
    name: Seq<char>,
    threshold: u64,
    audio: Seq<u64>,
    sample_rate: u32,
    score: u64,
    reason: Seq<char>,
    pass_detail: Seq<char>,
    fail_detail: Seq<char>,
) -> SensorResultView {
    if !valid_input(audio, sample_rate) {
        SensorResultView {
            sensor_name: name,
            passed: Some(false),
            value: ZERO,
            threshold,
            reason: Some("validation_error"@),
            detail: Some("Input validation failed: "@ + rejection_text(audio, sample_rate)),
            metadata: Map::empty(),
        }
    } else {
        let value = settled(score);
        let passed = at_most(threshold, value);
        SensorResultView {
            sensor_name: name,
            passed: Some(passed),
            value,
            threshold,
            reason: if passed {
                None
            } else {
                Some(reason)
            },
            detail: Some(
                (if passed {
                    pass_detail
                } else {
                    fail_detail
                }) + " (score: "@ + two_decimals(value) + ")"@,
            ),
            metadata: Map::empty(),
        }
    }
}

/// Forms a sensor's result from a buffer, a sample rate and the score
/// measured on them.
pub fn judge(
    name: &String,
    threshold: u64,
    audio: &[u64],
    sample_rate: u32,
    score: u64,
    reason: &str,
    pass_detail: &str,
    fail_detail: &str,
) -> (r: SensorResult)
    ensures
        r@ == verdict(
            name@,
            threshold,
            audio@,
            sample_rate,
            score,
            reason@,
            pass_detail@,
            fail_detail@,
        ),
        in_unit_interval(r.value),
{
    match validate_audio_input(audio, sample_rate) {
        Err(e) => {
            proof {
                lemma_zero_value(ZERO);
            }
            let detail = "Input validation failed: ".to_owned().concat(e.message().as_str());
            SensorResult::new(
                name.clone(),
                Some(false),
                ZERO,
                threshold,
                Some("validation_error".to_owned()),
                Some(detail),
            )
        },
        Ok(()) => {
            let value = settle(score);
            let passed = at_least(value, threshold);
            let mut detail = if passed {
                pass_detail.to_owned()
            } else {
                fail_detail.to_owned()
            };
            detail.append(" (score: ");
            proof {
                lemma_unit_magnitude(value);
            }
            push_two_decimals(&mut detail, value);
            detail.append(")");
            let code = if passed {
                None
            } else {
                Some(reason.to_owned())
            };
            SensorResult::new(name.clone(), Some(passed), value, threshold, code, Some(detail))
        },
    }
}

/// The value of every verdict is a number in the unit interval.
pub proof fn lemma_value_in_unit_interval(
    name: Seq<char>,
    threshold: u64,
    audio: Seq<u64>,
    sample_rate: u32,
    score: u64,
    reason: Seq<char>,
    pass_detail: Seq<char>,
    fail_detail: Seq<char>,
)
    ensures
        in_unit_interval(
            verdict(
                name,
                threshold,
                audio,
                sample_rate,
                score,
                reason,
                pass_detail,
                fail_detail,
            ).value,
        ),
{
    lemma_unit_clamped(score);
    lemma_order_on_encodings(ZERO, HALF);
    lemma_order_on_encodings(HALF, ONE);
    lemma_zero_value(ZERO);
}

/// On input that is fit, a score that settles below the threshold fails
/// with the sensor's reason code, and any other passes without a reason.
pub proof fn lemma_verdict_by_threshold(
    name: Seq<char>,
    threshold: u64,
    audio: Seq<u64>,
    sample_rate: u32,
    score: u64,
    reason: Seq<char>,
    pass_detail: Seq<char>,
    fail_detail: Seq<char>,
)
    requires
        valid_input(audio, sample_rate),
        !nan(threshold),
    ensures
        ({
            let r = verdict(
                name,
                threshold,
                audio,
                sample_rate,
                score,
                reason,
                pass_detail,
                fail_detail,
            );
            &&& below(settled(score), threshold) ==> r.passed == Some(false) && r.reason == Some(
                reason,
            )
            &&& !below(settled(score), threshold) ==> r.passed == Some(true) && r.reason
                is None
            &&& r.detail is Some
        }),
{
    lemma_unit_clamped(score);
    lemma_order_on_encodings(ZERO, HALF);
    lemma_order_on_encodings(HALF, ONE);
}

/// A verdict depends on nothing but the sensor's name and threshold, the
/// buffer, the sample rate and the score: two results for the same are the
/// same result.
pub proof fn lemma_verdict_repeatable(
    first: SensorResult,
    second: SensorResult,
    name: Seq<char>,
    threshold: u64,
    audio: Seq<u64>,
    sample_rate: u32,
    score: u64,
    reason: Seq<char>,
    pass_detail: Seq<char>,
    fail_detail: Seq<char>,
)
    requires
        first@ == verdict(
            name,
            threshold,
            audio,
            sample_rate,
            score,
            reason,
            pass_detail,
            fail_detail,
        ),
        second@ == verdict(
            name,
            threshold,
            audio,
            sample_rate,
            score,
            reason,
            pass_detail,
            fail_detail,
        ),
    ensures
        first@ == second@,
{
}

} // verus!
