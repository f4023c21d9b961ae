//! Checks and framing of a buffer of samples.
//!
//! A sample is an IEEE 754 binary64 value, carried as its encoding.

use vstd::prelude::*;
use vstd::arithmetic::div_mod::lemma_fundamental_div_mod;
use vstd::arithmetic::div_mod::lemma_fundamental_div_mod_converse;
use vstd::arithmetic::power2::lemma2_to64;
use vstd::arithmetic::power2::lemma2_to64_rest;
use vstd::arithmetic::power2::lemma_pow2_adds;
use crate::binary64::absolute;
use crate::binary64::approximates;
use crate::binary64::at_least;
use crate::binary64::at_most;
use crate::binary64::below;
use crate::binary64::EPSILON;
use crate::binary64::finite;
use crate::binary64::greater_of;
use crate::binary64::is_infinite;
use crate::binary64::is_nan;
use crate::binary64::lemma_approximates;
use crate::binary64::less_than;
use crate::binary64::magnitude;
use crate::binary64::maximum;
use crate::binary64::nan;
use crate::binary64::ZERO;
use crate::errors::SensorError;
use crate::text::decimal;
use crate::text::push_decimal;

verus! {

/// The lowest accepted sample rate, in Hz.
pub const MIN_SAMPLE_RATE: u32 = 8000;

/// The highest accepted sample rate, in Hz.
pub const MAX_SAMPLE_RATE: u32 = 96000;

/// The least number of samples that can be analysed (1 ms at 8 kHz).
pub const MIN_SAMPLES: usize = 8;

/// The encoding of 1e-6: a frame whose RMS energy is below it is silent.
pub const SILENCE_FLOOR: u64 = 0x3EB0_C6F7_A0B5_ED8D;

/// The sample rate lies in the accepted range.
pub open spec fn rate_accepted(sample_rate: u32) -> bool {
    MIN_SAMPLE_RATE <= sample_rate <= MAX_SAMPLE_RATE
}

/// Every sample is finite.
pub open spec fn all_finite(audio: Seq<u64>) -> bool {
    forall|i: int| 0 <= i < audio.len() ==> finite(#[trigger] audio[i])
}

/// What makes a buffer and a sample rate fit for analysis.
pub open spec fn valid_input(audio: Seq<u64>, sample_rate: u32) -> bool {
    &&& rate_accepted(sample_rate)
    &&& audio.len() >= MIN_SAMPLES
    &&& all_finite(audio)
}

/// `index` is the place of the first sample that is not finite.
pub open spec fn first_offender(audio: Seq<u64>, index: int) -> bool {
    &&& 0 <= index < audio.len()
    &&& !finite(audio[index])
    &&& forall|j: int| 0 <= j < index ==> finite(#[trigger] audio[j])
}

/// The description of a sample that is not finite, with its place.
pub open spec fn offender_text(sample: u64, index: nat) -> Seq<char> {
    if nan(sample) {
        "NaN value at sample "@ + decimal(index)
    } else {
        "Infinite value at sample "@ + decimal(index)
    }
}

/// The message of the error that a buffer and a sample rate are turned away
/// with, where they are not fit for analysis.
pub open spec fn rejection_text(audio: Seq<u64>, sample_rate: u32) -> Seq<char> {
    if !rate_accepted(sample_rate) {
        SensorError::InvalidSampleRate(sample_rate).message_text()
    } else if audio.len() < MIN_SAMPLES {
        SensorError::InsufficientData(MIN_SAMPLES, audio.len() as usize).message_text()
    } else {
        let index = choose|i: int| first_offender(audio, i);
        "Invalid input: "@ + offender_text(audio[index], index as nat)
    }
}

/// Checks a buffer and its sample rate before any numeric work.
///
/// The sample rate is checked first, then the length, then the samples one
/// by one; the error tells the first check that failed, and for a sample
/// that is not finite, the first such sample.
pub fn validate_audio_input(audio: &[u64], sample_rate: u32) -> (r: Result<(), SensorError>)
    ensures
        match r {
            Ok(()) => valid_input(audio@, sample_rate),
            Err(SensorError::InvalidSampleRate(rate)) => {
                &&& !rate_accepted(sample_rate)
                &&& rate == sample_rate
            },
            Err(SensorError::InsufficientData(required, actual)) => {
                &&& rate_accepted(sample_rate)
                &&& audio@.len() < MIN_SAMPLES
                &&& required == MIN_SAMPLES
                &&& actual == audio@.len()
            },
            Err(SensorError::InvalidInput(text)) => {
                &&& rate_accepted(sample_rate)
                &&& audio@.len() >= MIN_SAMPLES
                &&& exists|i: int|
                    first_offender(audio@, i) && text@ == offender_text(audio@[i], i as nat)
            },
            Err(_) => false,
        },
        r matches Err(e) ==> e.message_text() == rejection_text(audio@, sample_rate),
{
    if sample_rate < MIN_SAMPLE_RATE || sample_rate > MAX_SAMPLE_RATE {
        return Err(SensorError::invalid_sample_rate(sample_rate));
    }
    if audio.len() < MIN_SAMPLES {
        return Err(SensorError::insufficient_data(MIN_SAMPLES, audio.len()));
    }
    let mut i: usize = 0;
    while i < audio.len()
        invariant
            i <= audio@.len(),
            rate_accepted(sample_rate),
            audio@.len() >= MIN_SAMPLES,
            forall|j: int| 0 <= j < i ==> finite(#[trigger] audio@[j]),
        decreases audio@.len() - i,
    {
        let sample = audio[i];
        if is_nan(sample) {
            let mut text = "NaN value at sample ".to_owned();
            push_decimal(&mut text, i as u64);
            assert(first_offender(audio@, i as int));
            return Err(SensorError::InvalidInput(text));
        }
        if is_infinite(sample) {
            let mut text = "Infinite value at sample ".to_owned();
            push_decimal(&mut text, i as u64);
            assert(first_offender(audio@, i as int));
            return Err(SensorError::InvalidInput(text));
        }
        i += 1;
    }
    Ok(())
}

/// The number of frames that a buffer of `len` samples holds: none where a
/// size is zero or the buffer is shorter than one frame, and no partial frame
/// at the end.
pub open spec fn frame_count(len: nat, frame_size: nat, hop_size: nat) -> nat {
    if frame_size == 0 || hop_size == 0 || len < frame_size {
        0
    } else {
        ((len - frame_size) / hop_size as int + 1) as nat
    }
}

/// The samples of frame number `k`.
pub open spec fn frame_at(audio: Seq<u64>, frame_size: nat, hop_size: nat, k: int) -> Seq<u64> {
    audio.subrange(k * hop_size, k * hop_size + frame_size)
}

/// Copies `len` samples from `start` on.
fn copy_samples(audio: &[u64], start: usize, len: usize) -> (r: Vec<u64>)
    requires
        start + len <= audio@.len(),
    ensures
        r@ == audio@.subrange(start as int, start + len),
{
    let mut r: Vec<u64> = Vec::new();
    let total: usize = audio.len();
    let mut i: usize = 0;
    while i < len
        invariant
            i <= len,
            total == audio@.len(),
            start + len <= audio@.len(),
            r@ == audio@.subrange(start as int, start + i),
        decreases len - i,
    {
        r.push(audio[start + i]);
        i += 1;
        assert(r@ =~= audio@.subrange(start as int, start + i));
    }
    r
}

/// Splits a buffer into overlapping frames of `frame_size` samples, each
/// starting `hop_size` samples after the one before.
pub fn frame_audio(audio: &[u64], frame_size: usize, hop_size: usize) -> (frames: Vec<Vec<u64>>)
    ensures
        frames@.len() == frame_count(audio@.len(), frame_size as nat, hop_size as nat),
        forall|k: int|
            0 <= k < frames@.len() ==> (#[trigger] frames@[k])@ == frame_at(
                audio@,
                frame_size as nat,
                hop_size as nat,
                k,
            ),
{
    let mut frames: Vec<Vec<u64>> = Vec::new();
    if frame_size == 0 || hop_size == 0 || audio.len() < frame_size {
        return frames;
    }
    let last: usize = audio.len() - frame_size;
    let mut start: usize = 0;
    assert(frames@.len() * hop_size == 0) by (nonlinear_arith)
        requires
            frames@.len() == 0,
    ;
    loop
        invariant_except_break
            start <= last,
            start == frames@.len() * hop_size,
        invariant
            hop_size > 0,
            last + frame_size == audio@.len(),
            forall|k: int|
                0 <= k < frames@.len() ==> (#[trigger] frames@[k])@ == frame_at(
                    audio@,
                    frame_size as nat,
                    hop_size as nat,
                    k,
                ),
        ensures
            frames@.len() == last as int / hop_size as int + 1,
        decreases last - start,
    {
        let ghost k = frames@.len() as int;
        let frame = copy_samples(audio, start, frame_size);
        frames.push(frame);
        if last - start < hop_size {
            proof {
                lemma_fundamental_div_mod_converse(
                    last as int,
                    hop_size as int,
                    k,
                    last - start,
                );
            }
            break ;
        }
        start += hop_size;
        assert(start == (k + 1) * hop_size) by (nonlinear_arith)
            requires
                start == k * hop_size + hop_size,
        ;
    }
    frames
}

/// Every frame lies within the buffer, and one frame more would not.
pub proof fn lemma_frames_fill_the_buffer(len: nat, frame_size: nat, hop_size: nat, k: int)
    requires
        frame_size > 0,
        hop_size > 0,
        len >= frame_size,
    ensures
        0 <= k < frame_count(len, frame_size, hop_size) ==> k * hop_size + frame_size <= len,
        frame_count(len, frame_size, hop_size) * hop_size + frame_size > len,
{
    let room = (len - frame_size) as int;
    let hop = hop_size as int;
    lemma_fundamental_div_mod(room, hop);
    let whole = room / hop;
    assert(frame_count(len, frame_size, hop_size) == whole + 1);
    assert((whole + 1) * hop == hop * whole + hop) by (nonlinear_arith);
    if 0 <= k < whole + 1 {
        assert(k * hop <= hop * whole) by (nonlinear_arith)
            requires
                0 <= k <= whole,
                hop > 0,
        ;
    }
}

/// The number of samples that a window leaves of a frame of `len` samples:
/// all of them, and none of a frame of fewer than two samples, on which no
/// window is defined.
pub fn window_length(len: usize) -> (r: usize)
    ensures
        r == (if len < 2 {
            0
        } else {
            len
        }),
{
    if len < 2 {
        0
    } else {
        len
    }
}

/// The RMS energy that needs no measuring: 0.0 for a frame without samples,
/// and none for any other frame.
pub fn energy_without_samples(len: usize) -> (r: Option<u64>)
    ensures
        r == (if len == 0 {
            Some(ZERO)
        } else {
            None
        }),
{
    if len == 0 {
        Some(ZERO)
    } else {
        None
    }
}

/// The sign test of a sample: it is 0.0 or above. Both zeros pass, a NaN
/// does not.
pub open spec fn non_negative(sample: u64) -> bool {
    at_most(ZERO, sample)
}

/// Adjacent samples on different sides of the sign test.
pub open spec fn crossing(earlier: u64, later: u64) -> bool {
    non_negative(earlier) != non_negative(later)
}

/// The number of adjacent pairs of samples at which the sign changes.
pub open spec fn crossings(audio: Seq<u64>) -> nat
    decreases audio.len(),
{
    if audio.len() < 2 {
        0
    } else {
        crossings(audio.drop_last()) + if crossing(
            audio[audio.len() - 2],
            audio[audio.len() - 1],
        ) {
            1nat
        } else {
            0nat
        }
    }
}

/// A rate as a fraction of two counts. The denominator is never zero.
#[derive(Clone, Copy, Debug, PartialEq, Eq)]
pub struct Ratio {
    /// How often it happened.
    pub numerator: usize,
    /// How often it could have happened.
    pub denominator: usize,
}

/// The zero-crossing rate of a frame: the share of adjacent pairs of samples
/// at which the sign changes, and zero out of one for a frame of fewer than
/// two samples.
pub fn zero_crossing_rate(audio: &[u64]) -> (r: Ratio)
    ensures
        audio@.len() < 2 ==> r.numerator == 0 && r.denominator == 1,
        audio@.len() >= 2 ==> r.numerator == crossings(audio@) && r.denominator == audio@.len()
            - 1,
        r.numerator <= r.denominator,
        r.denominator > 0,
{
    if audio.len() < 2 {
        return Ratio { numerator: 0, denominator: 1 };
    }
    let mut count: usize = 0;
    let mut above: bool = at_least(audio[0], ZERO);
    let mut i: usize = 1;
    assert(audio@.subrange(0, 1).len() == 1);
    while i < audio.len()
        invariant
            1 <= i <= audio@.len(),
            above == non_negative(audio@[i - 1]),
            count == crossings(audio@.subrange(0, i as int)),
            count <= i - 1,
        decreases audio@.len() - i,
    {
        let next = at_least(audio[i], ZERO);
        proof {
            let grown = audio@.subrange(0, i + 1);
            assert(grown.drop_last() =~= audio@.subrange(0, i as int));
        }
        if next != above {
            count += 1;
        }
        above = next;
        i += 1;
    }
    assert(audio@.subrange(0, audio@.len() as int) =~= audio@);
    Ratio { numerator: count, denominator: audio.len() - 1 }
}

/// Whether a frame with this RMS energy is silent: such a frame takes no
/// part in the analysis.
pub fn is_silent(rms: u64) -> (r: bool)
    ensures
        r == below(rms, SILENCE_FLOOR),
{
    less_than(rms, SILENCE_FLOOR)
}

/// The peak of a buffer: the greatest absolute value of its samples, a NaN
/// never counting, and 0.0 for an empty buffer.
pub open spec fn peak(audio: Seq<u64>) -> u64
    decreases audio.len(),
{
    if audio.len() == 0 {
        ZERO
    } else {
        greater_of(peak(audio.drop_last()), magnitude(audio.last()))
    }
}

/// How a buffer is brought into the range from -1.0 to 1.0.
#[derive(Clone, Copy, Debug, PartialEq, Eq)]
pub enum Normalization {
    /// The peak is too small to divide by: every sample becomes 0.0.
    Silence,
    /// Every sample is divided by this peak.
    DivideBy(u64),
}

/// The peak of a buffer.
pub fn peak_amplitude(audio: &[u64]) -> (r: u64)
    ensures
        r == peak(audio@),
{
    let mut r: u64 = ZERO;
    let mut i: usize = 0;
    assert(audio@.subrange(0, 0) =~= Seq::<u64>::empty());
    while i < audio.len()
        invariant
            i <= audio@.len(),
            r == peak(audio@.subrange(0, i as int)),
        decreases audio@.len() - i,
    {
        proof {
            let grown = audio@.subrange(0, i + 1);
            assert(grown.drop_last() =~= audio@.subrange(0, i as int));
            assert(grown.last() == audio@[i as int]);
        }
        r = maximum(r, absolute(audio[i]));
        i += 1;
    }
    assert(audio@.subrange(0, audio@.len() as int) =~= audio@);
    r
}

/// Decides how a buffer is normalized: by its peak, unless the peak is below
/// `EPSILON`.
pub fn normalize_audio(audio: &[u64]) -> (r: Normalization)
    ensures
        r == (if below(peak(audio@), EPSILON) {
            Normalization::Silence
        } else {
            Normalization::DivideBy(peak(audio@))
        }),
{
    let top = peak_amplitude(audio);
    if less_than(top, EPSILON) {
        Normalization::Silence
    } else {
        Normalization::DivideBy(top)
    }
}

/// The peak is no NaN and not negative, no sample that is a number exceeds
/// it in absolute value, and it is 0.0 or the absolute value of a sample.
pub proof fn lemma_peak(audio: Seq<u64>)
    ensures
        !nan(peak(audio)),
        at_most(ZERO, peak(audio)),
        forall|i: int|
            0 <= i < audio.len() && !nan(audio[i]) ==> at_most(
                magnitude(#[trigger] audio[i]),
                peak(audio),
            ),
        peak(audio) == ZERO || exists|i: int|
            0 <= i < audio.len() && peak(audio) == magnitude(#[trigger] audio[i]),
    decreases audio.len(),
{
    if audio.len() > 0 {
        let rest = audio.drop_last();
        lemma_peak(rest);
        assert forall|i: int| 0 <= i < audio.len() && !nan(audio[i]) implies at_most(
            magnitude(#[trigger] audio[i]),
            peak(audio),
        ) by {
            if i < rest.len() {
                assert(rest[i] == audio[i]);
            }
        }
        if peak(audio) != ZERO {
            if peak(audio) == magnitude(audio.last()) {
                assert(peak(audio) == magnitude(audio[audio.len() - 1]));
            } else {
                let i = choose|i: int| 0 <= i < rest.len() && peak(rest) == magnitude(rest[i]);
                assert(rest[i] == audio[i]);
            }
        }
    }
}

/// The silence floor is the number nearest to a millionth.
pub proof fn lemma_constants()
    ensures
        approximates(SILENCE_FLOOR, 1, 1000000),
{
    lemma2_to64();
    lemma2_to64_rest();
    lemma_pow2_adds(64, 8);
    lemma_approximates(SILENCE_FLOOR, 1, 1000000);
}

} // verus!
