//! The exact parts of the spectral statistics: which frames can be
//! transformed, how many bins a frame has, when a spectrum is too faint to
//! have a centroid, and where the rolloff lies in a running sum.

use vstd::prelude::*;
use crate::binary64::at_least;
use crate::binary64::at_most;
use crate::binary64::below;
use crate::binary64::EPSILON;
use crate::binary64::less_than;
use crate::errors::SensorError;

verus! {

/// Checks that a frame of `len` samples can be transformed: a frame without
/// samples has no transform.
pub fn check_transform_input(len: usize) -> (r: Result<(), SensorError>)
    ensures
        match r {
            Ok(()) => len > 0,
            Err(SensorError::InvalidInput(text)) => {
                &&& len == 0
                &&& text@ == "Cannot compute FFT of empty data"@
            },
            Err(_) => false,
        },
{
    if len == 0 {
        Err(SensorError::invalid_input("Cannot compute FFT of empty data"))
    } else {
        Ok(())
    }
}

/// The number of bins of non-negative frequency in the transform of
/// `n_samples` samples: from the constant term up to half the sample rate.
pub open spec fn positive_bin_count(n_samples: nat) -> nat {
    if n_samples == 0 {
        0
    } else {
        n_samples / 2 + 1
    }
}

/// The number of bins that the magnitude, power and phase spectra of a frame
/// of `n_samples` samples have, and its list of bin frequencies.
pub fn positive_bins(n_samples: usize) -> (r: usize)
    ensures
        r == positive_bin_count(n_samples as nat),
{
    if n_samples == 0 {
        0
    } else {
        n_samples / 2 + 1
    }
}

/// Whether a spectrum with this total magnitude is too faint to measure: its
/// centroid and its bandwidth are then 0.0.
pub fn is_negligible(total_magnitude: u64) -> (r: bool)
    ensures
        r == below(total_magnitude, EPSILON),
{
    less_than(total_magnitude, EPSILON)
}

/// The running sum reaches the target at `index`.
pub open spec fn reaches(cumulative: Seq<u64>, target: u64, index: int) -> bool {
    at_most(target, cumulative[index])
}

/// `index` is the rolloff of a running sum: the first place at which the sum
/// reaches the target, or the last place where it never does.
pub open spec fn is_rolloff(cumulative: Seq<u64>, target: u64, index: int) -> bool {
    &&& 0 <= index < cumulative.len()
    &&& forall|j: int| 0 <= j < index ==> !#[trigger] reaches(cumulative, target, j)
    &&& reaches(cumulative, target, index) || index == cumulative.len() - 1
}

/// The rolloff bin of a spectrum, from the running sum of its magnitudes and
/// the share of the total that is to be reached: the first bin at which the
/// running sum is at least `target`. Where no bin reaches it the result is
/// the last bin, and for an empty spectrum it is 0.
pub fn spectral_rolloff(cumulative: &[u64], target: u64) -> (index: usize)
    ensures
        cumulative@.len() == 0 ==> index == 0,
        cumulative@.len() > 0 ==> is_rolloff(cumulative@, target, index as int),
{
    if cumulative.len() == 0 {
        return 0;
    }
    let mut i: usize = 0;
    while i < cumulative.len()
        invariant
            i <= cumulative@.len(),
            cumulative@.len() > 0,
            forall|j: int| 0 <= j < i ==> !#[trigger] reaches(cumulative@, target, j),
        decreases cumulative@.len() - i,
    {
        if at_least(cumulative[i], target) {
            return i;
        }
        i += 1;
    }
    cumulative.len() - 1
}

/// A running sum has one rolloff only.
pub proof fn lemma_rolloff_unique(cumulative: Seq<u64>, target: u64, first: int, second: int)
    requires
        is_rolloff(cumulative, target, first),
        is_rolloff(cumulative, target, second),
    ensures
        first == second,
{
    if first < second {
        assert(!reaches(cumulative, target, first));
    } else if second < first {
        assert(!reaches(cumulative, target, second));
    }
}

} // verus!
