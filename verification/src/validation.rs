//! The validation of a design's parameters.
use vstd::prelude::*;
use crate::error::BiquadError;
use crate::formula::{yields, Formula};
use crate::scalar::{is_equality, is_less, is_zero, widens, Real, Sample};

verus! {

/// What the tests that come before a design found.
///
/// The tests are made in the order of the fields, and a test is only made
/// where all those before it passed: what a later field holds is then of no
/// account.
pub struct Findings<R> {
    /// The sample rate compared equal to zero.
    pub rate_unset: bool,
    /// The sample rate in the working precision.
    pub wide_rate: Option<R>,
    /// Twice the frequency was more than the sample rate.
    pub over_nyquist: bool,
    /// The frequency was less than one.
    pub too_low: bool,
    /// The quality factor was less than zero.
    pub negative_q: bool,
}

impl<R> Findings<R> {
    /// The sample rate in the working precision where every test passed,
    /// else the error of the first test that did not.
    pub open spec fn verdict(self) -> Result<R, BiquadError> {
        if self.rate_unset {
            Err(BiquadError::NoSampleRate)
        } else if self.wide_rate is None {
            Err(BiquadError::Fatal)
        } else if self.over_nyquist {
            Err(BiquadError::FrequencyOverNyquist)
        } else if self.too_low {
            Err(BiquadError::FrequencyTooLow)
        } else if self.negative_q {
            Err(BiquadError::NegativeQ)
        } else {
            Ok(self.wide_rate->0)
        }
    }
}

/// Comparing `rate` with zero for equality gave `out`.
pub open spec fn rate_test<F: Sample>(rate: F, out: bool) -> bool {
    exists|zero: F| #[trigger] is_zero(zero) && is_equality(rate, zero, out)
}

/// Asking whether `rate` is less than twice `frequency` gave `out`.
pub open spec fn nyquist_test<R: Real>(frequency: R, rate: R, out: bool) -> bool {
    exists|twice: R| #[trigger]
        yields(Formula::Whole(2).times(Formula::Given(frequency)), twice) && is_less(
            rate,
            twice,
            out,
        )
}

/// Asking whether `frequency` is less than one gave `out`.
pub open spec fn floor_test<R: Real>(frequency: R, out: bool) -> bool {
    exists|one: R| #[trigger] yields(Formula::Whole(1), one) && is_less(frequency, one, out)
}

/// Asking whether `q` is less than zero gave `out`.
pub open spec fn sign_test<R: Real>(q: R, out: bool) -> bool {
    exists|zero: R| #[trigger] yields(Formula::Whole(0), zero) && is_less(q, zero, out)
}

/// `seen` is what the tests gave for the stored `rate` and for `frequency`
/// and `q`, each test made only where those before it passed.
pub open spec fn observed<F: Sample>(
    rate: F,
    frequency: F::Wide,
    q: F::Wide,
    seen: Findings<F::Wide>,
) -> bool {
    &&& rate_test(rate, seen.rate_unset)
    &&& !seen.rate_unset ==> widens(rate, seen.wide_rate)
    &&& !seen.rate_unset && seen.wide_rate is Some ==> nyquist_test(
        frequency,
        seen.wide_rate->0,
        seen.over_nyquist,
    )
    &&& !seen.rate_unset && seen.wide_rate is Some && !seen.over_nyquist ==> floor_test(
        frequency,
        seen.too_low,
    )
    &&& !seen.rate_unset && seen.wide_rate is Some && !seen.over_nyquist && !seen.too_low
        ==> sign_test(q, seen.negative_q)
}

} // verus!
