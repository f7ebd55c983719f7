//! The ways in which configuring or designing a filter can fail.
use vstd::prelude::*;

verus! {

/// Why a sample rate or a design was refused.
///
/// None of these can be retried as it stands: the caller corrects the
/// parameters and asks again.
#[derive(Debug, Clone, Copy, PartialEq, Eq, Structural)]
pub enum BiquadError {
    /// A design was asked for before a sample rate was set.
    NoSampleRate,
    /// Twice the frequency is more than the sample rate.
    FrequencyOverNyquist,
    /// The frequency is below one hertz.
    FrequencyTooLow,
    /// The quality factor is below zero.
    NegativeQ,
    /// A number could not be carried over between the working precision
    /// and the precision of the samples.
    Fatal,
}

impl BiquadError {
    /// The text that `message` returns.
    pub open spec fn text(self) -> Seq<char> {
        match self {
            BiquadError::NoSampleRate => "the sample rate must be set first"@,
            BiquadError::FrequencyOverNyquist => "the frequency is higher than nyqist"@,
            BiquadError::FrequencyTooLow => "the frequency is 0 or lower than 0"@,
            BiquadError::NegativeQ => "q is lower than zero"@,
            BiquadError::Fatal => "fatal number conversion error"@,
        }
    }

    /// A sentence that describes the error.
    pub fn message(&self) -> (text: String)
        ensures
            text@ == self.text(),
    {
        match self {
            BiquadError::NoSampleRate => "the sample rate must be set first".to_owned(),
            BiquadError::FrequencyOverNyquist => "the frequency is higher than nyqist".to_owned(),
            BiquadError::FrequencyTooLow => "the frequency is 0 or lower than 0".to_owned(),
            BiquadError::NegativeQ => "q is lower than zero".to_owned(),
            BiquadError::Fatal => "fatal number conversion error".to_owned(),
        }
    }
}

} // verus!
