//! The responses that a filter can be designed for.
use vstd::prelude::*;

verus! {

/// The shape of a filter's frequency response.
///
/// The type only selects the formulas of a design; it holds no state.
#[derive(Debug, Clone, Copy, PartialEq, Eq, Structural)]
pub enum FilterType {
    /// Passes what lies below the frequency.
    Lowpass,
    /// Passes what lies above the frequency.
    Highpass,
    /// Passes a band round the frequency, with constant skirt gain: the
    /// peak gain is the quality factor.
    Bandpass1,
    /// Passes a band round the frequency, with a peak gain of 0 dB.
    Bandpass2,
    /// Removes a band round the frequency.
    Notch,
    /// Passes everything and turns the phase round the frequency.
    Allpass,
    /// Raises or lowers a band round the frequency by the gain.
    Peak,
    /// Raises or lowers what lies below the frequency by the gain.
    Lowshelf,
    /// Raises or lowers what lies above the frequency by the gain.
    Highshelf,
}

} // verus!
