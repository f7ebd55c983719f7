//! Second-order recursive filters: the design of their coefficients from a
//! response type, a frequency, a gain and a quality factor, and the filter
//! that applies them to a stream of samples.
//!
//! - `scalar`: what the library asks of the numbers it works on.
//! - `formula`: formulas over those numbers, and what they give.
//! - `kind`, `error`: the response types, and the errors of a design.
//! - `validation`, `plan`, `design`: the validation of a design's
//!   parameters, the formulas of the responses, and the coefficient set that
//!   a design fills.
//! - `filter`: the filter.
//! - `laws`: what holds of designs and filters in general.
pub mod error;
pub mod kind;
pub mod scalar;
pub mod formula;
pub mod validation;
pub mod plan;
pub mod design;
pub mod filter;
pub mod laws;
