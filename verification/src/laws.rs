//! What holds of designs and of filters in general.
use vstd::prelude::*;
use crate::design::{designed, Coefficients, Run};
use crate::error::BiquadError;
use crate::filter::{evaluates, history_after, responds, History, Partials, State};
use crate::kind::FilterType;
use crate::scalar::{is_difference, is_equality, is_product, is_sum, is_zero, Sample};
use crate::validation::Findings;

verus! {

/// A design on a coefficient set whose sample rate compared equal to zero
/// is refused with `NoSampleRate` and changes nothing, whatever the
/// response type and the parameters are and whatever else the tests would
/// have found.
pub proof fn unset_rate_is_refused<F: Sample>(run: Run<F>, before: Coefficients<F>)
    requires
        run.seen.rate_unset,
    ensures
        run.seen.verdict() == Err::<F::Wide, BiquadError>(BiquadError::NoSampleRate),
        run.result() == Err::<(), BiquadError>(BiquadError::NoSampleRate),
        run.leaves(before) == before,
{
}

/// The parameters are refused for the first reason that holds, in the
/// order: no sample rate; a sample rate that cannot be had in the working
/// precision; a frequency over half the sample rate; a frequency below one;
/// a quality factor below zero. They are accepted, with the sample rate in
/// the working precision, exactly where none holds.
pub proof fn first_reason_counts<R>(seen: Findings<R>)
    ensures
        seen.rate_unset ==> seen.verdict() == Err::<R, BiquadError>(BiquadError::NoSampleRate),
        !seen.rate_unset && seen.wide_rate is None ==> seen.verdict() == Err::<R, BiquadError>(
            BiquadError::Fatal,
        ),
        !seen.rate_unset && seen.wide_rate is Some && seen.over_nyquist ==> seen.verdict() == Err::<
            R,
            BiquadError,
        >(BiquadError::FrequencyOverNyquist),
        !seen.rate_unset && seen.wide_rate is Some && !seen.over_nyquist && seen.too_low
            ==> seen.verdict() == Err::<R, BiquadError>(BiquadError::FrequencyTooLow),
        !seen.rate_unset && seen.wide_rate is Some && !seen.over_nyquist && !seen.too_low
            && seen.negative_q ==> seen.verdict() == Err::<R, BiquadError>(BiquadError::NegativeQ),
        !seen.rate_unset && seen.wide_rate is Some && !seen.over_nyquist && !seen.too_low
            && !seen.negative_q <==> seen.verdict() == Ok::<R, BiquadError>(seen.wide_rate->0),
        seen.verdict() is Ok <==> !seen.rate_unset && seen.wide_rate is Some && !seen.over_nyquist
            && !seen.too_low && !seen.negative_q,
{
}

/// The zeros of `F` compare equal to each other.
pub open spec fn zero_equals_zero<F: Sample>() -> bool {
    forall|a: F, b: F, out: bool|
        is_zero(a) && is_zero(b) && #[trigger] is_equality(a, b, out) ==> out
}

/// On a coefficient set whose sample rate is still the zero that it was
/// made with, every design is refused with `NoSampleRate` and changes
/// nothing: of every response type and with any parameters, for every
/// sample type whose zeros compare equal.
pub proof fn design_before_rate_is_refused<F: Sample>(
    before: Coefficients<F>,
    filter_type: FilterType,
    frequency: F::Wide,
    gain_db: F::Wide,
    q: F::Wide,
    run: Run<F>,
)
    requires
        zero_equals_zero::<F>(),
        is_zero(before.sample_rate),
        designed(before.sample_rate, filter_type, frequency, gain_db, q, run),
    ensures
        run.result() == Err::<(), BiquadError>(BiquadError::NoSampleRate),
        run.leaves(before) == before,
{
}

/// With a sample rate that is set and can be had in the working precision,
/// a design is refused with `FrequencyOverNyquist` where twice the
/// frequency was found to be more than the sample rate; else with
/// `FrequencyTooLow` where the frequency was found to be below one; else
/// with `NegativeQ` where the quality factor was found to be below zero.
/// A refused design changes nothing.
pub proof fn refusals_are_ordered<F: Sample>(run: Run<F>, before: Coefficients<F>)
    requires
        !run.seen.rate_unset,
        run.seen.wide_rate is Some,
    ensures
        run.seen.over_nyquist ==> run.result() == Err::<(), BiquadError>(
            BiquadError::FrequencyOverNyquist,
        ),
        !run.seen.over_nyquist && run.seen.too_low ==> run.result() == Err::<(), BiquadError>(
            BiquadError::FrequencyTooLow,
        ),
        !run.seen.over_nyquist && !run.seen.too_low && run.seen.negative_q ==> run.result()
            == Err::<(), BiquadError>(BiquadError::NegativeQ),
        run.seen.over_nyquist || run.seen.too_low || run.seen.negative_q ==> run.leaves(before)
            == before,
{
}

/// A design succeeds exactly where every test passed and every
/// coefficient could be stored, and fails with `Fatal` exactly where the
/// sample rate is set but cannot be had in the working precision, or every
/// test passed and a coefficient could not be stored.
pub proof fn success_and_fatal<F: Sample>(run: Run<F>)
    ensures
        run.result() is Ok <==> !run.seen.rate_unset && run.seen.wide_rate is Some
            && !run.seen.over_nyquist && !run.seen.too_low && !run.seen.negative_q
            && run.found.complete(),
        run.result() == Err::<(), BiquadError>(BiquadError::Fatal) <==> !run.seen.rate_unset && (
        run.seen.wide_rate is None || (!run.seen.over_nyquist && !run.seen.too_low
            && !run.seen.negative_q && !run.found.complete())),
{
}

/// A design never changes the sample rate.
pub proof fn design_keeps_sample_rate<F: Sample>(run: Run<F>, before: Coefficients<F>)
    ensures
        run.leaves(before).sample_rate == before.sample_rate,
{
}

/// Replacing the coefficient set between two samples does not touch the
/// history: the output for the second sample answers to the new
/// coefficients, to the first sample and the first output, and to what was
/// the latest input and output before them.
pub proof fn swap_keeps_history<F: Sample>(
    start: State<F>,
    first_in: F,
    first_out: F,
    swapped: Coefficients<F>,
    second_in: F,
    second_out: F,
)
    requires
        responds(
            start.ticked(first_in, first_out).with_coefficients(swapped).coefficients,
            start.ticked(first_in, first_out).with_coefficients(swapped).history,
            second_in,
            second_out,
        ),
    ensures
        start.ticked(first_in, first_out).with_coefficients(swapped).history
            == start.history.shifted(first_in, first_out),
        responds(
            swapped,
            History { x1: first_in, x2: start.history.x1, y1: first_out, y2: start.history.y1 },
            second_in,
            second_out,
        ),
{
}

/// Giving a filter the coefficient set that it has changes nothing, so
/// that every later sample is answered as before.
pub proof fn coefficients_round_trip<F: Sample>(state: State<F>)
    ensures
        state.with_coefficients(state.coefficients) == state,
{
}

/// A block is filtered sample by sample: the history after one more sample
/// of the block is the history before it, shifted by that sample and its
/// output.
pub proof fn block_is_sample_by_sample<F: Sample>(
    start: History<F>,
    inputs: Seq<F>,
    outputs: Seq<F>,
    count: int,
)
    requires
        0 <= count < inputs.len(),
        count < outputs.len(),
    ensures
        history_after(start, inputs, outputs, 0) == start,
        history_after(start, inputs, outputs, count + 1) == history_after(
            start,
            inputs,
            outputs,
            count,
        ).shifted(inputs[count], outputs[count]),
{
}

/// The coefficient `a0` has no part in the output: two coefficient sets
/// that differ in `a0` and in the sample rate alone answer alike.
pub proof fn a0_has_no_part<F: Sample>(
    c: Coefficients<F>,
    a0: F,
    sample_rate: F,
    h: History<F>,
    input: F,
    out: F,
)
    requires
        responds(c, h, input, out),
    ensures
        responds(Coefficients { a0, sample_rate, ..c }, h, input, out),
{
    let p = choose|p: Partials<F>| #[trigger] evaluates(c, h, input, p, out);
    assert(evaluates(Coefficients { a0, sample_rate, ..c }, h, input, p, out));
}

/// Sums, differences and products of zeros of `F` are zeros of `F`.
pub open spec fn zeros_stay_zero<F: Sample>() -> bool {
    &&& forall|a: F, b: F, out: F|
        is_zero(a) && is_zero(b) && #[trigger] is_product(a, b, out) ==> is_zero(out)
    &&& forall|a: F, b: F, out: F|
        is_zero(a) && is_zero(b) && #[trigger] is_sum(a, b, out) ==> is_zero(out)
    &&& forall|a: F, b: F, out: F|
        is_zero(a) && is_zero(b) && #[trigger] is_difference(a, b, out) ==> is_zero(out)
}

/// With the coefficients `b0`, `b1`, `b2`, `a1` and `a2` zero and a clear
/// history, a zero that goes in gives a zero, and the history stays clear:
/// so it is for every sample that follows. This holds for every sample
/// type in which sums, differences and products of zeros are zeros.
pub proof fn silence_gives_silence<F: Sample>(
    c: Coefficients<F>,
    h: History<F>,
    input: F,
    out: F,
)
    requires
        zeros_stay_zero::<F>(),
        is_zero(c.b0),
        is_zero(c.b1),
        is_zero(c.b2),
        is_zero(c.a1),
        is_zero(c.a2),
        h.clear(),
        is_zero(input),
        responds(c, h, input, out),
    ensures
        is_zero(out),
        h.shifted(input, out).clear(),
{
}

/// The history goes on from block to block: filtering the first `cut`
/// samples and then the rest leaves the history that filtering them in one
/// block leaves.
pub proof fn blocks_join<F: Sample>(
    start: History<F>,
    inputs: Seq<F>,
    outputs: Seq<F>,
    cut: int,
    count: int,
)
    requires
        0 <= cut <= count <= inputs.len(),
        count <= outputs.len(),
    ensures
        history_after(
            history_after(start, inputs, outputs, cut),
            inputs.skip(cut),
            outputs.skip(cut),
            count - cut,
        ) == history_after(start, inputs, outputs, count),
{
}

} // verus!
