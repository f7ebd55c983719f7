//! The filter: a coefficient set and the last two samples that went in and
//! came out.
use vstd::prelude::*;
use crate::design::{designed, Coefficients, Run};
use crate::error::BiquadError;
use crate::kind::FilterType;
use crate::scalar::{is_difference, is_product, is_rate, is_sum, is_zero, Sample};

verus! {

/// The last two input samples and the last two output samples, the latest
/// first.
pub struct History<F> {
    pub x1: F,
    pub x2: F,
    pub y1: F,
    pub y2: F,
}

impl<F> History<F> {
    /// The history after `input` went in and `output` came out.
    pub open spec fn shifted(self, input: F, output: F) -> Self {
        History { x1: input, x2: self.x1, y1: output, y2: self.y1 }
    }
}

impl<F: Sample> History<F> {
    /// Every sample of the history is a zero of `F`.
    pub open spec fn clear(self) -> bool {
        is_zero(self.x1) && is_zero(self.x2) && is_zero(self.y1) && is_zero(self.y2)
    }
}

/// What a filter holds.
pub struct State<F> {
    pub coefficients: Coefficients<F>,
    pub history: History<F>,
}

impl<F> State<F> {
    /// The state after `input` went in and `output` came out.
    pub open spec fn ticked(self, input: F, output: F) -> Self {
        State { coefficients: self.coefficients, history: self.history.shifted(input, output) }
    }

    /// The state with another coefficient set.
    pub open spec fn with_coefficients(self, coefficients: Coefficients<F>) -> Self {
        State { coefficients, history: self.history }
    }
}

/// The intermediate numbers of one evaluation of the filter's equation.
pub struct Partials<F> {
    /// `b0 * input`.
    pub feed0: F,
    /// `b1 * x1`.
    pub feed1: F,
    /// `b2 * x2`.
    pub feed2: F,
    /// `a1 * y1`.
    pub back1: F,
    /// `a2 * y2`.
    pub back2: F,
    /// `feed0 + feed1`.
    pub sum1: F,
    /// `sum1 + feed2`.
    pub sum2: F,
    /// `sum2 - back1`.
    pub sum3: F,
}

/// The arithmetic of `F` gave the numbers `p` and, in the end, `out` for
/// `b0 * input + b1 * x1 + b2 * x2 - a1 * y1 - a2 * y2`, taken from left to
/// right. The coefficient `a0` has no part in it.
pub open spec fn evaluates<F: Sample>(
    c: Coefficients<F>,
    h: History<F>,
    input: F,
    p: Partials<F>,
    out: F,
) -> bool {
    &&& is_product(c.b0, input, p.feed0)
    &&& is_product(c.b1, h.x1, p.feed1)
    &&& is_product(c.b2, h.x2, p.feed2)
    &&& is_product(c.a1, h.y1, p.back1)
    &&& is_product(c.a2, h.y2, p.back2)
    &&& is_sum(p.feed0, p.feed1, p.sum1)
    &&& is_sum(p.sum1, p.feed2, p.sum2)
    &&& is_difference(p.sum2, p.back1, p.sum3)
    &&& is_difference(p.sum3, p.back2, out)
}

/// `out` is an output of the filter's equation for the coefficients `c`,
/// the history `h` and the sample `input`.
pub open spec fn responds<F: Sample>(c: Coefficients<F>, h: History<F>, input: F, out: F) -> bool {
    exists|p: Partials<F>| #[trigger] evaluates(c, h, input, p, out)
}

/// The sample that went `back` places before the next one of `stream`:
/// one of `stream` itself, or, before its start, of the two that were there
/// before, `first` the later of them.
pub open spec fn earlier<F>(first: F, second: F, stream: Seq<F>, at: int) -> F {
    if at >= 0 {
        stream[at]
    } else if at == -1 {
        first
    } else {
        second
    }
}

/// The history of a filter that started from `start` after the first
/// `count` samples of `inputs` went in and those of `outputs` came out.
pub open spec fn history_after<F>(
    start: History<F>,
    inputs: Seq<F>,
    outputs: Seq<F>,
    count: int,
) -> History<F> {
    History {
        x1: earlier(start.x1, start.x2, inputs, count - 1),
        x2: earlier(start.x1, start.x2, inputs, count - 2),
        y1: earlier(start.y1, start.y2, outputs, count - 1),
        y2: earlier(start.y1, start.y2, outputs, count - 2),
    }
}

/// A second-order recursive filter in direct form I.
///
/// The history is changed by `tick`, `process` and `reset` alone, the
/// coefficient set by `prepare`, `set` and `set_coefficients` alone: a new
/// design takes effect on the next sample without a break in the history.
pub struct Biquad<F: Sample> {
    coefficients: Coefficients<F>,
    history: History<F>,
}

impl<F: Sample> View for Biquad<F> {
    type V = State<F>;

    closed spec fn view(&self) -> State<F> {
        State { coefficients: self.coefficients, history: self.history }
    }
}

impl<F: Sample> Default for Biquad<F> {
    /// A filter without a sample rate, with all coefficients zero and a
    /// clear history.
    fn default() -> (filter: Self)
        ensures
            filter@.coefficients.blank(),
            filter@.history.clear(),
    {
        Biquad {
            coefficients: Coefficients::default(),
            history: History { x1: F::zero(), x2: F::zero(), y1: F::zero(), y2: F::zero() },
        }
    }
}

impl<F: Sample> Biquad<F> {
    /// Designs a response and makes it the filter's coefficient set, as
    /// `Coefficients::set` does. The history is left as it is.
    pub fn set(
        &mut self,
        filter_type: FilterType,
        frequency: F::Wide,
        gain_db: F::Wide,
        q: F::Wide,
    ) -> (r: Result<(), BiquadError>)
        ensures
            exists|run: Run<F>| #[trigger]
                designed(old(self)@.coefficients.sample_rate, filter_type, frequency, gain_db, q, run)
                    && r == run.result() && final(self)@.coefficients == run.leaves(
                    old(self)@.coefficients,
                ),
            final(self)@.history == old(self)@.history,
    {
        let ghost before = self.coefficients;
        let r = self.coefficients.set(filter_type, frequency, gain_db, q);
        proof {
            let run = choose|run: Run<F>| #[trigger]
                designed(before.sample_rate, filter_type, frequency, gain_db, q, run) && r
                    == run.result() && self.coefficients == run.leaves(before);
            assert(designed(before.sample_rate, filter_type, frequency, gain_db, q, run));
            assert(self@.coefficients == run.leaves(old(self)@.coefficients));
        }
        r
    }

    /// Sets the sample rate, in hertz, as `Coefficients::set_sample_rate`
    /// does. The coefficients and the history are left as they are.
    pub fn prepare(&mut self, sample_rate: u32) -> (r: Result<(), BiquadError>)
        ensures
            match r {
                Ok(_) => is_rate(sample_rate, Some(final(self)@.coefficients.sample_rate))
                    && final(self)@.coefficients == (Coefficients {
                    sample_rate: final(self)@.coefficients.sample_rate,
                    ..old(self)@.coefficients
                }),
                Err(e) => e == BiquadError::Fatal && is_rate::<F>(sample_rate, None)
                    && final(self)@.coefficients == old(self)@.coefficients,
            },
            final(self)@.history == old(self)@.history,
    {
        self.coefficients.set_sample_rate(sample_rate)
    }

    /// Filters the samples of `input` into `output`, one `tick` each, from
    /// the first on, as far as the shorter of the two reaches. What lies
    /// beyond that in `output` is left as it is.
    pub fn process(&mut self, input: &[F], output: &mut [F])
        ensures
            final(output)@.len() == old(output)@.len(),
            final(self)@.coefficients == old(self)@.coefficients,
            forall|i: int|
                0 <= i < input@.len() && i < old(output)@.len() ==> responds(
                    old(self)@.coefficients,
                    history_after(old(self)@.history, input@, final(output)@, i),
                    input@[i],
                    #[trigger] final(output)@[i],
                ),
            forall|i: int|
                input@.len() <= i < old(output)@.len() ==> final(output)@[i] == old(output)@[i],
            final(self)@.history == history_after(
                old(self)@.history,
                input@,
                final(output)@,
                if input@.len() <= old(output)@.len() {
                    input@.len() as int
                } else {
                    old(output)@.len() as int
                },
            ),
            input@.len() == 0 || old(output)@.len() == 0 ==> final(self)@ == old(self)@
                && final(output)@ == old(output)@,
    {
        let count = if input.len() <= output.len() {
            input.len()
        } else {
            output.len()
        };
        let ghost start = self@;
        let mut i: usize = 0;
        while i < count
            invariant
                i <= count,
                count <= input@.len(),
                count <= output@.len(),
                output@.len() == old(output)@.len(),
                self@.coefficients == start.coefficients,
                self@.history == history_after(start.history, input@, output@, i as int),
                forall|j: int|
                    0 <= j < i ==> responds(
                        start.coefficients,
                        history_after(start.history, input@, output@, j),
                        input@[j],
                        #[trigger] output@[j],
                    ),
                forall|j: int| i <= j < output@.len() ==> output@[j] == old(output)@[j],
            decreases count - i,
        {
            let out = self.tick(input[i]);
            output[i] = out;
            i += 1;
        }
    }

    /// Clears the history. The coefficient set is left as it is.
    pub fn reset(&mut self)
        ensures
            final(self)@.coefficients == old(self)@.coefficients,
            final(self)@.history.clear(),
    {
        self.history.x1 = F::zero();
        self.history.x2 = F::zero();
        self.history.y1 = F::zero();
        self.history.y2 = F::zero();
    }

    /// Takes one sample in and gives one sample out: the value of
    /// `b0 * input + b1 * x1 + b2 * x2 - a1 * y1 - a2 * y2`, which is not
    /// divided by `a0`. The sample and the output then become the latest of
    /// the history.
    pub fn tick(&mut self, input: F) -> (out: F)
        ensures
            responds(old(self)@.coefficients, old(self)@.history, input, out),
            final(self)@ == old(self)@.ticked(input, out),
    {
        let feed0 = self.coefficients.b0.times(input);
        let feed1 = self.coefficients.b1.times(self.history.x1);
        let feed2 = self.coefficients.b2.times(self.history.x2);
        let back1 = self.coefficients.a1.times(self.history.y1);
        let back2 = self.coefficients.a2.times(self.history.y2);
        let sum1 = feed0.plus(feed1);
        let sum2 = sum1.plus(feed2);
        let sum3 = sum2.minus(back1);
        let out = sum3.minus(back2);
        proof {
            let p = Partials { feed0, feed1, feed2, back1, back2, sum1, sum2, sum3 };
            assert(evaluates(self.coefficients, self.history, input, p, out));
        }
        self.history.x2 = self.history.x1;
        self.history.x1 = input;
        self.history.y2 = self.history.y1;
        self.history.y1 = out;
        out
    }

    /// Replaces the coefficient set, which is taken as it is. The history
    /// is left as it is.
    pub fn set_coefficients(&mut self, coefficients: Coefficients<F>)
        ensures
            final(self)@ == old(self)@.with_coefficients(coefficients),
    {
        self.coefficients = coefficients;
    }

    /// The coefficient set.
    pub fn coefficients(&self) -> (c: Coefficients<F>)
        ensures
            c == self@.coefficients,
    {
        self.coefficients
    }
}

} // verus!
