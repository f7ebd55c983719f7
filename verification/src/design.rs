//! The design of a filter's coefficients.
//!
//! A design is worked out in the working precision of the sample type and
//! narrowed to the samples' precision when it is stored. Before any number
//! is computed the parameters are validated, in a fixed order.
use vstd::prelude::*;
use crate::error::BiquadError;
use crate::formula::Worked;
use crate::kind::FilterType;
use crate::plan::{basis, fill, fills, is_basis, plan, Basis, Slot};
use crate::scalar::{is_rate, is_zero, Real, Sample};
use crate::validation::{observed, Findings};

verus! {

/// The sample rate and the six coefficients of a second-order filter.
///
/// A sample rate of zero stands for a rate that was never set. The
/// coefficients are kept as a design gives them: `a0` is not brought to one.
#[derive(Debug, Clone, Copy)]
pub struct Coefficients<F> {
    pub sample_rate: F,
    pub a0: F,
    pub a1: F,
    pub a2: F,
    pub b0: F,
    pub b1: F,
    pub b2: F,
}

/// What working out the six coefficients gave, in the order in which they
/// are stored. A coefficient is only worked out where all those before it
/// were stored: what a later field holds is then of no account.
pub struct Found<F> {
    pub b0: Option<F>,
    pub b1: Option<F>,
    pub b2: Option<F>,
    pub a0: Option<F>,
    pub a1: Option<F>,
    pub a2: Option<F>,
}

impl<F> Found<F> {
    /// Every coefficient could be stored.
    pub open spec fn complete(self) -> bool {
        self.b0 is Some && self.b1 is Some && self.b2 is Some && self.a0 is Some && self.a1 is Some
            && self.a2 is Some
    }

    /// The coefficient set `before` after storing the coefficients one by
    /// one, up to the first that is missing.
    pub open spec fn installed(self, before: Coefficients<F>) -> Coefficients<F> {
        if self.b0 is None {
            before
        } else if self.b1 is None {
            Coefficients { b0: self.b0->0, ..before }
        } else if self.b2 is None {
            Coefficients { b0: self.b0->0, b1: self.b1->0, ..before }
        } else if self.a0 is None {
            Coefficients { b0: self.b0->0, b1: self.b1->0, b2: self.b2->0, ..before }
        } else if self.a1 is None {
            Coefficients { b0: self.b0->0, b1: self.b1->0, b2: self.b2->0, a0: self.a0->0, ..before }
        } else if self.a2 is None {
            Coefficients {
                b0: self.b0->0,
                b1: self.b1->0,
                b2: self.b2->0,
                a0: self.a0->0,
                a1: self.a1->0,
                ..before
            }
        } else {
            Coefficients {
                sample_rate: before.sample_rate,
                b0: self.b0->0,
                b1: self.b1->0,
                b2: self.b2->0,
                a0: self.a0->0,
                a1: self.a1->0,
                a2: self.a2->0,
            }
        }
    }
}

/// `found` is what working out the coefficients of a response of type
/// `filter_type` gave, each worked out only where those before it were
/// stored.
pub open spec fn filled<F: Sample>(
    filter_type: FilterType,
    b: Basis<F::Wide>,
    q: F::Wide,
    found: Found<F>,
) -> bool {
    &&& fills(plan(filter_type, Slot::B0, b, q), found.b0)
    &&& found.b0 is Some ==> fills(plan(filter_type, Slot::B1, b, q), found.b1)
    &&& found.b0 is Some && found.b1 is Some ==> fills(
        plan(filter_type, Slot::B2, b, q),
        found.b2,
    )
    &&& found.b0 is Some && found.b1 is Some && found.b2 is Some ==> fills(
        plan(filter_type, Slot::A0, b, q),
        found.a0,
    )
    &&& found.b0 is Some && found.b1 is Some && found.b2 is Some && found.a0 is Some ==> fills(
        plan(filter_type, Slot::A1, b, q),
        found.a1,
    )
    &&& found.b0 is Some && found.b1 is Some && found.b2 is Some && found.a0 is Some && found.a1
        is Some ==> fills(plan(filter_type, Slot::A2, b, q), found.a2)
}

/// Everything that the number type gave in the course of one design.
pub struct Run<F: Sample> {
    /// What the tests of the parameters found.
    pub seen: Findings<F::Wide>,
    /// The shared quantities; of account where the parameters passed.
    pub basis: Basis<F::Wide>,
    /// The coefficients; of account where the parameters passed.
    pub found: Found<F>,
}

impl<F: Sample> Run<F> {
    /// What the design returns: the error of the first test that did not
    /// pass; else `Fatal` where a coefficient could not be stored; else
    /// `Ok`.
    pub open spec fn result(self) -> Result<(), BiquadError> {
        match self.seen.verdict() {
            Err(e) => Err(e),
            Ok(_) => if self.found.complete() {
                Ok(())
            } else {
                Err(BiquadError::Fatal)
            },
        }
    }

    /// The coefficient set that the design leaves: `before` where a test
    /// did not pass, else `before` with the coefficients stored up to the
    /// first that is missing.
    pub open spec fn leaves(self, before: Coefficients<F>) -> Coefficients<F> {
        if self.seen.verdict() is Err {
            before
        } else {
            self.found.installed(before)
        }
    }
}

/// `run` is what the number type gave for a design of type `filter_type`
/// with the parameters `frequency`, `gain_db` and `q`, on a coefficient set
/// whose sample rate is `rate`.
pub open spec fn designed<F: Sample>(
    rate: F,
    filter_type: FilterType,
    frequency: F::Wide,
    gain_db: F::Wide,
    q: F::Wide,
    run: Run<F>,
) -> bool {
    &&& observed(rate, frequency, q, run.seen)
    &&& run.seen.verdict() is Ok ==> {
        &&& is_basis(run.seen.wide_rate->0, frequency, gain_db, q, run.basis)
        &&& filled(filter_type, run.basis, q, run.found)
    }
}

impl<F: Sample> Coefficients<F> {
    /// Every field is a zero of `F`: no sample rate is set and nothing was
    /// designed.
    pub open spec fn blank(self) -> bool {
        &&& is_zero(self.sample_rate)
        &&& is_zero(self.a0)
        &&& is_zero(self.a1)
        &&& is_zero(self.a2)
        &&& is_zero(self.b0)
        &&& is_zero(self.b1)
        &&& is_zero(self.b2)
    }

    /// Stores the sample rate, in hertz, as a sample.
    ///
    /// Fails with `Fatal`, and changes nothing, where the sample type
    /// cannot hold the rate. The coefficients are left as they are.
    pub fn set_sample_rate(&mut self, sample_rate: u32) -> (r: Result<(), BiquadError>)
        ensures
            match r {
                Ok(_) => is_rate(sample_rate, Some(final(self).sample_rate)) && *final(self)
                    == (Coefficients { sample_rate: final(self).sample_rate, ..*old(self) }),
                Err(e) => e == BiquadError::Fatal && is_rate::<F>(sample_rate, None) && *final(self)
                    == *old(self),
            },
    {
        match F::from_rate(sample_rate) {
            Some(rate) => {
                self.sample_rate = rate;
                Ok(())
            },
            None => Err(BiquadError::Fatal),
        }
    }

    /// Tests the parameters of a design against the stored sample rate, in
    /// this order: the sample rate is set; it can be had in the working
    /// precision; twice the frequency is not more than it; the frequency is
    /// not below one; the quality factor is not below zero.
    ///
    /// Returns the sample rate in the working precision, or the error of
    /// the first test that did not pass.
    pub fn validate(&self, frequency: F::Wide, q: F::Wide) -> (r: Result<F::Wide, BiquadError>)
        ensures
            exists|seen: Findings<F::Wide>| #[trigger]
                observed(self.sample_rate, frequency, q, seen) && r == seen.verdict(),
    {
        let zero = F::zero();
        let unset = self.sample_rate.equals(zero);
        assert(is_zero(zero));
        if unset {
            proof {
                let seen = Findings::<F::Wide> {
                    rate_unset: true,
                    wide_rate: None,
                    over_nyquist: false,
                    too_low: false,
                    negative_q: false,
                };
                assert(observed(self.sample_rate, frequency, q, seen));
            }
            return Err(BiquadError::NoSampleRate);
        }
        let twice = Worked::whole(2).times(Worked::given(frequency));
        let widened = self.sample_rate.widen();
        let rate = match widened {
            Some(rate) => rate,
            None => {
                proof {
                    let seen = Findings::<F::Wide> {
                        rate_unset: false,
                        wide_rate: None,
                        over_nyquist: false,
                        too_low: false,
                        negative_q: false,
                    };
                    assert(observed(self.sample_rate, frequency, q, seen));
                }
                return Err(BiquadError::Fatal);
            },
        };
        let over = rate.less_than(twice.value);
        proof {
            twice.shown();
        }
        if over {
            proof {
                let seen = Findings {
                    rate_unset: false,
                    wide_rate: Some(rate),
                    over_nyquist: true,
                    too_low: false,
                    negative_q: false,
                };
                assert(observed(self.sample_rate, frequency, q, seen));
            }
            return Err(BiquadError::FrequencyOverNyquist);
        }
        let one = Worked::<F::Wide>::whole(1);
        let low = frequency.less_than(one.value);
        proof {
            one.shown();
        }
        if low {
            proof {
                let seen = Findings {
                    rate_unset: false,
                    wide_rate: Some(rate),
                    over_nyquist: false,
                    too_low: true,
                    negative_q: false,
                };
                assert(observed(self.sample_rate, frequency, q, seen));
            }
            return Err(BiquadError::FrequencyTooLow);
        }
        let none = Worked::<F::Wide>::whole(0);
        let negative = q.less_than(none.value);
        proof {
            none.shown();
            let seen = Findings {
                rate_unset: false,
                wide_rate: Some(rate),
                over_nyquist: false,
                too_low: false,
                negative_q: negative,
            };
            assert(observed(self.sample_rate, frequency, q, seen));
        }
        if negative {
            return Err(BiquadError::NegativeQ);
        }
        Ok(rate)
    }

    /// Designs a response of type `filter_type` at `frequency` hertz, with
    /// a gain of `gain_db` decibels and the quality factor `q`, and stores
    /// its coefficients.
    ///
    /// The parameters are validated first, as `validate` does; where a test
    /// does not pass, its error is returned and nothing is changed. Then
    /// the coefficients are worked out and stored one by one, in the order
    /// `b0`, `b1`, `b2`, `a0`, `a1`, `a2`. Where the sample type cannot hold
    /// one of them, `Fatal` is returned, and those before it stay stored.
    /// The sample rate is never changed.
    pub fn set(
        &mut self,
        filter_type: FilterType,
        frequency: F::Wide,
        gain_db: F::Wide,
        q: F::Wide,
    ) -> (r: Result<(), BiquadError>)
        ensures
            exists|run: Run<F>| #[trigger]
                designed(old(self).sample_rate, filter_type, frequency, gain_db, q, run) && r
                    == run.result() && *final(self) == run.leaves(*old(self)),
    {
        let valid = self.validate(frequency, q);
        let ghost seen = choose|seen: Findings<F::Wide>| #[trigger]
            observed(self.sample_rate, frequency, q, seen) && valid == seen.verdict();
        let ghost none = Found::<F> { b0: None, b1: None, b2: None, a0: None, a1: None, a2: None };
        let rate = match valid {
            Ok(rate) => rate,
            Err(e) => {
                proof {
                    let run = Run { seen, basis: arbitrary(), found: none };
                    assert(designed(self.sample_rate, filter_type, frequency, gain_db, q, run));
                }
                return Err(e);
            },
        };
        let b = basis(rate, frequency, gain_db, q);
        let ghost mut found = none;
        let b0 = fill::<F>(filter_type, Slot::B0, &b, q);
        proof {
            found = Found { b0: b0, ..found };
        }
        match b0 {
            Some(value) => {
                self.b0 = value;
            },
            None => {
                proof {
                    let run = Run { seen, basis: b, found };
                    assert(designed(self.sample_rate, filter_type, frequency, gain_db, q, run));
                }
                return Err(BiquadError::Fatal);
            },
        }
        let b1 = fill::<F>(filter_type, Slot::B1, &b, q);
        proof {
            found = Found { b1: b1, ..found };
        }
        match b1 {
            Some(value) => {
                self.b1 = value;
            },
            None => {
                proof {
                    let run = Run { seen, basis: b, found };
                    assert(designed(self.sample_rate, filter_type, frequency, gain_db, q, run));
                }
                return Err(BiquadError::Fatal);
            },
        }
        let b2 = fill::<F>(filter_type, Slot::B2, &b, q);
        proof {
            found = Found { b2: b2, ..found };
        }
        match b2 {
            Some(value) => {
                self.b2 = value;
            },
            None => {
                proof {
                    let run = Run { seen, basis: b, found };
                    assert(designed(self.sample_rate, filter_type, frequency, gain_db, q, run));
                }
                return Err(BiquadError::Fatal);
            },
        }
        let a0 = fill::<F>(filter_type, Slot::A0, &b, q);
        proof {
            found = Found { a0: a0, ..found };
        }
        match a0 {
            Some(value) => {
                self.a0 = value;
            },
            None => {
                proof {
                    let run = Run { seen, basis: b, found };
                    assert(designed(self.sample_rate, filter_type, frequency, gain_db, q, run));
                }
                return Err(BiquadError::Fatal);
            },
        }
        let a1 = fill::<F>(filter_type, Slot::A1, &b, q);
        proof {
            found = Found { a1: a1, ..found };
        }
        match a1 {
            Some(value) => {
                self.a1 = value;
            },
            None => {
                proof {
                    let run = Run { seen, basis: b, found };
                    assert(designed(self.sample_rate, filter_type, frequency, gain_db, q, run));
                }
                return Err(BiquadError::Fatal);
            },
        }
        let a2 = fill::<F>(filter_type, Slot::A2, &b, q);
        proof {
            found = Found { a2: a2, ..found };
        }
        match a2 {
            Some(value) => {
                self.a2 = value;
            },
            None => {
                proof {
                    let run = Run { seen, basis: b, found };
                    assert(designed(self.sample_rate, filter_type, frequency, gain_db, q, run));
                }
                return Err(BiquadError::Fatal);
            },
        }
        proof {
            let run = Run { seen, basis: b, found };
            assert(designed(self.sample_rate, filter_type, frequency, gain_db, q, run));
        }
        Ok(())
    }
}

impl<F: Sample> Default for Coefficients<F> {
    /// A coefficient set without a sample rate and with all coefficients
    /// zero.
    fn default() -> (c: Self)
        ensures
            c.blank(),
    {
        Coefficients {
            sample_rate: F::zero(),
            a0: F::zero(),
            a1: F::zero(),
            a2: F::zero(),
            b0: F::zero(),
            b1: F::zero(),
            b2: F::zero(),
        }
    }
}

} // verus!
