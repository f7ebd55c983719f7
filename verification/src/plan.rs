//! The formulas of the nine responses.
//!
//! Every response is written in a few shared quantities, which depend on
//! the sample rate and the parameters alone. Each of its six coefficients
//! is then a formula in those quantities, narrowed to a sample, or the
//! sample type's zero or one.
use vstd::prelude::*;
use crate::formula::{yields, Formula, Worked};
use crate::kind::FilterType;
use crate::scalar::{is_one, is_zero, narrows, Real, Sample};

verus! {

/// The quantities that the formulas of every response are written in.
pub struct Basis<R> {
    /// The linear gain, `10^(gain_db / 40)`.
    pub a: R,
    /// The angle `2 * pi * frequency / sample_rate`.
    pub omega: R,
    /// The sine of `omega`.
    pub sin: R,
    /// The cosine of `omega`.
    pub cos: R,
    /// `sin / 2 * q`.
    pub alpha: R,
    /// `2 * sqrt(a) * alpha`.
    pub beta: R,
}

/// Each quantity of `b` is what its formula gave, for the sample rate and
/// the parameters and for the quantities before it.
pub open spec fn is_basis<R: Real>(rate: R, frequency: R, gain_db: R, q: R, b: Basis<R>) -> bool {
    &&& yields(
        Formula::Whole(10).powf(Formula::Given(gain_db).over(Formula::Whole(40))),
        b.a,
    )
    &&& yields(
        Formula::Whole(2).times(Formula::Pi).times(Formula::Given(frequency)).over(
            Formula::Given(rate),
        ),
        b.omega,
    )
    &&& yields(Formula::Given(b.omega).sin(), b.sin)
    &&& yields(Formula::Given(b.omega).cos(), b.cos)
    &&& yields(Formula::Given(b.sin).over(Formula::Whole(2)).times(Formula::Given(q)), b.alpha)
    &&& yields(
        Formula::Whole(2).times(Formula::Given(b.a).sqrt()).times(Formula::Given(b.alpha)),
        b.beta,
    )
}

/// The six coefficients, in the order in which a design stores them.
#[derive(Debug, Clone, Copy, PartialEq, Eq, Structural)]
pub enum Slot {
    B0,
    B1,
    B2,
    A0,
    A1,
    A2,
}

/// Where a coefficient comes from.
pub enum Source<R> {
    /// The sample type's zero.
    Zero,
    /// The sample type's one.
    One,
    /// A formula in the working precision, narrowed to a sample.
    Narrowed(Formula<R>),
}

/// `1 + alpha`.
pub open spec fn raised<R>(b: Basis<R>) -> Formula<R> {
    Formula::Whole(1).plus(Formula::Given(b.alpha))
}

/// `1 - alpha`.
pub open spec fn lowered<R>(b: Basis<R>) -> Formula<R> {
    Formula::Whole(1).minus(Formula::Given(b.alpha))
}

/// `-2 * cos`.
pub open spec fn turning<R>(b: Basis<R>) -> Formula<R> {
    Formula::Whole(-2i32).times(Formula::Given(b.cos))
}

/// `(a + 1) - (a - 1) * cos`.
pub open spec fn shelf_less<R>(b: Basis<R>) -> Formula<R> {
    Formula::Given(b.a).plus(Formula::Whole(1)).minus(
        Formula::Given(b.a).minus(Formula::Whole(1)).times(Formula::Given(b.cos)),
    )
}

/// `(a + 1) + (a - 1) * cos`.
pub open spec fn shelf_more<R>(b: Basis<R>) -> Formula<R> {
    Formula::Given(b.a).plus(Formula::Whole(1)).plus(
        Formula::Given(b.a).minus(Formula::Whole(1)).times(Formula::Given(b.cos)),
    )
}

/// `(a - 1) - (a + 1) * cos`.
pub open spec fn slope_less<R>(b: Basis<R>) -> Formula<R> {
    Formula::Given(b.a).minus(Formula::Whole(1)).minus(
        Formula::Given(b.a).plus(Formula::Whole(1)).times(Formula::Given(b.cos)),
    )
}

/// `(a - 1) + (a + 1) * cos`.
pub open spec fn slope_more<R>(b: Basis<R>) -> Formula<R> {
    Formula::Given(b.a).minus(Formula::Whole(1)).plus(
        Formula::Given(b.a).plus(Formula::Whole(1)).times(Formula::Given(b.cos)),
    )
}

/// The denominator that all responses but the peak and the shelves share:
/// `a0 = 1 + alpha`, `a1 = -2 * cos`, `a2 = 1 - alpha`.
pub open spec fn plain_denominator<R>(slot: Slot, b: Basis<R>) -> Formula<R> {
    match slot {
        Slot::A0 => raised(b),
        Slot::A1 => turning(b),
        _ => lowered(b),
    }
}

/// Where the coefficient `slot` of a response of type `filter_type` comes
/// from, over the quantities `b` and the quality factor `q`.
pub open spec fn plan<R>(filter_type: FilterType, slot: Slot, b: Basis<R>, q: R) -> Source<R> {
    let one = Formula::<R>::Whole(1);
    let two = Formula::<R>::Whole(2);
    let a = Formula::Given(b.a);
    let cos = Formula::Given(b.cos);
    let alpha = Formula::Given(b.alpha);
    let beta = Formula::Given(b.beta);
    match filter_type {
        FilterType::Lowpass => match slot {
            Slot::B0 => Source::Narrowed(one.minus(cos).over(two)),
            Slot::B1 => Source::Narrowed(one.minus(cos)),
            Slot::B2 => Source::Narrowed(one.minus(cos).over(two)),
            _ => Source::Narrowed(plain_denominator(slot, b)),
        },
        FilterType::Highpass => match slot {
            Slot::B0 => Source::Narrowed(one.plus(cos).over(two)),
            Slot::B1 => Source::Narrowed(one.plus(cos).negated()),
            Slot::B2 => Source::Narrowed(one.plus(cos).over(two)),
            _ => Source::Narrowed(plain_denominator(slot, b)),
        },
        FilterType::Bandpass1 => match slot {
            Slot::B0 => Source::Narrowed(Formula::Given(q).times(alpha)),
            Slot::B1 => Source::Zero,
            Slot::B2 => Source::Narrowed(Formula::Given(q).negated().times(alpha)),
            _ => Source::Narrowed(plain_denominator(slot, b)),
        },
        FilterType::Bandpass2 => match slot {
            Slot::B0 => Source::Narrowed(alpha),
            Slot::B1 => Source::Zero,
            Slot::B2 => Source::Narrowed(alpha.negated()),
            _ => Source::Narrowed(plain_denominator(slot, b)),
        },
        FilterType::Notch => match slot {
            Slot::B0 => Source::One,
            Slot::B1 => Source::Narrowed(turning(b)),
            Slot::B2 => Source::One,
            _ => Source::Narrowed(plain_denominator(slot, b)),
        },
        FilterType::Allpass => match slot {
            Slot::B0 => Source::Narrowed(lowered(b)),
            Slot::B1 => Source::Narrowed(turning(b)),
            Slot::B2 => Source::Narrowed(raised(b)),
            _ => Source::Narrowed(plain_denominator(slot, b)),
        },
        FilterType::Peak => match slot {
            Slot::B0 => Source::Narrowed(one.plus(alpha.times(a))),
            Slot::B1 => Source::Narrowed(turning(b)),
            Slot::B2 => Source::Narrowed(one.minus(alpha.times(a))),
            Slot::A0 => Source::Narrowed(one.plus(alpha.over(a))),
            Slot::A1 => Source::Narrowed(turning(b)),
            Slot::A2 => Source::Narrowed(one.minus(alpha.over(a))),
        },
        FilterType::Lowshelf => match slot {
            Slot::B0 => Source::Narrowed(a.times(shelf_less(b).plus(beta))),
            Slot::B1 => Source::Narrowed(two.times(a).times(slope_less(b))),
            Slot::B2 => Source::Narrowed(a.times(shelf_less(b).minus(beta))),
            Slot::A0 => Source::Narrowed(shelf_more(b).plus(beta)),
            Slot::A1 => Source::Narrowed(Formula::Whole(-2i32).times(slope_more(b))),
            Slot::A2 => Source::Narrowed(shelf_more(b).minus(beta)),
        },
        FilterType::Highshelf => match slot {
            Slot::B0 => Source::Narrowed(a.times(shelf_more(b).plus(beta))),
            Slot::B1 => Source::Narrowed(Formula::Whole(-2i32).times(a).times(slope_more(b))),
            Slot::B2 => Source::Narrowed(a.times(shelf_more(b).minus(beta))),
            Slot::A0 => Source::Narrowed(shelf_less(b).plus(beta)),
            Slot::A1 => Source::Narrowed(two.times(slope_less(b))),
            Slot::A2 => Source::Narrowed(shelf_less(b).minus(beta)),
        },
    }
}

/// Working `source` out gave `out`: the sample type's zero or one, or the
/// narrowing of a number that the formula gave. Only a narrowing can give
/// `None`.
pub open spec fn fills<F: Sample>(source: Source<F::Wide>, out: Option<F>) -> bool {
    match source {
        Source::Zero => out is Some && is_zero(out->0),
        Source::One => out is Some && is_one(out->0),
        Source::Narrowed(formula) => exists|wide: F::Wide| #[trigger]
            yields(formula, wide) && narrows(wide, out),
    }
}

/// The quantities that the formulas of every response are written in, for
/// a sample rate and the parameters of a design.
pub fn basis<R: Real>(rate: R, frequency: R, gain_db: R, q: R) -> (b: Basis<R>)
    ensures
        is_basis(rate, frequency, gain_db, q, b),
{
    let a = Worked::whole(10).powf(Worked::given(gain_db).over(Worked::whole(40)));
    let omega = Worked::whole(2).times(Worked::pi()).times(Worked::given(frequency)).over(
        Worked::given(rate),
    );
    let sin = Worked::given(omega.value).sin();
    let cos = Worked::given(omega.value).cos();
    let alpha = Worked::given(sin.value).over(Worked::whole(2)).times(Worked::given(q));
    let beta = Worked::whole(2).times(Worked::given(a.value).sqrt()).times(
        Worked::given(alpha.value),
    );
    proof {
        a.shown();
        omega.shown();
        sin.shown();
        cos.shown();
        alpha.shown();
        beta.shown();
    }
    Basis {
        a: a.value,
        omega: omega.value,
        sin: sin.value,
        cos: cos.value,
        alpha: alpha.value,
        beta: beta.value,
    }
}

/// `1 + alpha`.
fn work_raised<R: Real>(b: &Basis<R>) -> (w: Worked<R>)
    ensures
        w.holds(),
        w.formula() == raised(*b),
{
    Worked::whole(1).plus(Worked::given(b.alpha))
}

/// `1 - alpha`.
fn work_lowered<R: Real>(b: &Basis<R>) -> (w: Worked<R>)
    ensures
        w.holds(),
        w.formula() == lowered(*b),
{
    Worked::whole(1).minus(Worked::given(b.alpha))
}

/// `-2 * cos`.
fn work_turning<R: Real>(b: &Basis<R>) -> (w: Worked<R>)
    ensures
        w.holds(),
        w.formula() == turning(*b),
{
    Worked::whole(-2).times(Worked::given(b.cos))
}

/// `(a + 1) - (a - 1) * cos`.
fn work_shelf_less<R: Real>(b: &Basis<R>) -> (w: Worked<R>)
    ensures
        w.holds(),
        w.formula() == shelf_less(*b),
{
    Worked::given(b.a).plus(Worked::whole(1)).minus(
        Worked::given(b.a).minus(Worked::whole(1)).times(Worked::given(b.cos)),
    )
}

/// `(a + 1) + (a - 1) * cos`.
fn work_shelf_more<R: Real>(b: &Basis<R>) -> (w: Worked<R>)
    ensures
        w.holds(),
        w.formula() == shelf_more(*b),
{
    Worked::given(b.a).plus(Worked::whole(1)).plus(
        Worked::given(b.a).minus(Worked::whole(1)).times(Worked::given(b.cos)),
    )
}

/// `(a - 1) - (a + 1) * cos`.
fn work_slope_less<R: Real>(b: &Basis<R>) -> (w: Worked<R>)
    ensures
        w.holds(),
        w.formula() == slope_less(*b),
{
    Worked::given(b.a).minus(Worked::whole(1)).minus(
        Worked::given(b.a).plus(Worked::whole(1)).times(Worked::given(b.cos)),
    )
}

/// `(a - 1) + (a + 1) * cos`.
fn work_slope_more<R: Real>(b: &Basis<R>) -> (w: Worked<R>)
    ensures
        w.holds(),
        w.formula() == slope_more(*b),
{
    Worked::given(b.a).minus(Worked::whole(1)).plus(
        Worked::given(b.a).plus(Worked::whole(1)).times(Worked::given(b.cos)),
    )
}

/// The denominator that all responses but the peak and the shelves share.
fn work_plain_denominator<R: Real>(slot: Slot, b: &Basis<R>) -> (w: Worked<R>)
    ensures
        w.holds(),
        w.formula() == plain_denominator(slot, *b),
{
    match slot {
        Slot::A0 => work_raised(b),
        Slot::A1 => work_turning(b),
        _ => work_lowered(b),
    }
}

/// The coefficient `slot` of a response of type `filter_type` in the
/// working precision, where it comes from a formula.
fn work<R: Real>(filter_type: FilterType, slot: Slot, b: &Basis<R>, q: R) -> (w: Worked<R>)
    requires
        plan(filter_type, slot, *b, q) is Narrowed,
    ensures
        w.holds(),
        plan(filter_type, slot, *b, q) == Source::Narrowed(w.formula()),
{
    let one = Worked::<R>::whole(1);
    let two = Worked::<R>::whole(2);
    let a = Worked::given(b.a);
    let cos = Worked::given(b.cos);
    let alpha = Worked::given(b.alpha);
    let beta = Worked::given(b.beta);
    match filter_type {
        FilterType::Lowpass => match slot {
            Slot::B0 => one.minus(cos).over(two),
            Slot::B1 => one.minus(cos),
            Slot::B2 => one.minus(cos).over(two),
            _ => work_plain_denominator(slot, b),
        },
        FilterType::Highpass => match slot {
            Slot::B0 => one.plus(cos).over(two),
            Slot::B1 => one.plus(cos).negated(),
            Slot::B2 => one.plus(cos).over(two),
            _ => work_plain_denominator(slot, b),
        },
        FilterType::Bandpass1 => match slot {
            Slot::B0 => Worked::given(q).times(alpha),
            Slot::B2 => Worked::given(q).negated().times(alpha),
            _ => work_plain_denominator(slot, b),
        },
        FilterType::Bandpass2 => match slot {
            Slot::B0 => alpha,
            Slot::B2 => alpha.negated(),
            _ => work_plain_denominator(slot, b),
        },
        FilterType::Notch => match slot {
            Slot::B1 => work_turning(b),
            _ => work_plain_denominator(slot, b),
        },
        FilterType::Allpass => match slot {
            Slot::B0 => work_lowered(b),
            Slot::B1 => work_turning(b),
            Slot::B2 => work_raised(b),
            _ => work_plain_denominator(slot, b),
        },
        FilterType::Peak => match slot {
            Slot::B0 => one.plus(alpha.times(a)),
            Slot::B1 => work_turning(b),
            Slot::B2 => one.minus(alpha.times(a)),
            Slot::A0 => one.plus(alpha.over(a)),
            Slot::A1 => work_turning(b),
            Slot::A2 => one.minus(alpha.over(a)),
        },
        FilterType::Lowshelf => match slot {
            Slot::B0 => a.times(work_shelf_less(b).plus(beta)),
            Slot::B1 => two.times(a).times(work_slope_less(b)),
            Slot::B2 => a.times(work_shelf_less(b).minus(beta)),
            Slot::A0 => work_shelf_more(b).plus(beta),
            Slot::A1 => Worked::whole(-2).times(work_slope_more(b)),
            Slot::A2 => work_shelf_more(b).minus(beta),
        },
        FilterType::Highshelf => match slot {
            Slot::B0 => a.times(work_shelf_more(b).plus(beta)),
            Slot::B1 => Worked::whole(-2).times(a).times(work_slope_more(b)),
            Slot::B2 => a.times(work_shelf_more(b).minus(beta)),
            Slot::A0 => work_shelf_less(b).plus(beta),
            Slot::A1 => two.times(work_slope_less(b)),
            Slot::A2 => work_shelf_less(b).minus(beta),
        },
    }
}

/// The coefficient `slot` of a response of type `filter_type`, or `None`
/// where the sample type cannot hold it.
pub fn fill<F: Sample>(filter_type: FilterType, slot: Slot, b: &Basis<F::Wide>, q: F::Wide) -> (out:
    Option<F>)
    ensures
        fills(plan(filter_type, slot, *b, q), out),
{
    let zero = match filter_type {
        FilterType::Bandpass1 | FilterType::Bandpass2 => match slot {
            Slot::B1 => true,
            _ => false,
        },
        _ => false,
    };
    let one = match filter_type {
        FilterType::Notch => match slot {
            Slot::B0 | Slot::B2 => true,
            _ => false,
        },
        _ => false,
    };
    if zero {
        Some(F::zero())
    } else if one {
        Some(F::one())
    } else {
        let wide = work(filter_type, slot, b, q);
        proof {
            wide.shown();
        }
        F::narrow(wide.value)
    }
}

} // verus!
