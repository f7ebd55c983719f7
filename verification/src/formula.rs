//! Formulas over the operations of a working precision, and the values that
//! they give.
//!
//! A design states each of its quantities as a formula. The arithmetic that
//! evaluates a formula is the number type's own, so a formula has no value
//! of its own: `yields` says which values the type's operations can give
//! for it.
use vstd::prelude::*;
use crate::scalar::Real;

verus! {

/// An expression over given numbers.
pub enum Formula<R> {
    /// A number that is at hand.
    Given(R),
    /// A whole number.
    Whole(i32),
    /// The circle constant.
    Pi,
    /// The sum of two formulas.
    Sum(Box<Formula<R>>, Box<Formula<R>>),
    /// The first formula less the second.
    Difference(Box<Formula<R>>, Box<Formula<R>>),
    /// The product of two formulas.
    Product(Box<Formula<R>>, Box<Formula<R>>),
    /// The first formula divided by the second.
    Quotient(Box<Formula<R>>, Box<Formula<R>>),
    /// The first formula raised to the second.
    Power(Box<Formula<R>>, Box<Formula<R>>),
    /// The formula with its sign turned.
    Negation(Box<Formula<R>>),
    /// The square root of the formula.
    Root(Box<Formula<R>>),
    /// The sine of the formula.
    Sine(Box<Formula<R>>),
    /// The cosine of the formula.
    Cosine(Box<Formula<R>>),
}

impl<R> Formula<R> {
    /// `self + rhs`.
    pub open spec fn plus(self, rhs: Self) -> Self {
        Formula::Sum(Box::new(self), Box::new(rhs))
    }

    /// `self - rhs`.
    pub open spec fn minus(self, rhs: Self) -> Self {
        Formula::Difference(Box::new(self), Box::new(rhs))
    }

    /// `self * rhs`.
    pub open spec fn times(self, rhs: Self) -> Self {
        Formula::Product(Box::new(self), Box::new(rhs))
    }

    /// `self / rhs`.
    pub open spec fn over(self, rhs: Self) -> Self {
        Formula::Quotient(Box::new(self), Box::new(rhs))
    }

    /// `self` raised to `rhs`.
    pub open spec fn powf(self, rhs: Self) -> Self {
        Formula::Power(Box::new(self), Box::new(rhs))
    }

    /// `-self`.
    pub open spec fn negated(self) -> Self {
        Formula::Negation(Box::new(self))
    }

    /// The square root of `self`.
    pub open spec fn sqrt(self) -> Self {
        Formula::Root(Box::new(self))
    }

    /// The sine of `self`.
    pub open spec fn sin(self) -> Self {
        Formula::Sine(Box::new(self))
    }

    /// The cosine of `self`.
    pub open spec fn cos(self) -> Self {
        Formula::Cosine(Box::new(self))
    }

}

/// A formula worked out: every step of it with the number that the step
/// gave.
pub enum Derivation<R> {
    /// A number that is at hand.
    Given(R),
    /// A whole number, and the number that stands for it.
    Whole(i32, R),
    /// The circle constant.
    Pi(R),
    /// Two derivations and their sum.
    Sum(Box<Derivation<R>>, Box<Derivation<R>>, R),
    /// Two derivations and the first less the second.
    Difference(Box<Derivation<R>>, Box<Derivation<R>>, R),
    /// Two derivations and their product.
    Product(Box<Derivation<R>>, Box<Derivation<R>>, R),
    /// Two derivations and the first divided by the second.
    Quotient(Box<Derivation<R>>, Box<Derivation<R>>, R),
    /// Two derivations and the first raised to the second.
    Power(Box<Derivation<R>>, Box<Derivation<R>>, R),
    /// A derivation and its result with the sign turned.
    Negation(Box<Derivation<R>>, R),
    /// A derivation and the square root of its result.
    Root(Box<Derivation<R>>, R),
    /// A derivation and the sine of its result.
    Sine(Box<Derivation<R>>, R),
    /// A derivation and the cosine of its result.
    Cosine(Box<Derivation<R>>, R),
}

impl<R> Derivation<R> {
    /// The number that the last step gave.
    pub open spec fn value(self) -> R {
        match self {
            Derivation::Given(v) => v,
            Derivation::Whole(_, v) => v,
            Derivation::Pi(v) => v,
            Derivation::Sum(_, _, v) => v,
            Derivation::Difference(_, _, v) => v,
            Derivation::Product(_, _, v) => v,
            Derivation::Quotient(_, _, v) => v,
            Derivation::Power(_, _, v) => v,
            Derivation::Negation(_, v) => v,
            Derivation::Root(_, v) => v,
            Derivation::Sine(_, v) => v,
            Derivation::Cosine(_, v) => v,
        }
    }

    /// The formula that was worked out.
    pub open spec fn formula(self) -> Formula<R>
        decreases self,
    {
        match self {
            Derivation::Given(v) => Formula::Given(v),
            Derivation::Whole(n, _) => Formula::Whole(n),
            Derivation::Pi(_) => Formula::Pi,
            Derivation::Sum(a, b, _) => a.formula().plus(b.formula()),
            Derivation::Difference(a, b, _) => a.formula().minus(b.formula()),
            Derivation::Product(a, b, _) => a.formula().times(b.formula()),
            Derivation::Quotient(a, b, _) => a.formula().over(b.formula()),
            Derivation::Power(a, b, _) => a.formula().powf(b.formula()),
            Derivation::Negation(a, _) => a.formula().negated(),
            Derivation::Root(a, _) => a.formula().sqrt(),
            Derivation::Sine(a, _) => a.formula().sin(),
            Derivation::Cosine(a, _) => a.formula().cos(),
        }
    }
}

impl<R: Real> Derivation<R> {
    /// Every step's number is one that the operation of `R` gave for the
    /// numbers of the steps below it.
    pub open spec fn sound(self) -> bool
        decreases self,
    {
        match self {
            Derivation::Given(_) => true,
            Derivation::Whole(n, v) => call_ensures(R::whole, (n,), v),
            Derivation::Pi(v) => call_ensures(R::pi, (), v),
            Derivation::Sum(a, b, v) => a.sound() && b.sound() && call_ensures(
                R::plus,
                (a.value(), b.value()),
                v,
            ),
            Derivation::Difference(a, b, v) => a.sound() && b.sound() && call_ensures(
                R::minus,
                (a.value(), b.value()),
                v,
            ),
            Derivation::Product(a, b, v) => a.sound() && b.sound() && call_ensures(
                R::times,
                (a.value(), b.value()),
                v,
            ),
            Derivation::Quotient(a, b, v) => a.sound() && b.sound() && call_ensures(
                R::over,
                (a.value(), b.value()),
                v,
            ),
            Derivation::Power(a, b, v) => a.sound() && b.sound() && call_ensures(
                R::powf,
                (a.value(), b.value()),
                v,
            ),
            Derivation::Negation(a, v) => a.sound() && call_ensures(R::negated, (a.value(),), v),
            Derivation::Root(a, v) => a.sound() && call_ensures(R::sqrt, (a.value(),), v),
            Derivation::Sine(a, v) => a.sound() && call_ensures(R::sin, (a.value(),), v),
            Derivation::Cosine(a, v) => a.sound() && call_ensures(R::cos, (a.value(),), v),
        }
    }
}

/// Whether the operations of `R`, applied as `formula` says and from the
/// inside out, gave `out`.
pub open spec fn yields<R: Real>(formula: Formula<R>, out: R) -> bool {
    exists|d: Derivation<R>| #[trigger] d.sound() && d.formula() == formula && d.value() == out
}

/// A given number yields itself and nothing else.
pub proof fn given_yields<R: Real>(v: R, out: R)
    ensures
        yields(Formula::Given(v), out) <==> out == v,
{
    if yields(Formula::Given(v), out) {
        let d = choose|d: Derivation<R>| #[trigger]
            d.sound() && d.formula() == Formula::Given(v) && d.value() == out;
        assert(d is Given);
    }
    if out == v {
        let d = Derivation::Given(v);
        assert(d.sound() && d.formula() == Formula::Given(v) && d.value() == out);
    }
}

/// A whole number yields what `R::whole` gave for it.
pub proof fn whole_yields<R: Real>(n: i32, out: R)
    ensures
        yields(Formula::Whole(n), out) <==> call_ensures(R::whole, (n,), out),
{
    if yields(Formula::<R>::Whole(n), out) {
        let d = choose|d: Derivation<R>| #[trigger]
            d.sound() && d.formula() == Formula::<R>::Whole(n) && d.value() == out;
        assert(d is Whole);
    }
    if call_ensures(R::whole, (n,), out) {
        let d = Derivation::Whole(n, out);
        assert(d.sound() && d.formula() == Formula::<R>::Whole(n) && d.value() == out);
    }
}

/// The circle constant yields what `R::pi` gave.
pub proof fn pi_yields<R: Real>(out: R)
    ensures
        yields(Formula::Pi, out) <==> call_ensures(R::pi, (), out),
{
    if yields(Formula::<R>::Pi, out) {
        let d = choose|d: Derivation<R>| #[trigger]
            d.sound() && d.formula() == Formula::<R>::Pi && d.value() == out;
        assert(d is Pi);
    }
    if call_ensures(R::pi, (), out) {
        let d = Derivation::Pi(out);
        assert(d.sound() && d.formula() == Formula::<R>::Pi && d.value() == out);
    }
}

/// `a.plus(b)` yields what `R::plus` gave for a number that `a` yields and
/// one that `b` yields.
pub proof fn sum_yields<R: Real>(a: Formula<R>, b: Formula<R>, out: R)
    ensures
        yields(a.plus(b), out) <==> exists|x: R, y: R|
            #[trigger] yields(a, x) && #[trigger] yields(b, y) && call_ensures(
                R::plus,
                (x, y),
                out,
            ),
{
    if yields(a.plus(b), out) {
        let d = choose|d: Derivation<R>| #[trigger]
            d.sound() && d.formula() == a.plus(b) && d.value() == out;
        assert(d is Sum);
        let da = *d->Sum_0;
        let db = *d->Sum_1;
        assert(da.sound() && da.formula() == a && da.value() == da.value());
        assert(db.sound() && db.formula() == b && db.value() == db.value());
        assert(yields(a, da.value()) && yields(b, db.value()) && call_ensures(
            R::plus,
            (da.value(), db.value()),
            out,
        ));
    }
    if exists|x: R, y: R|
        #[trigger] yields(a, x) && #[trigger] yields(b, y) && call_ensures(R::plus, (x, y), out) {
        let (x, y) = choose|x: R, y: R|
            #[trigger] yields(a, x) && #[trigger] yields(b, y) && call_ensures(
                R::plus,
                (x, y),
                out,
            );
        let da = choose|d: Derivation<R>| #[trigger] d.sound() && d.formula() == a && d.value() == x;
        let db = choose|d: Derivation<R>| #[trigger] d.sound() && d.formula() == b && d.value() == y;
        let d = Derivation::Sum(Box::new(da), Box::new(db), out);
        assert(d.sound() && d.formula() == a.plus(b) && d.value() == out);
    }
}

/// `a.minus(b)` yields what `R::minus` gave for a number that `a` yields and
/// one that `b` yields.
pub proof fn difference_yields<R: Real>(a: Formula<R>, b: Formula<R>, out: R)
    ensures
        yields(a.minus(b), out) <==> exists|x: R, y: R|
            #[trigger] yields(a, x) && #[trigger] yields(b, y) && call_ensures(
                R::minus,
                (x, y),
                out,
            ),
{
    if yields(a.minus(b), out) {
        let d = choose|d: Derivation<R>| #[trigger]
            d.sound() && d.formula() == a.minus(b) && d.value() == out;
        assert(d is Difference);
        let da = *d->Difference_0;
        let db = *d->Difference_1;
        assert(da.sound() && da.formula() == a && da.value() == da.value());
        assert(db.sound() && db.formula() == b && db.value() == db.value());
        assert(yields(a, da.value()) && yields(b, db.value()) && call_ensures(
            R::minus,
            (da.value(), db.value()),
            out,
        ));
    }
    if exists|x: R, y: R|
        #[trigger] yields(a, x) && #[trigger] yields(b, y) && call_ensures(R::minus, (x, y), out) {
        let (x, y) = choose|x: R, y: R|
            #[trigger] yields(a, x) && #[trigger] yields(b, y) && call_ensures(
                R::minus,
                (x, y),
                out,
            );
        let da = choose|d: Derivation<R>| #[trigger] d.sound() && d.formula() == a && d.value() == x;
        let db = choose|d: Derivation<R>| #[trigger] d.sound() && d.formula() == b && d.value() == y;
        let d = Derivation::Difference(Box::new(da), Box::new(db), out);
        assert(d.sound() && d.formula() == a.minus(b) && d.value() == out);
    }
}

/// `a.times(b)` yields what `R::times` gave for a number that `a` yields and
/// one that `b` yields.
pub proof fn product_yields<R: Real>(a: Formula<R>, b: Formula<R>, out: R)
    ensures
        yields(a.times(b), out) <==> exists|x: R, y: R|
            #[trigger] yields(a, x) && #[trigger] yields(b, y) && call_ensures(
                R::times,
                (x, y),
                out,
            ),
{
    if yields(a.times(b), out) {
        let d = choose|d: Derivation<R>| #[trigger]
            d.sound() && d.formula() == a.times(b) && d.value() == out;
        assert(d is Product);
        let da = *d->Product_0;
        let db = *d->Product_1;
        assert(da.sound() && da.formula() == a && da.value() == da.value());
        assert(db.sound() && db.formula() == b && db.value() == db.value());
        assert(yields(a, da.value()) && yields(b, db.value()) && call_ensures(
            R::times,
            (da.value(), db.value()),
            out,
        ));
    }
    if exists|x: R, y: R|
        #[trigger] yields(a, x) && #[trigger] yields(b, y) && call_ensures(R::times, (x, y), out) {
        let (x, y) = choose|x: R, y: R|
            #[trigger] yields(a, x) && #[trigger] yields(b, y) && call_ensures(
                R::times,
                (x, y),
                out,
            );
        let da = choose|d: Derivation<R>| #[trigger] d.sound() && d.formula() == a && d.value() == x;
        let db = choose|d: Derivation<R>| #[trigger] d.sound() && d.formula() == b && d.value() == y;
        let d = Derivation::Product(Box::new(da), Box::new(db), out);
        assert(d.sound() && d.formula() == a.times(b) && d.value() == out);
    }
}

/// `a.over(b)` yields what `R::over` gave for a number that `a` yields and
/// one that `b` yields.
pub proof fn quotient_yields<R: Real>(a: Formula<R>, b: Formula<R>, out: R)
    ensures
        yields(a.over(b), out) <==> exists|x: R, y: R|
            #[trigger] yields(a, x) && #[trigger] yields(b, y) && call_ensures(
                R::over,
                (x, y),
                out,
            ),
{
    if yields(a.over(b), out) {
        let d = choose|d: Derivation<R>| #[trigger]
            d.sound() && d.formula() == a.over(b) && d.value() == out;
        assert(d is Quotient);
        let da = *d->Quotient_0;
        let db = *d->Quotient_1;
        assert(da.sound() && da.formula() == a && da.value() == da.value());
        assert(db.sound() && db.formula() == b && db.value() == db.value());
        assert(yields(a, da.value()) && yields(b, db.value()) && call_ensures(
            R::over,
            (da.value(), db.value()),
            out,
        ));
    }
    if exists|x: R, y: R|
        #[trigger] yields(a, x) && #[trigger] yields(b, y) && call_ensures(R::over, (x, y), out) {
        let (x, y) = choose|x: R, y: R|
            #[trigger] yields(a, x) && #[trigger] yields(b, y) && call_ensures(
                R::over,
                (x, y),
                out,
            );
        let da = choose|d: Derivation<R>| #[trigger] d.sound() && d.formula() == a && d.value() == x;
        let db = choose|d: Derivation<R>| #[trigger] d.sound() && d.formula() == b && d.value() == y;
        let d = Derivation::Quotient(Box::new(da), Box::new(db), out);
        assert(d.sound() && d.formula() == a.over(b) && d.value() == out);
    }
}

/// `a.powf(b)` yields what `R::powf` gave for a number that `a` yields and
/// one that `b` yields.
pub proof fn power_yields<R: Real>(a: Formula<R>, b: Formula<R>, out: R)
    ensures
        yields(a.powf(b), out) <==> exists|x: R, y: R|
            #[trigger] yields(a, x) && #[trigger] yields(b, y) && call_ensures(
                R::powf,
                (x, y),
                out,
            ),
{
    if yields(a.powf(b), out) {
        let d = choose|d: Derivation<R>| #[trigger]
            d.sound() && d.formula() == a.powf(b) && d.value() == out;
        assert(d is Power);
        let da = *d->Power_0;
        let db = *d->Power_1;
        assert(da.sound() && da.formula() == a && da.value() == da.value());
        assert(db.sound() && db.formula() == b && db.value() == db.value());
        assert(yields(a, da.value()) && yields(b, db.value()) && call_ensures(
            R::powf,
            (da.value(), db.value()),
            out,
        ));
    }
    if exists|x: R, y: R|
        #[trigger] yields(a, x) && #[trigger] yields(b, y) && call_ensures(R::powf, (x, y), out) {
        let (x, y) = choose|x: R, y: R|
            #[trigger] yields(a, x) && #[trigger] yields(b, y) && call_ensures(
                R::powf,
                (x, y),
                out,
            );
        let da = choose|d: Derivation<R>| #[trigger] d.sound() && d.formula() == a && d.value() == x;
        let db = choose|d: Derivation<R>| #[trigger] d.sound() && d.formula() == b && d.value() == y;
        let d = Derivation::Power(Box::new(da), Box::new(db), out);
        assert(d.sound() && d.formula() == a.powf(b) && d.value() == out);
    }
}

/// `a.negated()` yields what `R::negated` gave for a number that `a` yields.
pub proof fn negation_yields<R: Real>(a: Formula<R>, out: R)
    ensures
        yields(a.negated(), out) <==> exists|x: R| #[trigger] yields(a, x) && call_ensures(
            R::negated,
            (x,),
            out,
        ),
{
    if yields(a.negated(), out) {
        let d = choose|d: Derivation<R>| #[trigger]
            d.sound() && d.formula() == a.negated() && d.value() == out;
        assert(d is Negation);
        let da = *d->Negation_0;
        assert(da.sound() && da.formula() == a && da.value() == da.value());
        assert(yields(a, da.value()) && call_ensures(R::negated, (da.value(),), out));
    }
    if exists|x: R| #[trigger] yields(a, x) && call_ensures(R::negated, (x,), out) {
        let x = choose|x: R| #[trigger] yields(a, x) && call_ensures(R::negated, (x,), out);
        let da = choose|d: Derivation<R>| #[trigger] d.sound() && d.formula() == a && d.value() == x;
        let d = Derivation::Negation(Box::new(da), out);
        assert(d.sound() && d.formula() == a.negated() && d.value() == out);
    }
}

/// `a.sqrt()` yields what `R::sqrt` gave for a number that `a` yields.
pub proof fn root_yields<R: Real>(a: Formula<R>, out: R)
    ensures
        yields(a.sqrt(), out) <==> exists|x: R| #[trigger] yields(a, x) && call_ensures(
            R::sqrt,
            (x,),
            out,
        ),
{
    if yields(a.sqrt(), out) {
        let d = choose|d: Derivation<R>| #[trigger]
            d.sound() && d.formula() == a.sqrt() && d.value() == out;
        assert(d is Root);
        let da = *d->Root_0;
        assert(da.sound() && da.formula() == a && da.value() == da.value());
        assert(yields(a, da.value()) && call_ensures(R::sqrt, (da.value(),), out));
    }
    if exists|x: R| #[trigger] yields(a, x) && call_ensures(R::sqrt, (x,), out) {
        let x = choose|x: R| #[trigger] yields(a, x) && call_ensures(R::sqrt, (x,), out);
        let da = choose|d: Derivation<R>| #[trigger] d.sound() && d.formula() == a && d.value() == x;
        let d = Derivation::Root(Box::new(da), out);
        assert(d.sound() && d.formula() == a.sqrt() && d.value() == out);
    }
}

/// `a.sin()` yields what `R::sin` gave for a number that `a` yields.
pub proof fn sine_yields<R: Real>(a: Formula<R>, out: R)
    ensures
        yields(a.sin(), out) <==> exists|x: R| #[trigger] yields(a, x) && call_ensures(
            R::sin,
            (x,),
            out,
        ),
{
    if yields(a.sin(), out) {
        let d = choose|d: Derivation<R>| #[trigger]
            d.sound() && d.formula() == a.sin() && d.value() == out;
        assert(d is Sine);
        let da = *d->Sine_0;
        assert(da.sound() && da.formula() == a && da.value() == da.value());
        assert(yields(a, da.value()) && call_ensures(R::sin, (da.value(),), out));
    }
    if exists|x: R| #[trigger] yields(a, x) && call_ensures(R::sin, (x,), out) {
        let x = choose|x: R| #[trigger] yields(a, x) && call_ensures(R::sin, (x,), out);
        let da = choose|d: Derivation<R>| #[trigger] d.sound() && d.formula() == a && d.value() == x;
        let d = Derivation::Sine(Box::new(da), out);
        assert(d.sound() && d.formula() == a.sin() && d.value() == out);
    }
}

/// `a.cos()` yields what `R::cos` gave for a number that `a` yields.
pub proof fn cosine_yields<R: Real>(a: Formula<R>, out: R)
    ensures
        yields(a.cos(), out) <==> exists|x: R| #[trigger] yields(a, x) && call_ensures(
            R::cos,
            (x,),
            out,
        ),
{
    if yields(a.cos(), out) {
        let d = choose|d: Derivation<R>| #[trigger]
            d.sound() && d.formula() == a.cos() && d.value() == out;
        assert(d is Cosine);
        let da = *d->Cosine_0;
        assert(da.sound() && da.formula() == a && da.value() == da.value());
        assert(yields(a, da.value()) && call_ensures(R::cos, (da.value(),), out));
    }
    if exists|x: R| #[trigger] yields(a, x) && call_ensures(R::cos, (x,), out) {
        let x = choose|x: R| #[trigger] yields(a, x) && call_ensures(R::cos, (x,), out);
        let da = choose|d: Derivation<R>| #[trigger] d.sound() && d.formula() == a && d.value() == x;
        let d = Derivation::Cosine(Box::new(da), out);
        assert(d.sound() && d.formula() == a.cos() && d.value() == out);
    }
}

/// A number together with the derivation that gave it.
pub(crate) struct Worked<R: Real> {
    pub value: R,
    pub steps: Ghost<Derivation<R>>,
}

impl<R: Real> Worked<R> {
    /// The derivation is sound and ends in the value.
    pub(crate) open spec fn holds(self) -> bool {
        self.steps@.sound() && self.steps@.value() == self.value
    }

    /// The formula that the value was worked out from.
    pub(crate) open spec fn formula(self) -> Formula<R> {
        self.steps@.formula()
    }

    /// A number that is at hand.
    pub(crate) fn given(value: R) -> (w: Self)
        ensures
            w.holds(),
            w.value == value,
            w.formula() == Formula::Given(value),
    {
        Worked { value, steps: Ghost(Derivation::Given(value)) }
    }

    /// The whole number `n`.
    pub(crate) fn whole(n: i32) -> (w: Self)
        ensures
            w.holds(),
            w.formula() == Formula::<R>::Whole(n),
    {
        let value = R::whole(n);
        Worked { value, steps: Ghost(Derivation::Whole(n, value)) }
    }

    /// The circle constant.
    pub(crate) fn pi() -> (w: Self)
        ensures
            w.holds(),
            w.formula() == Formula::<R>::Pi,
    {
        let value = R::pi();
        Worked { value, steps: Ghost(Derivation::Pi(value)) }
    }

    /// `self + rhs`.
    pub(crate) fn plus(self, rhs: Self) -> (w: Self)
        requires
            self.holds(),
            rhs.holds(),
        ensures
            w.holds(),
            w.formula() == self.formula().plus(rhs.formula()),
    {
        let value = self.value.plus(rhs.value);
        Worked {
            value,
            steps: Ghost(Derivation::Sum(Box::new(self.steps@), Box::new(rhs.steps@), value)),
        }
    }

    /// `self - rhs`.
    pub(crate) fn minus(self, rhs: Self) -> (w: Self)
        requires
            self.holds(),
            rhs.holds(),
        ensures
            w.holds(),
            w.formula() == self.formula().minus(rhs.formula()),
    {
        let value = self.value.minus(rhs.value);
        Worked {
            value,
            steps: Ghost(Derivation::Difference(Box::new(self.steps@), Box::new(rhs.steps@), value)),
        }
    }

    /// `self * rhs`.
    pub(crate) fn times(self, rhs: Self) -> (w: Self)
        requires
            self.holds(),
            rhs.holds(),
        ensures
            w.holds(),
            w.formula() == self.formula().times(rhs.formula()),
    {
        let value = self.value.times(rhs.value);
        Worked {
            value,
            steps: Ghost(Derivation::Product(Box::new(self.steps@), Box::new(rhs.steps@), value)),
        }
    }

    /// `self / rhs`.
    pub(crate) fn over(self, rhs: Self) -> (w: Self)
        requires
            self.holds(),
            rhs.holds(),
        ensures
            w.holds(),
            w.formula() == self.formula().over(rhs.formula()),
    {
        let value = self.value.over(rhs.value);
        Worked {
            value,
            steps: Ghost(Derivation::Quotient(Box::new(self.steps@), Box::new(rhs.steps@), value)),
        }
    }

    /// `self` raised to `rhs`.
    pub(crate) fn powf(self, rhs: Self) -> (w: Self)
        requires
            self.holds(),
            rhs.holds(),
        ensures
            w.holds(),
            w.formula() == self.formula().powf(rhs.formula()),
    {
        let value = self.value.powf(rhs.value);
        Worked {
            value,
            steps: Ghost(Derivation::Power(Box::new(self.steps@), Box::new(rhs.steps@), value)),
        }
    }

    /// `-self`.
    pub(crate) fn negated(self) -> (w: Self)
        requires
            self.holds(),
        ensures
            w.holds(),
            w.formula() == self.formula().negated(),
    {
        let value = self.value.negated();
        Worked { value, steps: Ghost(Derivation::Negation(Box::new(self.steps@), value)) }
    }

    /// The square root of `self`.
    pub(crate) fn sqrt(self) -> (w: Self)
        requires
            self.holds(),
        ensures
            w.holds(),
            w.formula() == self.formula().sqrt(),
    {
        let value = self.value.sqrt();
        Worked { value, steps: Ghost(Derivation::Root(Box::new(self.steps@), value)) }
    }

    /// The sine of `self`.
    pub(crate) fn sin(self) -> (w: Self)
        requires
            self.holds(),
        ensures
            w.holds(),
            w.formula() == self.formula().sin(),
    {
        let value = self.value.sin();
        Worked { value, steps: Ghost(Derivation::Sine(Box::new(self.steps@), value)) }
    }

    /// The cosine of `self`.
    pub(crate) fn cos(self) -> (w: Self)
        requires
            self.holds(),
        ensures
            w.holds(),
            w.formula() == self.formula().cos(),
    {
        let value = self.value.cos();
        Worked { value, steps: Ghost(Derivation::Cosine(Box::new(self.steps@), value)) }
    }

    /// The formula gives the value.
    pub(crate) proof fn shown(self)
        requires
            self.holds(),
        ensures
            yields(self.formula(), self.value),
    {
        assert(self.steps@.sound() && self.steps@.formula() == self.formula()
            && self.steps@.value() == self.value);
    }
}

} // verus!
