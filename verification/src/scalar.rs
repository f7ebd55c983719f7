//! The numbers that a filter works on.
//!
//! A filter is written once for every precision. Its numbers are of two
//! kinds, which may be one type: the samples (`Sample`), and the numbers of
//! the working precision (`Real`), in which a design is worked out before
//! it is narrowed to the samples' precision. Both have the arithmetic of
//! `Number`.
//!
//! Nothing is claimed of what an operation returns: rounding, and values
//! that are not numbers, are the business of the type. The contracts of the
//! library therefore say of a result only that the type's own operation
//! gave it for stated operands. The relations below are the words for that.
//!
//! The library calls the operations on whatever operands come up. One that
//! does not return keeps the library's function from returning.
use vstd::prelude::*;

verus! {

/// Numbers that can be added, subtracted and multiplied.
pub trait Number: Copy {
    /// `self + rhs`.
    fn plus(self, rhs: Self) -> Self;

    /// `self - rhs`.
    fn minus(self, rhs: Self) -> Self;

    /// `self * rhs`.
    fn times(self, rhs: Self) -> Self;
}

/// The working precision of a design.
pub trait Real: Number {
    /// The number `n`.
    fn whole(n: i32) -> Self;

    /// The ratio of a circle's circumference to its diameter.
    fn pi() -> Self;

    /// `self / rhs`.
    fn over(self, rhs: Self) -> Self;

    /// `-self`.
    fn negated(self) -> Self;

    /// The square root of `self`.
    fn sqrt(self) -> Self;

    /// The sine of `self`, an angle in radians.
    fn sin(self) -> Self;

    /// The cosine of `self`, an angle in radians.
    fn cos(self) -> Self;

    /// `self` raised to `exponent`.
    fn powf(self, exponent: Self) -> Self;

    /// Whether `self < rhs`.
    fn less_than(self, rhs: Self) -> bool;
}

/// The precision of the samples and of the stored coefficients.
pub trait Sample: Number {
    /// The precision in which designs for this sample type are worked out.
    type Wide: Real;

    /// The number zero.
    fn zero() -> Self;

    /// The number one.
    fn one() -> Self;

    /// A sample rate in hertz as a sample, or `None` where the type cannot
    /// hold it.
    fn from_rate(hertz: u32) -> Option<Self>;

    /// A number of the working precision as a sample, or `None` where the
    /// type cannot hold it.
    fn narrow(wide: Self::Wide) -> Option<Self>;

    /// A sample in the working precision, or `None` where that cannot hold
    /// it.
    fn widen(self) -> Option<Self::Wide>;

    /// Whether `self == rhs`.
    fn equals(self, rhs: Self) -> bool;
}

/// `z` is a zero of `F`.
pub open spec fn is_zero<F: Sample>(z: F) -> bool {
    call_ensures(F::zero, (), z)
}

/// `u` is a one of `F`.
pub open spec fn is_one<F: Sample>(u: F) -> bool {
    call_ensures(F::one, (), u)
}

/// Converting `hertz` to a sample gave `out`.
pub open spec fn is_rate<F: Sample>(hertz: u32, out: Option<F>) -> bool {
    call_ensures(F::from_rate, (hertz,), out)
}

/// Narrowing `wide` gave `out`.
pub open spec fn narrows<F: Sample>(wide: F::Wide, out: Option<F>) -> bool {
    call_ensures(F::narrow, (wide,), out)
}

/// Widening `sample` gave `out`.
pub open spec fn widens<F: Sample>(sample: F, out: Option<F::Wide>) -> bool {
    call_ensures(F::widen, (sample,), out)
}

/// Comparing `a` with `b` for equality gave `out`.
pub open spec fn is_equality<F: Sample>(a: F, b: F, out: bool) -> bool {
    call_ensures(F::equals, (a, b), out)
}

/// `a + b` gave `out`.
pub open spec fn is_sum<F: Number>(a: F, b: F, out: F) -> bool {
    call_ensures(F::plus, (a, b), out)
}

/// `a - b` gave `out`.
pub open spec fn is_difference<F: Number>(a: F, b: F, out: F) -> bool {
    call_ensures(F::minus, (a, b), out)
}

/// `a * b` gave `out`.
pub open spec fn is_product<F: Number>(a: F, b: F, out: F) -> bool {
    call_ensures(F::times, (a, b), out)
}

/// Asking whether `a < b` gave `out`.
pub open spec fn is_less<R: Real>(a: R, b: R, out: bool) -> bool {
    call_ensures(R::less_than, (a, b), out)
}

} // verus!
