use vstd::prelude::*;

use crate::scalar::{count_of, one, precision_count, two, zero, Scalar};
use crate::series::{series_sum, summation, TermSource};

verus! {

/// Running state of the Maclaurin series of sine and cosine.
///
/// Each step multiplies the current term by `-x^2` and divides it by the next
/// two factorial factors, `(c + 1) * (c + 2)`, then advances `c` by two.
pub struct TrigTerms<T> {
    /// The term to emit next.
    pub fraction: T,
    /// The last factorial factor reached so far.
    pub current_fac: T,
    /// `-(x * x)`, fixed for the whole series.
    pub neg_x_squared: T,
}

/// The starting state for angle `x`, first term `fraction` and counter `current_fac`.
pub open spec fn trig_start<T: Scalar>(x: T, fraction: T, current_fac: T) -> TrigTerms<T> {
    TrigTerms { fraction, current_fac, neg_x_squared: x.spec_times(x).spec_negate() }
}

impl<T: Scalar> TermSource<T> for TrigTerms<T> {
    open spec fn spec_term(self) -> T {
        self.fraction
    }

    open spec fn spec_next(self) -> Self {
        TrigTerms {
            fraction: self.fraction.spec_times(self.neg_x_squared).spec_over(
                self.current_fac.spec_plus(one::<T>()).spec_times(
                    self.current_fac.spec_plus(two::<T>()),
                ),
            ),
            current_fac: self.current_fac.spec_plus(two::<T>()),
            neg_x_squared: self.neg_x_squared,
        }
    }

    fn next_term(&mut self) -> (t: T) {
        let calculated = self.fraction;
        let one = T::from_count(1);
        let two = T::from_count(2);
        let divisor = self.current_fac.plus(one).times(self.current_fac.plus(two));
        self.fraction = self.fraction.times(self.neg_x_squared).over(divisor);
        self.current_fac = self.current_fac.plus(two);
        calculated
    }
}

/// Sine by its Maclaurin series `x - x^3/3! + x^5/5! - ...`, to `n` terms.
pub open spec fn sine_series<T: Scalar>(x: T, n: nat) -> T {
    series_sum::<T, TrigTerms<T>>(trig_start(x, x, one::<T>()), n)
}

/// Cosine by its Maclaurin series `1 - x^2/2! + x^4/4! - ...`, to `n` terms.
pub open spec fn cosine_series<T: Scalar>(x: T, n: nat) -> T {
    series_sum::<T, TrigTerms<T>>(trig_start(x, one::<T>(), zero::<T>()), n)
}

fn sine_cosine_helper<T: Scalar>(
    rads: T,
    precision: Option<usize>,
    fraction: T,
    current_fac: T,
) -> (r: T)
    ensures
        r == series_sum::<T, TrigTerms<T>>(
            trig_start(rads, fraction, current_fac),
            count_of(precision),
        ),
{
    let n = precision_count(precision);
    let neg_x_squared = rads.times(rads).negate();
    let terms = TrigTerms { fraction, current_fac, neg_x_squared };
    summation(n, terms)
}

/// Sine of `rads` (in radians), summing `precision` terms of its series
/// (`DEFAULT_PRECISION` when `None`). The angle is not reduced modulo 2*pi.
pub fn sin<T: Scalar>(rads: T, precision: Option<usize>) -> (r: T)
    ensures
        r == sine_series(rads, count_of(precision)),
{
    sine_cosine_helper(rads, precision, rads, T::from_count(1))
}

/// Cosine of `rads` (in radians), summing `precision` terms of its series
/// (`DEFAULT_PRECISION` when `None`). The angle is not reduced modulo 2*pi.
pub fn cos<T: Scalar>(rads: T, precision: Option<usize>) -> (r: T)
    ensures
        r == cosine_series(rads, count_of(precision)),
{
    sine_cosine_helper(rads, precision, T::from_count(1), T::from_count(0))
}

} // verus!
