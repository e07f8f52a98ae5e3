use vstd::prelude::*;

use crate::scalar::{count_of, one, precision_count, two, Scalar};
use crate::series::{series_sum, summation, TermSource};

verus! {

/// Running state of the series `ln(x) = 2 * sum u^(2k+1) / (2k+1)`, with
/// `u = (x - 1) / (x + 1)`.
pub struct LnTerms<T> {
    /// The current odd power of `u`.
    pub fraction: T,
    /// The current odd divisor.
    pub cur_div: T,
    /// `u * u`, fixed for the whole series.
    pub uu: T,
}

/// `(x - 1) / (x + 1)`, the argument of the series.
pub open spec fn ln_argument<T: Scalar>(x: T) -> T {
    x.spec_minus(one::<T>()).spec_over(x.spec_plus(one::<T>()))
}

/// The starting state of the series for `x`.
pub open spec fn ln_start<T: Scalar>(x: T) -> LnTerms<T> {
    LnTerms {
        fraction: ln_argument(x),
        cur_div: one::<T>(),
        uu: ln_argument(x).spec_times(ln_argument(x)),
    }
}

impl<T: Scalar> TermSource<T> for LnTerms<T> {
    open spec fn spec_term(self) -> T {
        self.fraction.spec_over(self.cur_div)
    }

    open spec fn spec_next(self) -> Self {
        LnTerms {
            fraction: self.fraction.spec_times(self.uu),
            cur_div: self.cur_div.spec_plus(two::<T>()),
            uu: self.uu,
        }
    }

    fn next_term(&mut self) -> (t: T) {
        let calculated = self.fraction.over(self.cur_div);
        self.cur_div = self.cur_div.plus(T::from_count(2));
        self.fraction = self.fraction.times(self.uu);
        calculated
    }
}

/// The natural logarithm of `x` by `n` terms of its series, doubled.
pub open spec fn ln_series<T: Scalar>(x: T, n: nat) -> T {
    two::<T>().spec_times(series_sum::<T, LnTerms<T>>(ln_start(x), n))
}

/// Natural logarithm of `x`, by `precision` terms of the series of
/// `2 * artanh((x - 1) / (x + 1))` (`DEFAULT_PRECISION` when `None`).
/// Meaningful for `x > 0`; other inputs give whatever the formula gives.
pub fn ln<T: Scalar>(x: T, precision: Option<usize>) -> (r: T)
    ensures
        r == ln_series(x, count_of(precision)),
{
    let n = precision_count(precision);
    let one = T::from_count(1);
    let u = x.minus(one).over(x.plus(one));
    let terms = LnTerms { fraction: u, cur_div: one, uu: u.times(u) };
    let sum = summation(n, terms);
    T::from_count(2).times(sum)
}

/// Binary logarithm: `ln(x) * log2(e)`.
pub fn lb<T: Scalar>(x: T, precision: Option<usize>) -> (r: T)
    ensures
        r == ln_series(x, count_of(precision)).spec_times(T::spec_log2_e()),
{
    ln(x, precision).times(T::log2_e())
}

/// Common (decimal) logarithm: `ln(x) * log10(e)`.
pub fn lg<T: Scalar>(x: T, precision: Option<usize>) -> (r: T)
    ensures
        r == ln_series(x, count_of(precision)).spec_times(T::spec_log10_e()),
{
    ln(x, precision).times(T::log10_e())
}

/// Logarithm of `a` to base `b`: `ln(a) / ln(b)`, both at the same precision.
/// Where `ln(b)` is zero the result is whatever that division gives.
pub fn log<T: Scalar>(a: T, b: T, precision: Option<usize>) -> (r: T)
    ensures
        r == ln_series(a, count_of(precision)).spec_over(ln_series(b, count_of(precision))),
{
    ln(a, precision).over(ln(b, precision))
}

/// The change of base is exact: whatever `ln` returns for `a` and for `b` at a
/// precision, `log` at that precision returns the first divided by the second.
pub proof fn log_is_quotient_of_ln<T: Scalar>(a: T, b: T, precision: Option<usize>, ra: T, rb: T, r: T)
    requires
        call_ensures(ln::<T>, (a, precision), ra),
        call_ensures(ln::<T>, (b, precision), rb),
        call_ensures(log::<T>, (a, b, precision), r),
    ensures
        r == ra.spec_over(rb),
{
}

} // verus!
