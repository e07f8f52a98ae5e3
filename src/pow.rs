use vstd::prelude::*;

use crate::log::{ln, ln_series};
use crate::scalar::{count_of, one, precision_count, zero, Scalar};
use crate::series::{series_sum, summation, TermSource};

verus! {

/// `x` multiplied by itself, `n - 1` multiplications starting from `x`.
/// An exponent of zero or one gives `x` itself.
pub open spec fn power<T: Scalar>(x: T, n: nat) -> T
    decreases n,
{
    if n <= 1 {
        x
    } else {
        power(x, (n - 1) as nat).spec_times(x)
    }
}

/// `n`-th power of `x` by repeated multiplication. The exponent zero is not
/// special: `pow(x, 0)` is `x`, as is `pow(x, 1)`.
pub fn pow<T: Scalar>(x: T, n: usize) -> (r: T)
    ensures
        r == power(x, n as nat),
        n == 0 ==> r == x,
{
    let mut result = x;
    let mut i: usize = 1;
    while i < n
        invariant
            1 <= i,
            i <= n || i == 1,
            result == power(x, i as nat),
        decreases n - i,
    {
        result = result.times(x);
        i = i + 1;
    }
    result
}

/// Running state of the series `sum x^n / n!`: `a` is the power of `x`, `b` the
/// factorial and `n` the counter that `b` was last multiplied by.
pub struct ExpTerms<T> {
    pub x: T,
    pub a: T,
    pub b: T,
    pub n: T,
}

/// The starting state of the exponential series for `x`.
pub open spec fn exp_start<T: Scalar>(x: T) -> ExpTerms<T> {
    ExpTerms { x, a: one::<T>(), b: one::<T>(), n: zero::<T>() }
}

impl<T: Scalar> TermSource<T> for ExpTerms<T> {
    open spec fn spec_term(self) -> T {
        self.a.spec_over(self.b)
    }

    open spec fn spec_next(self) -> Self {
        ExpTerms {
            x: self.x,
            a: self.a.spec_times(self.x),
            b: self.b.spec_times(self.n.spec_plus(one::<T>())),
            n: self.n.spec_plus(one::<T>()),
        }
    }

    fn next_term(&mut self) -> (t: T) {
        let calculated = self.a.over(self.b);
        self.a = self.a.times(self.x);
        self.n = self.n.plus(T::from_count(1));
        self.b = self.b.times(self.n);
        calculated
    }
}

/// The exponential of `x` by `n` terms of its Maclaurin series.
pub open spec fn exp_series<T: Scalar>(x: T, n: nat) -> T {
    series_sum::<T, ExpTerms<T>>(exp_start(x), n)
}

/// Exponential of `x`, summing `precision` terms of `sum x^n / n!`
/// (`DEFAULT_PRECISION` when `None`).
pub fn exp<T: Scalar>(x: T, precision: Option<usize>) -> (r: T)
    ensures
        r == exp_series(x, count_of(precision)),
{
    let n = precision_count(precision);
    let terms = ExpTerms {
        x,
        a: T::from_count(1),
        b: T::from_count(1),
        n: T::from_count(0),
    };
    summation(n, terms)
}

/// `x` to the real power `a`, as `exp(a * ln(x))`, both series at the same
/// precision. Meaningful for `x > 0`.
pub fn powf<T: Scalar>(x: T, a: T, precision: Option<usize>) -> (r: T)
    ensures
        r == exp_series(a.spec_times(ln_series(x, count_of(precision))), count_of(precision)),
{
    exp(a.times(ln(x, precision)), precision)
}

} // verus!
