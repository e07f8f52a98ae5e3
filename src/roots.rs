use vstd::prelude::*;

use crate::pow::{pow, power};
use crate::scalar::{count_of, half, precision_count, Scalar};

verus! {

/// The estimate of the square root of `x` after `k` steps of
/// `r <- 0.5 * (r + x / r)`, starting from `r = x`.
pub open spec fn sqrt_iter<T: Scalar>(x: T, k: nat) -> T
    decreases k,
{
    if k == 0 {
        x
    } else {
        let r = sqrt_iter(x, (k - 1) as nat);
        half::<T>().spec_times(r.spec_plus(x.spec_over(r)))
    }
}

/// Square root of `x` by exactly `precision` steps of the fixed-point iteration
/// `r <- 0.5 * (r + x / r)` from `r = x` (`DEFAULT_PRECISION` when `None`).
/// There is no test of convergence. Zero divides by zero on the first step.
pub fn sqrt<T: Scalar>(x: T, precision: Option<usize>) -> (r: T)
    ensures
        r == sqrt_iter(x, count_of(precision)),
{
    let n = precision_count(precision);
    let one_half = T::from_count(1).over(T::from_count(2));
    let mut result = x;
    let mut i: usize = 0;
    while i < n
        invariant
            i <= n,
            one_half == half::<T>(),
            result == sqrt_iter(x, i as nat),
        decreases n - i,
    {
        result = one_half.times(result.plus(x.over(result)));
        i = i + 1;
    }
    result
}

/// One Newton step towards `a^n = x`: `a + (x / a^(n-1) - a) / n`, where the
/// power is the one of `pow`.
pub open spec fn root_step<T: Scalar>(x: T, n: nat, a: T) -> T {
    a.spec_plus(
        x.spec_over(power(a, (n - 1) as nat)).spec_minus(a).spec_over(
            T::spec_from_count(n as usize),
        ),
    )
}

/// For the first root the power in a Newton step is `pow(a, 0)`, which is `a`
/// itself, so each step is `a + (x / a - a) / 1`.
pub proof fn first_root_step_divides_by_estimate<T: Scalar>(x: T, a: T)
    ensures
        root_step(x, 1, a) == a.spec_plus(
            x.spec_over(a).spec_minus(a).spec_over(T::spec_from_count(1)),
        ),
{
}

/// The estimate of the `n`-th root of `x` after `k` Newton steps from `x * 0.5`.
pub open spec fn root_iter<T: Scalar>(x: T, n: nat, k: nat) -> T
    decreases k,
{
    if k == 0 {
        x.spec_times(half::<T>())
    } else {
        root_step(x, n, root_iter(x, n, (k - 1) as nat))
    }
}

/// `n`-th root of `x` by exactly `precision` Newton steps
/// `a <- a + (x / pow(a, n - 1) - a) / n` from `a = x * 0.5`
/// (`DEFAULT_PRECISION` when `None`). For `n == 1` the power is `pow(a, 0)`,
/// which is `a`.
pub fn root<T: Scalar>(x: T, n: usize, precision: Option<usize>) -> (r: T)
    requires
        n >= 1 || count_of(precision) == 0,
    ensures
        r == root_iter(x, n as nat, count_of(precision)),
{
    let steps = precision_count(precision);
    let one_half = T::from_count(1).over(T::from_count(2));
    let mut a = x.times(one_half);
    let mut i: usize = 0;
    while i < steps
        invariant
            i <= steps,
            n >= 1 || steps == 0,
            steps as nat == count_of(precision),
            a == root_iter(x, n as nat, i as nat),
        decreases steps - i,
    {
        let dx = x.over(pow(a, n - 1)).minus(a).over(T::from_count(n));
        a = a.plus(dx);
        i = i + 1;
    }
    a
}

} // verus!
