use vstd::prelude::*;

verus! {

/// Number of series terms, or of iterations, used when a caller passes no precision.
pub const DEFAULT_PRECISION: usize = 100;

/// The count that a precision argument stands for: the given count, or
/// `DEFAULT_PRECISION` when none is given.
pub open spec fn count_of(precision: Option<usize>) -> nat {
    match precision {
        Some(n) => n as nat,
        None => DEFAULT_PRECISION as nat,
    }
}

/// Resolves a precision argument to the number of terms or iterations to run.
pub fn precision_count(precision: Option<usize>) -> (n: usize)
    ensures
        n as nat == count_of(precision),
{
    match precision {
        Some(n) => n,
        None => DEFAULT_PRECISION,
    }
}

/// The arithmetic that every algorithm of this library is written against.
///
/// Each operation is paired with a spec function naming its result, so that the
/// algorithms can state exactly which sequence of operations produces their
/// output. Nothing is assumed of the operations beyond being functions of their
/// arguments: the same inputs give the same result, so the same precision gives
/// the same output.
pub trait Scalar: Sized + Copy {
    /// The value of the count `n` in this type (`n as f64` for a float).
    spec fn spec_from_count(n: usize) -> Self;

    spec fn spec_plus(self, rhs: Self) -> Self;

    spec fn spec_minus(self, rhs: Self) -> Self;

    spec fn spec_times(self, rhs: Self) -> Self;

    spec fn spec_over(self, rhs: Self) -> Self;

    spec fn spec_negate(self) -> Self;

    /// The constant pi.
    spec fn spec_pi() -> Self;

    /// The constant log2(e).
    spec fn spec_log2_e() -> Self;

    /// The constant log10(e).
    spec fn spec_log10_e() -> Self;

    fn from_count(n: usize) -> (r: Self)
        ensures
            r == Self::spec_from_count(n),
    ;

    fn plus(self, rhs: Self) -> (r: Self)
        ensures
            r == self.spec_plus(rhs),
    ;

    fn minus(self, rhs: Self) -> (r: Self)
        ensures
            r == self.spec_minus(rhs),
    ;

    fn times(self, rhs: Self) -> (r: Self)
        ensures
            r == self.spec_times(rhs),
    ;

    fn over(self, rhs: Self) -> (r: Self)
        ensures
            r == self.spec_over(rhs),
    ;

    fn negate(self) -> (r: Self)
        ensures
            r == self.spec_negate(),
    ;

    fn pi() -> (r: Self)
        ensures
            r == Self::spec_pi(),
    ;

    fn log2_e() -> (r: Self)
        ensures
            r == Self::spec_log2_e(),
    ;

    fn log10_e() -> (r: Self)
        ensures
            r == Self::spec_log10_e(),
    ;
}

/// Zero, the start of every sum.
pub open spec fn zero<T: Scalar>() -> T {
    T::spec_from_count(0)
}

pub open spec fn one<T: Scalar>() -> T {
    T::spec_from_count(1)
}

pub open spec fn two<T: Scalar>() -> T {
    T::spec_from_count(2)
}

/// One half, formed as one over two.
pub open spec fn half<T: Scalar>() -> T {
    one::<T>().spec_over(two::<T>())
}

} // verus!
