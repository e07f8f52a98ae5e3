use vstd::prelude::*;

use crate::scalar::{zero, Scalar};

verus! {

/// A generator of series terms that carries its own running state, so that each
/// term is built from the one before rather than from scratch.
pub trait TermSource<T: Scalar>: Sized {
    /// The term that the generator emits in this state.
    spec fn spec_term(self) -> T;

    /// The state after emitting a term.
    spec fn spec_next(self) -> Self;

    fn next_term(&mut self) -> (t: T)
        ensures
            t == old(self).spec_term(),
            *final(self) == old(self).spec_next(),
    ;
}

/// The state of a generator after `k` terms have been emitted.
pub open spec fn state_after<T: Scalar, S: TermSource<T>>(s: S, k: nat) -> S
    decreases k,
{
    if k == 0 {
        s
    } else {
        state_after::<T, S>(s, (k - 1) as nat).spec_next()
    }
}

/// The `k`-th term (counting from zero) that a generator emits.
pub open spec fn term_at<T: Scalar, S: TermSource<T>>(s: S, k: nat) -> T {
    state_after::<T, S>(s, k).spec_term()
}

/// The sum of the first `n` terms of a generator, added one by one in ascending
/// order onto zero: `((0 + t0) + t1) + ... + t(n-1)`.
pub open spec fn series_sum<T: Scalar, S: TermSource<T>>(s: S, n: nat) -> T
    decreases n,
{
    if n == 0 {
        zero::<T>()
    } else {
        series_sum::<T, S>(s, (n - 1) as nat).spec_plus(term_at::<T, S>(s, (n - 1) as nat))
    }
}

/// Sums the first `n` terms that `source` emits, in ascending order, starting
/// from zero. The generator is called exactly `n` times.
pub fn summation<T: Scalar, S: TermSource<T>>(n: usize, source: S) -> (r: T)
    ensures
        r == series_sum::<T, S>(source, n as nat),
{
    let mut state = source;
    let mut sum = T::from_count(0);
    let mut i: usize = 0;
    while i < n
        invariant
            i <= n,
            state == state_after::<T, S>(source, i as nat),
            sum == series_sum::<T, S>(source, i as nat),
        decreases n - i,
    {
        let term = state.next_term();
        sum = sum.plus(term);
        i = i + 1;
    }
    sum
}

} // verus!
