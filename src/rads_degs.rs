use vstd::prelude::*;

use crate::scalar::Scalar;

verus! {

/// `180 / pi`, the number of degrees in one radian.
pub open spec fn degrees_per_radian<T: Scalar>() -> T {
    T::spec_from_count(180).spec_over(T::spec_pi())
}

/// `pi / 180`, the number of radians in one degree.
pub open spec fn radians_per_degree<T: Scalar>() -> T {
    T::spec_pi().spec_over(T::spec_from_count(180))
}

/// Converts an angle in radians to degrees.
pub fn degrees<T: Scalar>(rads: T) -> (r: T)
    ensures
        r == rads.spec_times(degrees_per_radian::<T>()),
{
    let factor = T::from_count(180).over(T::pi());
    rads.times(factor)
}

/// Converts an angle in degrees to radians.
pub fn radians<T: Scalar>(degs: T) -> (r: T)
    ensures
        r == degs.spec_times(radians_per_degree::<T>()),
{
    let factor = T::pi().over(T::from_count(180));
    degs.times(factor)
}

/// An angle measured in degrees. It becomes radians only through `radians`.
#[derive(Clone, Copy)]
pub struct Degrees<T> {
    value: T,
}

/// An angle measured in radians. It becomes degrees only through `degrees`.
#[derive(Clone, Copy)]
pub struct Radians<T> {
    value: T,
}

impl<T> View for Degrees<T> {
    type V = T;

    closed spec fn view(&self) -> T {
        self.value
    }
}

impl<T> View for Radians<T> {
    type V = T;

    closed spec fn view(&self) -> T {
        self.value
    }
}

impl<T: Scalar> Degrees<T> {
    /// Tags `value` as a number of degrees.
    pub fn new(value: T) -> (r: Self)
        ensures
            r@ == value,
    {
        Degrees { value }
    }

    /// The number of degrees.
    pub fn get(self) -> (r: T)
        ensures
            r == self@,
    {
        self.value
    }

    /// The same angle in radians.
    pub fn radians(self) -> (r: Radians<T>)
        ensures
            r@ == self@.spec_times(radians_per_degree::<T>()),
    {
        Radians { value: radians(self.value) }
    }
}

impl<T: Scalar> Radians<T> {
    /// Tags `value` as a number of radians.
    pub fn new(value: T) -> (r: Self)
        ensures
            r@ == value,
    {
        Radians { value }
    }

    /// The number of radians.
    pub fn get(self) -> (r: T)
        ensures
            r == self@,
    {
        self.value
    }

    /// The same angle in degrees.
    pub fn degrees(self) -> (r: Degrees<T>)
        ensures
            r@ == self@.spec_times(degrees_per_radian::<T>()),
    {
        Degrees { value: degrees(self.value) }
    }
}

} // verus!
