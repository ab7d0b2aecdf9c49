//! A collection of functions that are useful for games.

use std::ops::Add;
use std::ops::Mul;
use std::ops::Sub;
use vstd::prelude::*;
use vstd::std_specs::ops::AddSpec;
use vstd::std_specs::ops::MulSpec;
use vstd::std_specs::ops::SubSpec;

verus! {

/// The point that lies `weight` of the way from `a` to `b`, for types whose
/// operators mean what their specifications say.
pub open spec fn lerped<T, U>(a: T, b: T, weight: U) -> T where
    T: Add<T, Output = T> + Sub<T, Output = T> + Mul<U, Output = T>,
 {
    b.sub_spec(a).mul_spec(weight).add_spec(a)
}

/// Whether the three steps of [`lerp`] can be taken on these values: the
/// difference, its product with the weight, and the sum with `a`.
pub open spec fn lerp_defined<T, U>(a: T, b: T, weight: U) -> bool where
    T: Add<T, Output = T> + Sub<T, Output = T> + Mul<U, Output = T>,
 {
    &&& b.sub_req(a)
    &&& b.sub_spec(a).mul_req(weight)
    &&& b.sub_spec(a).mul_spec(weight).add_req(a)
}

/// An implementation of linear interpolation.
pub fn lerp<T, U>(a: T, b: T, weight: U) -> (value: T) where
    T: Add<T, Output = T> + Sub<T, Output = T> + Mul<U, Output = T> + Copy,

    requires
        <T as SubSpec<T>>::obeys_sub_spec(),
        <T as MulSpec<U>>::obeys_mul_spec(),
        <T as AddSpec<T>>::obeys_add_spec(),
        lerp_defined(a, b, weight),
    ensures
        value == lerped(a, b, weight),
{
    (b - a) * weight + a
}

} // verus!
