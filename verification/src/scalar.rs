//! The number type that the routines compute with, and the few facts about
//! its arithmetic that their contracts rest on.

use core::ops::{Add, Div, Mul, Sub};
use vstd::prelude::*;
use vstd::std_specs::cmp::{PartialOrdIs, PartialOrdSpec};
use vstd::std_specs::convert::FromSpec;
use vstd::std_specs::ops::{AddSpec, DivSpec, MulSpec, SubSpec};

verus! {

/// A copyable number with the four arithmetic operators, a partial order and
/// a conversion from small whole numbers. Every type with these capabilities
/// is a scalar.
///
/// The routines of this crate never assume that an operator can be applied:
/// a type may refuse operands, as the primitive integers refuse an overflow
/// or a division by zero. Each routine has a `*_defined` predicate that lists
/// the operations it performs, and requires it. For a type whose operators
/// accept every operand, such as a binary floating-point type, these
/// predicates hold of all arguments.
pub trait Scalar: Copy + PartialOrd + From<i32> + Add<Output = Self> + Sub<Output = Self> + Mul<
    Output = Self,
> + Div<Output = Self> {

}

impl<T> Scalar for T where
    T: Copy + PartialOrd + From<i32> + Add<Output = T> + Sub<Output = T> + Mul<Output = T> + Div<
        Output = T,
    >,
 {
}

/// Each operator, the comparison and the conversion of `T` are functions of
/// their operands: the same operands always give the same result, the one
/// that the operation's specification names.
pub open spec fn deterministic<T: Scalar>() -> bool {
    &&& T::obeys_add_spec()
    &&& T::obeys_sub_spec()
    &&& T::obeys_mul_spec()
    &&& T::obeys_div_spec()
    &&& T::obeys_from_spec()
    &&& T::obeys_partial_cmp_spec()
}

/// The scalar that stands for the whole number `n`.
pub open spec fn number_spec<T: Scalar>(n: i32) -> T {
    T::from_spec(n)
}

/// `a < b` in the order of `T`.
pub open spec fn less<T: Scalar>(a: T, b: T) -> bool {
    a.is_lt(&b)
}

/// `a <= b` in the order of `T`.
pub open spec fn at_most<T: Scalar>(a: T, b: T) -> bool {
    a.is_le(&b)
}

/// `x` lies strictly above zero.
pub open spec fn positive<T: Scalar>(x: T) -> bool {
    less(number_spec::<T>(0), x)
}

/// The distance of `x` from zero: `0 - x` below zero, `x` itself elsewhere.
pub open spec fn absolute_spec<T: Scalar>(x: T) -> T {
    if less(x, number_spec::<T>(0)) {
        number_spec::<T>(0).sub_spec(x)
    } else {
        x
    }
}

/// Taking the absolute value of `x` is defined.
pub open spec fn absolute_defined<T: Scalar>(x: T) -> bool {
    less(x, number_spec::<T>(0)) ==> number_spec::<T>(0).sub_req(x)
}

/// The fixed stopping threshold of the root solvers, one millionth.
pub open spec fn tolerance_spec<T: Scalar>() -> T {
    number_spec::<T>(1).div_spec(number_spec::<T>(1_000_000))
}

/// The tolerance can be computed in `T`.
pub open spec fn tolerance_defined<T: Scalar>() -> bool {
    number_spec::<T>(1).div_req(number_spec::<T>(1_000_000))
}

/// `a` and `b` lie within the solvers' tolerance of each other:
/// `|a - b| <= tolerance`.
pub open spec fn close_spec<T: Scalar>(a: T, b: T) -> bool {
    at_most(absolute_spec(a.sub_spec(b)), tolerance_spec::<T>())
}

/// The operations that `close` performs on `a` and `b` are all defined.
pub open spec fn close_defined<T: Scalar>(a: T, b: T) -> bool {
    &&& a.sub_req(b)
    &&& absolute_defined(a.sub_spec(b))
    &&& tolerance_defined::<T>()
}

/// Converts the whole number `n` into the scalar type.
pub fn number<T: Scalar>(n: i32) -> (r: T)
    requires
        deterministic::<T>(),
    ensures
        r == number_spec::<T>(n),
{
    T::from(n)
}

/// Absolute value by comparison with zero.
pub fn absolute<T: Scalar>(x: T) -> (r: T)
    requires
        deterministic::<T>(),
        absolute_defined(x),
    ensures
        r == absolute_spec(x),
{
    let zero: T = number(0);
    if x < zero {
        zero - x
    } else {
        x
    }
}

/// The solvers' tolerance, one millionth, computed in `T`.
pub fn tolerance<T: Scalar>() -> (r: T)
    requires
        deterministic::<T>(),
        tolerance_defined::<T>(),
    ensures
        r == tolerance_spec::<T>(),
{
    let one: T = number(1);
    let million: T = number(1_000_000);
    one / million
}

/// Tells whether `a` and `b` differ by no more than the tolerance.
pub fn close<T: Scalar>(a: T, b: T) -> (r: bool)
    requires
        deterministic::<T>(),
        close_defined(a, b),
    ensures
        r == close_spec(a, b),
{
    let distance = absolute(a - b);
    let limit: T = tolerance();
    distance <= limit
}

} // verus!
