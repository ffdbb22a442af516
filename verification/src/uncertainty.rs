//! Propagation of measurement uncertainties through a function of several
//! variables.
//!
//! Both rules linearise the function at the measured point. The partial
//! derivatives are estimated by central differences with a fixed step of one
//! hundred-thousandth, whatever the scale of the variables.

use crate::differentiate::{
    gradient_attained, partial_df, partial_df_attained, partial_df_defined, partial_df_spec,
};
use crate::evaluate::{attained, evaluate, pure, pure_on_points, value_of};
use crate::scalar::{
    absolute, absolute_defined, absolute_spec, deterministic, number, number_spec, positive,
    Scalar,
};
use crate::vector::{sum_defined, sum_extends, sum_spec, Vector};
use vstd::prelude::*;
use vstd::std_specs::ops::{DivSpec, MulSpec};

verus! {

/// The step of the central differences, one hundred-thousandth.
pub open spec fn step_spec<T: Scalar>() -> T {
    number_spec::<T>(1).div_spec(number_spec::<T>(100_000))
}

/// The step can be computed in `T` and is positive there.
pub open spec fn step_defined<T: Scalar>() -> bool {
    &&& number_spec::<T>(1).div_req(number_spec::<T>(100_000))
    &&& positive(step_spec::<T>())
}

/// The estimated partial derivative of `f` at `point` along `axis`, with the
/// fixed step.
pub open spec fn slope_spec<T: Scalar, F: Fn(&Vector<T>) -> T>(
    f: &F,
    point: Seq<T>,
    axis: int,
) -> T {
    partial_df_spec(f, point, axis, step_spec::<T>())
}

/// The contribution of one variable to the variance: the square of the
/// partial derivative `slope` times the uncertainty `error`.
pub open spec fn squared_term_spec<T: Scalar>(slope: T, error: T) -> T {
    slope.mul_spec(error).mul_spec(slope.mul_spec(error))
}

/// The squared term of a variable can be computed.
pub open spec fn squared_term_defined<T: Scalar>(slope: T, error: T) -> bool {
    &&& slope.mul_req(error)
    &&& slope.mul_spec(error).mul_req(slope.mul_spec(error))
}

/// The contribution of one variable to the worst-case bound: the absolute
/// value of the partial derivative `slope` times the uncertainty `error`.
pub open spec fn absolute_term_spec<T: Scalar>(slope: T, error: T) -> T {
    absolute_spec(slope).mul_spec(error)
}

/// The absolute term of a variable can be computed.
pub open spec fn absolute_term_defined<T: Scalar>(slope: T, error: T) -> bool {
    &&& absolute_defined(slope)
    &&& absolute_spec(slope).mul_req(error)
}

/// The squared terms of the variables, in their order.
pub open spec fn squared_terms_spec<T: Scalar, F: Fn(&Vector<T>) -> T>(
    f: &F,
    point: Seq<T>,
    err: Seq<T>,
) -> Seq<T> {
    Seq::new(point.len(), |axis: int| squared_term_spec(slope_spec(f, point, axis), err[axis]))
}

/// The variance of `f` at `point`: the sum of the squared terms, added in
/// the order of the variables onto zero.
pub open spec fn variance_spec<T: Scalar, F: Fn(&Vector<T>) -> T>(
    f: &F,
    point: Seq<T>,
    err: Seq<T>,
) -> T {
    sum_spec(squared_terms_spec(f, point, err))
}

/// Every operation of `variance` is defined: where there are variables, the
/// step can be computed, the partial derivative and the squared term of each
/// variable can be computed, and the terms can be summed.
pub open spec fn variance_defined<T: Scalar, F: Fn(&Vector<T>) -> T>(
    f: &F,
    point: Seq<T>,
    err: Seq<T>,
) -> bool {
    point.len() > 0 ==> {
        &&& step_defined::<T>()
        &&& forall|axis: int|
            0 <= axis < point.len() ==> {
                &&& #[trigger] partial_df_defined(f, point, axis, step_spec::<T>())
                &&& squared_term_defined(slope_spec(f, point, axis), err[axis])
            }
        &&& sum_defined(squared_terms_spec(f, point, err))
    }
}

/// The absolute terms of the variables, in their order.
pub open spec fn absolute_terms_spec<T: Scalar, F: Fn(&Vector<T>) -> T>(
    f: &F,
    point: Seq<T>,
    err: Seq<T>,
) -> Seq<T> {
    Seq::new(point.len(), |axis: int| absolute_term_spec(slope_spec(f, point, axis), err[axis]))
}

/// The worst-case bound of `f` at `point`: the sum of the absolute terms,
/// added in the order of the variables onto zero.
pub open spec fn minmax_spec<T: Scalar, F: Fn(&Vector<T>) -> T>(
    f: &F,
    point: Seq<T>,
    err: Seq<T>,
) -> T {
    sum_spec(absolute_terms_spec(f, point, err))
}

/// Every operation of `minmax` is defined: where there are variables, the
/// step can be computed, the partial derivative and the absolute term of
/// each variable can be computed, and the terms can be summed.
pub open spec fn minmax_defined<T: Scalar, F: Fn(&Vector<T>) -> T>(
    f: &F,
    point: Seq<T>,
    err: Seq<T>,
) -> bool {
    point.len() > 0 ==> {
        &&& step_defined::<T>()
        &&& forall|axis: int|
            0 <= axis < point.len() ==> {
                &&& #[trigger] partial_df_defined(f, point, axis, step_spec::<T>())
                &&& absolute_term_defined(slope_spec(f, point, axis), err[axis])
            }
        &&& sum_defined(absolute_terms_spec(f, point, err))
    }
}

/// The standard uncertainty of `f` at `point`: the caller's square root
/// `sqrt` of the variance.
pub open spec fn standard_spec<T: Scalar, F: Fn(&Vector<T>) -> T, R: Fn(T) -> T>(
    f: &F,
    point: Seq<T>,
    err: Seq<T>,
    sqrt: &R,
) -> T {
    value_of(sqrt, variance_spec(f, point, err))
}

/// Every operation of `standard` is defined: the variance can be computed
/// and `sqrt` can be called on it.
pub open spec fn standard_defined<T: Scalar, F: Fn(&Vector<T>) -> T, R: Fn(T) -> T>(
    f: &F,
    point: Seq<T>,
    err: Seq<T>,
    sqrt: &R,
) -> bool {
    &&& variance_defined(f, point, err)
    &&& call_requires(sqrt, (variance_spec(f, point, err),))
}

/// The step of the central differences, computed in `T`.
fn step<T: Scalar>() -> (h: T)
    requires
        deterministic::<T>(),
        step_defined::<T>(),
    ensures
        h == step_spec::<T>(),
{
    let one: T = number(1);
    let parts: T = number(100_000);
    one / parts
}

/// Computes the variance of `f` at `point` for independent uncertainties
/// `err` of the variables: the sum over the variables of
/// `(df/dx_i * err_i)^2`.
pub fn variance<T: Scalar, F: Fn(&Vector<T>) -> T>(
    f: &F,
    point: &Vector<T>,
    err: &Vector<T>,
) -> (r: T)
    requires
        deterministic::<T>(),
        pure_on_points(f),
        point@.len() == err@.len(),
        variance_defined(f, point@, err@),
    ensures
        r == variance_spec(f, point@, err@),
        gradient_attained(f, point@, step_spec::<T>()),
{
    let arg_count = point.length();
    let mut uncertainty: T = number(0);
    if arg_count == 0 {
        return uncertainty;
    }
    let ghost terms = squared_terms_spec(f, point@, err@);
    let h: T = step();
    let mut i: usize = 0;
    while i < arg_count
        invariant
            deterministic::<T>(),
            pure_on_points(f),
            variance_defined(f, point@, err@),
            h == step_spec::<T>(),
            0 < arg_count == point@.len(),
            arg_count == err@.len(),
            i <= arg_count,
            terms == squared_terms_spec(f, point@, err@),
            uncertainty == sum_spec(terms.take(i as int)),
            forall|axis: int|
                0 <= axis < i ==> #[trigger] partial_df_attained(f, point@, axis, h),
        decreases arg_count - i,
    {
        proof {
            assert(partial_df_defined(f, point@, i as int, step_spec::<T>()));
            sum_extends(terms, i as int);
        }
        let term = partial_df(f, point, i, h) * err.get(i);
        uncertainty = uncertainty + term * term;
        i += 1;
    }
    proof {
        assert(terms.take(i as int) == terms);
    }
    uncertainty
}

/// Propagates the independent uncertainties `err` of the variables through
/// `f` at `point` by the standard rule: the square root of the sum over the
/// variables of `(df/dx_i * err_i)^2`. The square root is the caller's
/// function `sqrt`, applied once, to that sum.
pub fn standard<T: Scalar, F: Fn(&Vector<T>) -> T, R: Fn(T) -> T>(
    f: &F,
    point: &Vector<T>,
    err: &Vector<T>,
    sqrt: &R,
) -> (r: T)
    requires
        deterministic::<T>(),
        pure_on_points(f),
        pure(sqrt),
        point@.len() == err@.len(),
        standard_defined(f, point@, err@, sqrt),
    ensures
        r == standard_spec(f, point@, err@, sqrt),
        gradient_attained(f, point@, step_spec::<T>()),
        attained(sqrt, variance_spec(f, point@, err@)),
{
    evaluate(sqrt, variance(f, point, err))
}

/// Propagates the uncertainties `err` of the variables through `f` at
/// `point` by the worst-case rule: the sum over the variables of
/// `|df/dx_i| * err_i`.
pub fn minmax<T: Scalar, F: Fn(&Vector<T>) -> T>(
    f: &F,
    point: &Vector<T>,
    err: &Vector<T>,
) -> (r: T)
    requires
        deterministic::<T>(),
        pure_on_points(f),
        point@.len() == err@.len(),
        minmax_defined(f, point@, err@),
    ensures
        r == minmax_spec(f, point@, err@),
        gradient_attained(f, point@, step_spec::<T>()),
{
    let arg_count = point.length();
    let mut uncertainty: T = number(0);
    if arg_count == 0 {
        return uncertainty;
    }
    let ghost terms = absolute_terms_spec(f, point@, err@);
    let h: T = step();
    let mut i: usize = 0;
    while i < arg_count
        invariant
            deterministic::<T>(),
            pure_on_points(f),
            minmax_defined(f, point@, err@),
            h == step_spec::<T>(),
            0 < arg_count == point@.len(),
            arg_count == err@.len(),
            i <= arg_count,
            terms == absolute_terms_spec(f, point@, err@),
            uncertainty == sum_spec(terms.take(i as int)),
            forall|axis: int|
                0 <= axis < i ==> #[trigger] partial_df_attained(f, point@, axis, h),
        decreases arg_count - i,
    {
        proof {
            assert(partial_df_defined(f, point@, i as int, step_spec::<T>()));
            sum_extends(terms, i as int);
        }
        let slope = absolute(partial_df(f, point, i, h));
        uncertainty = uncertainty + slope * err.get(i);
        i += 1;
    }
    proof {
        assert(terms.take(i as int) == terms);
    }
    uncertainty
}

/// Two standard propagations of the same uncertainties through the same
/// function at the same point, with the same square root, are the same
/// value.
pub proof fn standard_repeats<T: Scalar, F: Fn(&Vector<T>) -> T, R: Fn(T) -> T>(
    f: &F,
    point: &Vector<T>,
    err: &Vector<T>,
    sqrt: &R,
    first: T,
    second: T,
)
    requires
        call_requires(standard::<T, F, R>, (f, point, err, sqrt)),
        call_ensures(standard::<T, F, R>, (f, point, err, sqrt), first),
        call_ensures(standard::<T, F, R>, (f, point, err, sqrt), second),
    ensures
        first == second,
{
}

/// Two worst-case propagations of the same uncertainties through the same
/// function at the same point are the same value.
pub proof fn minmax_repeats<T: Scalar, F: Fn(&Vector<T>) -> T>(
    f: &F,
    point: &Vector<T>,
    err: &Vector<T>,
    first: T,
    second: T,
)
    requires
        call_requires(minmax::<T, F>, (f, point, err)),
        call_ensures(minmax::<T, F>, (f, point, err), first),
        call_ensures(minmax::<T, F>, (f, point, err), second),
    ensures
        first == second,
{
}

} // verus!
