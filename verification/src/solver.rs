//! Roots of scalar functions: Newton-Raphson iteration and a secant method
//! that narrows a bracket.
//!
//! Both solvers stop when two successive abscissas lie within the fixed
//! tolerance of each other or when the iteration cap is reached, and return
//! the abscissa they hold at that moment. The result does not tell the two
//! endings apart: a caller who needs to know evaluates the function at the
//! returned point.
//!
//! Neither solver guards against a vanishing slope. With a scalar type whose
//! division by zero yields an infinity or a not-a-number, that value is
//! passed on and shows in the result.

use crate::differentiate::{df, df_attained, df_defined, df_spec};
use crate::evaluate::{attained, evaluate, pure, value_of};
use crate::scalar::{
    close, close_defined, close_spec, deterministic, less, number, number_spec, positive,
    tolerance, tolerance_defined, tolerance_spec, Scalar,
};
use vstd::prelude::*;
use vstd::std_specs::ops::{DivSpec, MulSpec, SubSpec};

verus! {

/// One Newton update: `x - value / slope`.
pub open spec fn newton_update_spec<T: Scalar>(x: T, value: T, slope: T) -> T {
    x.sub_spec(value.div_spec(slope))
}

/// Every operation of the Newton update is defined.
pub open spec fn newton_update_defined<T: Scalar>(x: T, value: T, slope: T) -> bool {
    &&& value.div_req(slope)
    &&& x.sub_req(value.div_spec(slope))
}

/// The abscissa that follows `x` in the Newton iteration on `f`, with the
/// slope estimated by a central difference whose step is the tolerance.
pub open spec fn newton_next_spec<T: Scalar, F: Fn(T) -> T>(f: &F, x: T) -> T {
    newton_update_spec(x, value_of(f, x), df_spec(f, x, tolerance_spec::<T>()))
}

/// Every operation of one Newton iteration from `x` is defined: the
/// tolerance is positive and can be computed, `f` and its slope can be
/// evaluated at `x`, the update can be made and compared with `x`.
pub open spec fn newton_step_defined<T: Scalar, F: Fn(T) -> T>(f: &F, x: T) -> bool {
    &&& tolerance_defined::<T>()
    &&& positive(tolerance_spec::<T>())
    &&& call_requires(f, (x,))
    &&& df_defined(f, x, tolerance_spec::<T>())
    &&& newton_update_defined(x, value_of(f, x), df_spec(f, x, tolerance_spec::<T>()))
    &&& close_defined(newton_next_spec(f, x), x)
}

/// The values of `f` that one Newton iteration from `x` combines were
/// attained: that at `x` and the two of the slope.
pub open spec fn newton_step_attained<T: Scalar, F: Fn(T) -> T>(f: &F, x: T) -> bool {
    &&& attained(f, x)
    &&& df_attained(f, x, tolerance_spec::<T>())
}

/// The result of at most `iterations` updates by `next` from `x`: the first
/// updated abscissa that lies within the tolerance of its predecessor, or
/// the last one computed when the updates run out.
pub open spec fn converge_spec<T: Scalar>(next: spec_fn(T) -> T, x: T, iterations: nat) -> T
    decreases iterations,
{
    if iterations == 0 {
        x
    } else if close_spec(next(x), x) {
        next(x)
    } else {
        converge_spec(next, next(x), (iterations - 1) as nat)
    }
}

/// The condition `holds` is true of every abscissa from which the search of
/// at most `iterations` updates by `next` from `x` makes an update.
pub open spec fn converge_all<T: Scalar>(
    holds: spec_fn(T) -> bool,
    next: spec_fn(T) -> T,
    x: T,
    iterations: nat,
) -> bool
    decreases iterations,
{
    iterations > 0 ==> {
        &&& holds(x)
        &&& !close_spec(next(x), x) ==> converge_all(holds, next, next(x), (iterations - 1) as nat)
    }
}

/// The search by `next` from `x` meets the tolerance within `iterations`
/// updates.
pub open spec fn converge_settles<T: Scalar>(
    next: spec_fn(T) -> T,
    x: T,
    iterations: nat,
) -> bool
    decreases iterations,
{
    iterations > 0 && (close_spec(next(x), x) || converge_settles(
        next,
        next(x),
        (iterations - 1) as nat,
    ))
}

/// The Newton update on `f`, as a function of the abscissa.
pub open spec fn newton_map<T: Scalar, F: Fn(T) -> T>(f: &F) -> spec_fn(T) -> T {
    |x: T| newton_next_spec(f, x)
}

/// The result of a Newton search on `f` of at most `iterations` updates from
/// `x`.
pub open spec fn newton_spec<T: Scalar, F: Fn(T) -> T>(f: &F, x: T, iterations: nat) -> T {
    converge_spec(newton_map(f), x, iterations)
}

/// Every operation of a Newton search on `f` of at most `iterations` updates
/// from `x` is defined.
pub open spec fn newton_defined<T: Scalar, F: Fn(T) -> T>(f: &F, x: T, iterations: nat) -> bool {
    converge_all(|y: T| newton_step_defined(f, y), newton_map(f), x, iterations)
}

/// The values of `f` that a Newton search on `f` of at most `iterations`
/// updates from `x` combines were attained.
pub open spec fn newton_attained<T: Scalar, F: Fn(T) -> T>(f: &F, x: T, iterations: nat) -> bool {
    converge_all(|y: T| newton_step_attained(f, y), newton_map(f), x, iterations)
}

/// The Newton search on `f` from `x` meets the tolerance within `iterations`
/// updates.
pub open spec fn newton_settles<T: Scalar, F: Fn(T) -> T>(f: &F, x: T, iterations: nat) -> bool {
    converge_settles(newton_map(f), x, iterations)
}

/// The secant update `x1 - (x2 - x1) / (f2 - f1) * f1`, where `f1` and `f2`
/// are the function's values at `x1` and `x2`.
pub open spec fn secant_spec<T: Scalar>(x1: T, x2: T, f1: T, f2: T) -> T {
    x1.sub_spec(x2.sub_spec(x1).div_spec(f2.sub_spec(f1)).mul_spec(f1))
}

/// Every operation of the secant update is defined.
pub open spec fn secant_defined<T: Scalar>(x1: T, x2: T, f1: T, f2: T) -> bool {
    &&& x2.sub_req(x1)
    &&& f2.sub_req(f1)
    &&& x2.sub_spec(x1).div_req(f2.sub_spec(f1))
    &&& x2.sub_spec(x1).div_spec(f2.sub_spec(f1)).mul_req(f1)
    &&& x1.sub_req(x2.sub_spec(x1).div_spec(f2.sub_spec(f1)).mul_spec(f1))
}

/// The two function values have strictly opposite signs: their product lies
/// below zero.
pub open spec fn opposite_signs_spec<T: Scalar>(fa: T, fb: T) -> bool {
    less(fa.mul_spec(fb), number_spec::<T>(0))
}

/// The pair of working abscissas after a secant step that produced `xi`:
/// `xi` replaces `x2` when the function changes sign between `xi` and `x1`,
/// and replaces `x1` otherwise.
pub open spec fn narrow_spec<T: Scalar>(x1: T, x2: T, xi: T, sign_change: bool) -> (T, T) {
    if sign_change {
        (x1, xi)
    } else {
        (xi, x2)
    }
}

/// The pair of working abscissas that follows `(x1, x2)` in the bracketing
/// iteration on `f`.
pub open spec fn brent_next_spec<T: Scalar, F: Fn(T) -> T>(f: &F, x1: T, x2: T) -> (T, T) {
    let f1 = value_of(f, x1);
    let xi = secant_spec(x1, x2, f1, value_of(f, x2));
    narrow_spec(x1, x2, xi, opposite_signs_spec(value_of(f, xi), f1))
}

/// Every operation of one bracketing step from `(x1, x2)` is defined: `f`
/// can be evaluated at both abscissas, the secant point can be computed, and
/// `f` can be evaluated there and its sign compared with that at `x1`.
pub open spec fn brent_step_defined<T: Scalar, F: Fn(T) -> T>(f: &F, x1: T, x2: T) -> bool {
    &&& call_requires(f, (x1,))
    &&& call_requires(f, (x2,))
    &&& secant_defined(x1, x2, value_of(f, x1), value_of(f, x2))
    &&& call_requires(f, (secant_spec(x1, x2, value_of(f, x1), value_of(f, x2)),))
    &&& value_of(f, secant_spec(x1, x2, value_of(f, x1), value_of(f, x2))).mul_req(
        value_of(f, x1),
    )
}

/// Every operation that the bracketing search performs on the pair
/// `(x1, x2)` is defined: the two can be compared and, unless they lie within
/// the tolerance, the step from them can be made.
pub open spec fn brent_pair_defined<T: Scalar, F: Fn(T) -> T>(f: &F, x1: T, x2: T) -> bool {
    &&& close_defined(x1, x2)
    &&& !close_spec(x1, x2) ==> brent_step_defined(f, x1, x2)
}

/// The values of `f` that the bracketing search combines at the pair
/// `(x1, x2)` were attained: unless the two lie within the tolerance, those
/// at `x1`, at `x2` and at the secant point.
pub open spec fn brent_pair_attained<T: Scalar, F: Fn(T) -> T>(f: &F, x1: T, x2: T) -> bool {
    !close_spec(x1, x2) ==> {
        &&& attained(f, x1)
        &&& attained(f, x2)
        &&& attained(f, secant_spec(x1, x2, value_of(f, x1), value_of(f, x2)))
    }
}

/// The result of at most `iterations` steps by `next` from the pair
/// `(x1, x2)`: the first abscissa of the first pair whose members lie within
/// the tolerance of each other, or of the last pair when the steps run out.
pub open spec fn bracket_spec<T: Scalar>(
    next: spec_fn(T, T) -> (T, T),
    x1: T,
    x2: T,
    iterations: nat,
) -> T
    decreases iterations,
{
    if iterations == 0 || close_spec(x1, x2) {
        x1
    } else {
        bracket_spec(next, next(x1, x2).0, next(x1, x2).1, (iterations - 1) as nat)
    }
}

/// The condition `holds` is true of every pair that the search of at most
/// `iterations` steps by `next` from `(x1, x2)` reaches while steps are
/// left.
pub open spec fn bracket_all<T: Scalar>(
    holds: spec_fn(T, T) -> bool,
    next: spec_fn(T, T) -> (T, T),
    x1: T,
    x2: T,
    iterations: nat,
) -> bool
    decreases iterations,
{
    iterations > 0 ==> {
        &&& holds(x1, x2)
        &&& !close_spec(x1, x2) ==> bracket_all(
            holds,
            next,
            next(x1, x2).0,
            next(x1, x2).1,
            (iterations - 1) as nat,
        )
    }
}

/// The search by `next` from `(x1, x2)` reaches a pair within the tolerance
/// in at most `iterations` steps.
pub open spec fn bracket_settles<T: Scalar>(
    next: spec_fn(T, T) -> (T, T),
    x1: T,
    x2: T,
    iterations: nat,
) -> bool
    decreases iterations,
{
    close_spec(x1, x2) || (iterations > 0 && bracket_settles(
        next,
        next(x1, x2).0,
        next(x1, x2).1,
        (iterations - 1) as nat,
    ))
}

/// The bracketing step on `f`, as a function of the pair of abscissas.
pub open spec fn brent_map<T: Scalar, F: Fn(T) -> T>(f: &F) -> spec_fn(T, T) -> (T, T) {
    |x1: T, x2: T| brent_next_spec(f, x1, x2)
}

/// The result of a bracketing search on `f` of at most `iterations` steps
/// from `(x1, x2)`.
pub open spec fn brent_spec<T: Scalar, F: Fn(T) -> T>(f: &F, x1: T, x2: T, iterations: nat) -> T {
    bracket_spec(brent_map(f), x1, x2, iterations)
}

/// Every operation of a bracketing search on `f` of at most `iterations`
/// steps from `(x1, x2)` is defined.
pub open spec fn brent_defined<T: Scalar, F: Fn(T) -> T>(
    f: &F,
    x1: T,
    x2: T,
    iterations: nat,
) -> bool {
    bracket_all(|a: T, b: T| brent_pair_defined(f, a, b), brent_map(f), x1, x2, iterations)
}

/// The values of `f` that a bracketing search on `f` of at most `iterations`
/// steps from `(x1, x2)` combines were attained.
pub open spec fn brent_attained<T: Scalar, F: Fn(T) -> T>(
    f: &F,
    x1: T,
    x2: T,
    iterations: nat,
) -> bool {
    bracket_all(|a: T, b: T| brent_pair_attained(f, a, b), brent_map(f), x1, x2, iterations)
}

/// The bracketing search on `f` from `(x1, x2)` reaches a pair within the
/// tolerance in at most `iterations` steps.
pub open spec fn brent_settles<T: Scalar, F: Fn(T) -> T>(
    f: &F,
    x1: T,
    x2: T,
    iterations: nat,
) -> bool {
    bracket_settles(brent_map(f), x1, x2, iterations)
}

/// Moves `x` by one Newton update, given the function's value and slope at
/// `x`.
pub fn newton_update<T: Scalar>(x: T, value: T, slope: T) -> (next: T)
    requires
        deterministic::<T>(),
        newton_update_defined(x, value, slope),
    ensures
        next == newton_update_spec(x, value, slope),
{
    x - value / slope
}

/// Computes the secant update from the abscissas `x1`, `x2` and the
/// function's values `f1`, `f2` at them.
pub fn secant<T: Scalar>(x1: T, x2: T, f1: T, f2: T) -> (xi: T)
    requires
        deterministic::<T>(),
        secant_defined(x1, x2, f1, f2),
    ensures
        xi == secant_spec(x1, x2, f1, f2),
{
    x1 - (x2 - x1) / (f2 - f1) * f1
}

/// Tells whether two function values have strictly opposite signs.
pub fn opposite_signs<T: Scalar>(fa: T, fb: T) -> (r: bool)
    requires
        deterministic::<T>(),
        fa.mul_req(fb),
    ensures
        r == opposite_signs_spec(fa, fb),
{
    let zero: T = number(0);
    fa * fb < zero
}

/// Replaces one of the working abscissas by the secant point `xi`: the
/// second when the function changes sign between `xi` and `x1`, the first
/// otherwise.
pub fn narrow<T: Scalar>(x1: T, x2: T, xi: T, sign_change: bool) -> (pair: (T, T))
    ensures
        pair == narrow_spec(x1, x2, xi, sign_change),
{
    if sign_change {
        (x1, xi)
    } else {
        (xi, x2)
    }
}

/// Searches a root of `f` by Newton-Raphson iteration from the guess `x0`.
///
/// Each iteration evaluates `f` at the current abscissa, estimates the slope
/// there by a central difference with the tolerance as step, and moves to
/// `x - f(x) / slope`. The search ends with the first update that moves the
/// abscissa by no more than the tolerance, or after `max_iterations` updates,
/// and returns the abscissa computed last. With `max_iterations == 0` that is
/// `x0` itself.
///
/// Reaching the cap is not an error, and the result is then no root in
/// general.
pub fn newton<T: Scalar, F: Fn(T) -> T>(f: &F, x0: T, max_iterations: usize) -> (root: T)
    requires
        deterministic::<T>(),
        pure(f),
        newton_defined(f, x0, max_iterations as nat),
    ensures
        root == newton_spec(f, x0, max_iterations as nat),
        newton_attained(f, x0, max_iterations as nat),
{
    if max_iterations == 0 {
        return x0;
    }
    let step: T = tolerance();
    let mut x = x0;
    let mut remaining = max_iterations;
    while remaining > 0
        invariant
            deterministic::<T>(),
            pure(f),
            step == tolerance_spec::<T>(),
            newton_defined(f, x, remaining as nat),
            newton_spec(f, x, remaining as nat) == newton_spec(f, x0, max_iterations as nat),
            newton_attained(f, x, remaining as nat) ==> newton_attained(
                f,
                x0,
                max_iterations as nat,
            ),
        decreases remaining,
    {
        let value = evaluate(f, x);
        let slope = df(f, x, step);
        let next = newton_update(x, value, slope);
        if close(next, x) {
            return next;
        }
        x = next;
        remaining -= 1;
    }
    x
}

/// Searches a root of `f` between the abscissas `a` and `b` by secant steps
/// that narrow the pair.
///
/// The solver keeps two abscissas, at first `a` and `b`. Each iteration ends
/// the search if the two lie within the tolerance of each other; otherwise it
/// computes the secant point through them and puts it in the place of the
/// second abscissa when `f` changes sign between the secant point and the
/// first, and in the place of the first otherwise. After `max_iterations`
/// steps the search ends as well. The result is the first abscissa.
///
/// The function need not change sign between `a` and `b`. Without a sign
/// change the secant points may leave the interval, and the result is then
/// no root in general.
pub fn brent<T: Scalar, F: Fn(T) -> T>(f: &F, a: T, b: T, max_iterations: usize) -> (root: T)
    requires
        deterministic::<T>(),
        pure(f),
        brent_defined(f, a, b, max_iterations as nat),
    ensures
        root == brent_spec(f, a, b, max_iterations as nat),
        brent_attained(f, a, b, max_iterations as nat),
{
    let mut x1 = a;
    let mut x2 = b;
    let mut remaining = max_iterations;
    while remaining > 0
        invariant
            deterministic::<T>(),
            pure(f),
            brent_defined(f, x1, x2, remaining as nat),
            brent_spec(f, x1, x2, remaining as nat) == brent_spec(f, a, b, max_iterations as nat),
            brent_attained(f, x1, x2, remaining as nat) ==> brent_attained(
                f,
                a,
                b,
                max_iterations as nat,
            ),
        decreases remaining,
    {
        if close(x1, x2) {
            return x1;
        }
        let f1 = evaluate(f, x1);
        let f2 = evaluate(f, x2);
        let xi = secant(x1, x2, f1, f2);
        let sign_change = opposite_signs(evaluate(f, xi), f1);
        let pair = narrow(x1, x2, xi, sign_change);
        x1 = pair.0;
        x2 = pair.1;
        remaining -= 1;
    }
    x1
}

/// A search that has met the tolerance is over: with a higher cap it ends at
/// the same abscissa.
pub proof fn converged_is_final<T: Scalar>(next: spec_fn(T) -> T, x: T, iterations: nat, more: nat)
    requires
        converge_settles(next, x, iterations),
        iterations <= more,
    ensures
        converge_spec(next, x, more) == converge_spec(next, x, iterations),
    decreases iterations,
{
    if !close_spec(next(x), x) {
        converged_is_final(next, next(x), (iterations - 1) as nat, (more - 1) as nat);
    }
}

/// A bracketing search that has reached a pair within the tolerance is over:
/// with a higher cap it ends at the same abscissa.
pub proof fn bracketed_is_final<T: Scalar>(
    next: spec_fn(T, T) -> (T, T),
    x1: T,
    x2: T,
    iterations: nat,
    more: nat,
)
    requires
        bracket_settles(next, x1, x2, iterations),
        iterations <= more,
    ensures
        bracket_spec(next, x1, x2, more) == bracket_spec(next, x1, x2, iterations),
    decreases iterations,
{
    if !close_spec(x1, x2) {
        bracketed_is_final(
            next,
            next(x1, x2).0,
            next(x1, x2).1,
            (iterations - 1) as nat,
            (more - 1) as nat,
        );
    }
}

/// A Newton search that has met the tolerance is over: with a higher cap it
/// ends at the same abscissa.
pub proof fn newton_settled_is_final<T: Scalar, F: Fn(T) -> T>(
    f: &F,
    x: T,
    iterations: nat,
    more: nat,
)
    requires
        newton_settles(f, x, iterations),
        iterations <= more,
    ensures
        newton_spec(f, x, more) == newton_spec(f, x, iterations),
{
    converged_is_final(newton_map(f), x, iterations, more);
}

/// A bracketing search on `f` that has reached a pair within the tolerance
/// is over: with a higher cap it ends at the same abscissa.
pub proof fn brent_settled_is_final<T: Scalar, F: Fn(T) -> T>(
    f: &F,
    x1: T,
    x2: T,
    iterations: nat,
    more: nat,
)
    requires
        brent_settles(f, x1, x2, iterations),
        iterations <= more,
    ensures
        brent_spec(f, x1, x2, more) == brent_spec(f, x1, x2, iterations),
{
    bracketed_is_final(brent_map(f), x1, x2, iterations, more);
}

/// Two Newton searches on the same function, from the same guess and with
/// the same cap, end at the same abscissa.
pub proof fn newton_repeats<T: Scalar, F: Fn(T) -> T>(
    f: &F,
    x0: T,
    max_iterations: usize,
    first: T,
    second: T,
)
    requires
        call_requires(newton::<T, F>, (f, x0, max_iterations)),
        call_ensures(newton::<T, F>, (f, x0, max_iterations), first),
        call_ensures(newton::<T, F>, (f, x0, max_iterations), second),
    ensures
        first == second,
{
}

/// Two bracketing searches on the same function, from the same pair of
/// abscissas and with the same cap, end at the same abscissa.
pub proof fn brent_repeats<T: Scalar, F: Fn(T) -> T>(
    f: &F,
    a: T,
    b: T,
    max_iterations: usize,
    first: T,
    second: T,
)
    requires
        call_requires(brent::<T, F>, (f, a, b, max_iterations)),
        call_ensures(brent::<T, F>, (f, a, b, max_iterations), first),
        call_ensures(brent::<T, F>, (f, a, b, max_iterations), second),
    ensures
        first == second,
{
}

} // verus!
