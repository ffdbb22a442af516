//! Derivatives of black-box functions by central finite differences.

use crate::evaluate::{
    accepts_at, attained, attained_at, evaluate, evaluate_at, pure, pure_on_points, value_at,
    value_of,
};
use crate::scalar::{deterministic, number, number_spec, positive, Scalar};
use crate::vector::{sum_defined, sum_spec, Vector};
use vstd::prelude::*;
use vstd::std_specs::ops::{AddSpec, DivSpec, MulSpec, SubSpec};

verus! {

/// The central first difference `(above - below) / (2 h)` of two samples
/// taken a step `h` to either side of a point.
pub open spec fn central_difference_spec<T: Scalar>(above: T, below: T, h: T) -> T {
    above.sub_spec(below).div_spec(number_spec::<T>(2).mul_spec(h))
}

/// Every operation of the central first difference is defined.
pub open spec fn central_difference_defined<T: Scalar>(above: T, below: T, h: T) -> bool {
    &&& above.sub_req(below)
    &&& number_spec::<T>(2).mul_req(h)
    &&& above.sub_spec(below).div_req(number_spec::<T>(2).mul_spec(h))
}

/// The central second difference `(above - 2 centre + below) / h^2` of three
/// samples taken at a point and a step `h` to either side of it.
pub open spec fn second_difference_spec<T: Scalar>(above: T, centre: T, below: T, h: T) -> T {
    above.sub_spec(number_spec::<T>(2).mul_spec(centre)).add_spec(below).div_spec(h.mul_spec(h))
}

/// Every operation of the central second difference is defined.
pub open spec fn second_difference_defined<T: Scalar>(above: T, centre: T, below: T, h: T) -> bool {
    &&& number_spec::<T>(2).mul_req(centre)
    &&& above.sub_req(number_spec::<T>(2).mul_spec(centre))
    &&& above.sub_spec(number_spec::<T>(2).mul_spec(centre)).add_req(below)
    &&& h.mul_req(h)
    &&& above.sub_spec(number_spec::<T>(2).mul_spec(centre)).add_spec(below).div_req(
        h.mul_spec(h),
    )
}

/// The central-difference estimate of the derivative of `f` at `x`:
/// `(f(x + h) - f(x - h)) / (2 h)`.
pub open spec fn df_spec<T: Scalar, F: Fn(T) -> T>(f: &F, x: T, h: T) -> T {
    central_difference_spec(value_of(f, x.add_spec(h)), value_of(f, x.sub_spec(h)), h)
}

/// Every operation of `df` is defined: the two abscissas can be computed,
/// `f` can be called on them, and the samples can be combined.
pub open spec fn df_defined<T: Scalar, F: Fn(T) -> T>(f: &F, x: T, h: T) -> bool {
    &&& x.add_req(h)
    &&& x.sub_req(h)
    &&& call_requires(f, (x.add_spec(h),))
    &&& call_requires(f, (x.sub_spec(h),))
    &&& central_difference_defined(value_of(f, x.add_spec(h)), value_of(f, x.sub_spec(h)), h)
}

/// The two values of `f` that `df` combines were attained.
pub open spec fn df_attained<T: Scalar, F: Fn(T) -> T>(f: &F, x: T, h: T) -> bool {
    &&& attained(f, x.add_spec(h))
    &&& attained(f, x.sub_spec(h))
}

/// The central-difference estimate of the second derivative of `f` at `x`:
/// `(f(x + h) - 2 f(x) + f(x - h)) / h^2`.
pub open spec fn d2f_spec<T: Scalar, F: Fn(T) -> T>(f: &F, x: T, h: T) -> T {
    second_difference_spec(
        value_of(f, x.add_spec(h)),
        value_of(f, x),
        value_of(f, x.sub_spec(h)),
        h,
    )
}

/// Every operation of `d2f` is defined: the two outer abscissas can be
/// computed, `f` can be called on all three, and the samples can be combined.
pub open spec fn d2f_defined<T: Scalar, F: Fn(T) -> T>(f: &F, x: T, h: T) -> bool {
    &&& x.add_req(h)
    &&& x.sub_req(h)
    &&& call_requires(f, (x.add_spec(h),))
    &&& call_requires(f, (x,))
    &&& call_requires(f, (x.sub_spec(h),))
    &&& second_difference_defined(
        value_of(f, x.add_spec(h)),
        value_of(f, x),
        value_of(f, x.sub_spec(h)),
        h,
    )
}

/// The three values of `f` that `d2f` combines were attained.
pub open spec fn d2f_attained<T: Scalar, F: Fn(T) -> T>(f: &F, x: T, h: T) -> bool {
    &&& attained(f, x.add_spec(h))
    &&& attained(f, x)
    &&& attained(f, x.sub_spec(h))
}

/// The central-difference estimate of the partial derivative of `f` along
/// the coordinate `axis` at `point`. The two samples are taken at points that
/// differ from `point` in that coordinate alone, by `+h` and by `-h`.
pub open spec fn partial_df_spec<T: Scalar, F: Fn(&Vector<T>) -> T>(
    f: &F,
    point: Seq<T>,
    axis: int,
    h: T,
) -> T {
    central_difference_spec(
        value_at(f, point.update(axis, point[axis].add_spec(h))),
        value_at(f, point.update(axis, point[axis].sub_spec(h))),
        h,
    )
}

/// Every operation of `partial_df` is defined: the coordinate can be moved
/// both ways, `f` can be called on the two moved points, and the samples can
/// be combined.
pub open spec fn partial_df_defined<T: Scalar, F: Fn(&Vector<T>) -> T>(
    f: &F,
    point: Seq<T>,
    axis: int,
    h: T,
) -> bool {
    &&& point[axis].add_req(h)
    &&& point[axis].sub_req(h)
    &&& accepts_at(f, point.update(axis, point[axis].add_spec(h)))
    &&& accepts_at(f, point.update(axis, point[axis].sub_spec(h)))
    &&& central_difference_defined(
        value_at(f, point.update(axis, point[axis].add_spec(h))),
        value_at(f, point.update(axis, point[axis].sub_spec(h))),
        h,
    )
}

/// The two values of `f` that `partial_df` combines were attained.
pub open spec fn partial_df_attained<T: Scalar, F: Fn(&Vector<T>) -> T>(
    f: &F,
    point: Seq<T>,
    axis: int,
    h: T,
) -> bool {
    &&& attained_at(f, point.update(axis, point[axis].add_spec(h)))
    &&& attained_at(f, point.update(axis, point[axis].sub_spec(h)))
}

/// The estimated gradient of `f` at `point`: one partial derivative for each
/// coordinate, in the order of the coordinates.
pub open spec fn gradient_spec<T: Scalar, F: Fn(&Vector<T>) -> T>(
    f: &F,
    point: Seq<T>,
    h: T,
) -> Seq<T> {
    Seq::new(point.len(), |axis: int| partial_df_spec(f, point, axis, h))
}

/// The partial derivative along every coordinate of `point` is defined.
pub open spec fn gradient_defined<T: Scalar, F: Fn(&Vector<T>) -> T>(
    f: &F,
    point: Seq<T>,
    h: T,
) -> bool {
    forall|axis: int| 0 <= axis < point.len() ==> #[trigger] partial_df_defined(f, point, axis, h)
}

/// The values of `f` that the partial derivative along every coordinate of
/// `point` combines were attained.
pub open spec fn gradient_attained<T: Scalar, F: Fn(&Vector<T>) -> T>(
    f: &F,
    point: Seq<T>,
    h: T,
) -> bool {
    forall|axis: int|
        0 <= axis < point.len() ==> #[trigger] partial_df_attained(f, point, axis, h)
}

/// The gradient at `point` is defined, and so is the sum of its components.
pub open spec fn divergence_defined<T: Scalar, F: Fn(&Vector<T>) -> T>(
    f: &F,
    point: Seq<T>,
    h: T,
) -> bool {
    &&& gradient_defined(f, point, h)
    &&& sum_defined(gradient_spec(f, point, h))
}

/// The sum of the components of the estimated gradient of `f` at `point`.
pub open spec fn divergence_spec<T: Scalar, F: Fn(&Vector<T>) -> T>(
    f: &F,
    point: Seq<T>,
    h: T,
) -> T {
    sum_spec(gradient_spec(f, point, h))
}

/// Combines the samples `above = f(x + h)` and `below = f(x - h)` into the
/// central first difference.
pub fn central_difference<T: Scalar>(above: T, below: T, h: T) -> (r: T)
    requires
        deterministic::<T>(),
        central_difference_defined(above, below, h),
    ensures
        r == central_difference_spec(above, below, h),
{
    let two: T = number(2);
    (above - below) / (two * h)
}

/// Combines the samples `above = f(x + h)`, `centre = f(x)` and
/// `below = f(x - h)` into the central second difference.
pub fn second_difference<T: Scalar>(above: T, centre: T, below: T, h: T) -> (r: T)
    requires
        deterministic::<T>(),
        second_difference_defined(above, centre, below, h),
    ensures
        r == second_difference_spec(above, centre, below, h),
{
    let two: T = number(2);
    (above - two * centre + below) / (h * h)
}

/// Estimates the derivative of `f` at `x` with step `h`. It evaluates `f`
/// twice, at `x + h` and at `x - h`.
///
/// The error of the estimate falls with the square of `h` until rounding in
/// the difference of the two samples takes over; for double precision a step
/// between `1e-8` and `1e-4` balances the two.
pub fn df<T: Scalar, F: Fn(T) -> T>(f: &F, x: T, h: T) -> (r: T)
    requires
        deterministic::<T>(),
        pure(f),
        positive(h),
        df_defined(f, x, h),
    ensures
        r == df_spec(f, x, h),
        df_attained(f, x, h),
{
    let above = evaluate(f, x + h);
    let below = evaluate(f, x - h);
    central_difference(above, below, h)
}

/// Estimates the second derivative of `f` at `x` with step `h`. It evaluates
/// `f` three times, at `x + h`, at `x` and at `x - h`.
///
/// The estimate divides by `h^2`, so noise in the samples grows with the
/// inverse square of the step: a very small `h` gives a poor result.
pub fn d2f<T: Scalar, F: Fn(T) -> T>(f: &F, x: T, h: T) -> (r: T)
    requires
        deterministic::<T>(),
        pure(f),
        positive(h),
        d2f_defined(f, x, h),
    ensures
        r == d2f_spec(f, x, h),
        d2f_attained(f, x, h),
{
    let above = evaluate(f, x + h);
    let centre = evaluate(f, x);
    let below = evaluate(f, x - h);
    second_difference(above, centre, below, h)
}

/// Estimates the partial derivative of `f` along the coordinate `axis` at
/// the point `x`, with step `h`.
///
/// The function is evaluated twice, on two new points that differ from `x`
/// in the coordinate `axis` alone. The point `x` itself is only read.
pub fn partial_df<T: Scalar, F: Fn(&Vector<T>) -> T>(
    f: &F,
    x: &Vector<T>,
    axis: usize,
    h: T,
) -> (r: T)
    requires
        deterministic::<T>(),
        pure_on_points(f),
        axis < x@.len(),
        positive(h),
        partial_df_defined(f, x@, axis as int, h),
    ensures
        r == partial_df_spec(f, x@, axis as int, h),
        partial_df_attained(f, x@, axis as int, h),
{
    let mut xplus = x.copy();
    xplus.set(axis, xplus.get(axis) + h);
    let mut xminus = x.copy();
    xminus.set(axis, xminus.get(axis) - h);
    let above = evaluate_at(f, &xplus);
    let below = evaluate_at(f, &xminus);
    central_difference(above, below, h)
}

/// Estimates the gradient of `f` at the point `x`, with step `h` for every
/// coordinate. The result has the length of `x`; computing it evaluates `f`
/// twice for each coordinate.
pub fn gradient<T: Scalar, F: Fn(&Vector<T>) -> T>(f: &F, x: &Vector<T>, h: T) -> (grad: Vector<T>)
    requires
        deterministic::<T>(),
        pure_on_points(f),
        positive(h),
        gradient_defined(f, x@, h),
    ensures
        grad@ == gradient_spec(f, x@, h),
        gradient_attained(f, x@, h),
{
    let arg_count = x.length();
    let mut grad: Vector<T> = Vector::zeros(arg_count);
    let mut i: usize = 0;
    while i < arg_count
        invariant
            deterministic::<T>(),
            pure_on_points(f),
            positive(h),
            gradient_defined(f, x@, h),
            arg_count == x@.len(),
            grad@.len() == arg_count,
            i <= arg_count,
            forall|axis: int| 0 <= axis < i ==> grad@[axis] == partial_df_spec(f, x@, axis, h),
            forall|axis: int| 0 <= axis < i ==> #[trigger] partial_df_attained(f, x@, axis, h),
        decreases arg_count - i,
    {
        grad.set(i, partial_df(f, x, i, h));
        i += 1;
    }
    assert(grad@ =~= gradient_spec(f, x@, h));
    grad
}

/// Adds up the components of the estimated gradient of `f` at `x`.
///
/// For a function with a single scalar value this sum is not the divergence
/// of vector calculus, which is defined for a field with as many components
/// as coordinates. The name is kept for the quantity that it has always
/// denoted here.
pub fn divergence<T: Scalar, F: Fn(&Vector<T>) -> T>(f: &F, x: &Vector<T>, h: T) -> (r: T)
    requires
        deterministic::<T>(),
        pure_on_points(f),
        positive(h),
        divergence_defined(f, x@, h),
    ensures
        r == divergence_spec(f, x@, h),
        gradient_attained(f, x@, h),
{
    let grad = gradient(f, x, h);
    grad.sum()
}

/// Two estimates of a derivative from the same function, point and step are
/// the same value: `df` keeps no state between calls.
pub proof fn df_repeats<T: Scalar, F: Fn(T) -> T>(f: &F, x: T, h: T, first: T, second: T)
    requires
        call_requires(df::<T, F>, (f, x, h)),
        call_ensures(df::<T, F>, (f, x, h), first),
        call_ensures(df::<T, F>, (f, x, h), second),
    ensures
        first == second,
{
}

/// Two estimates of a second derivative from the same function, point and
/// step are the same value.
pub proof fn d2f_repeats<T: Scalar, F: Fn(T) -> T>(f: &F, x: T, h: T, first: T, second: T)
    requires
        call_requires(d2f::<T, F>, (f, x, h)),
        call_ensures(d2f::<T, F>, (f, x, h), first),
        call_ensures(d2f::<T, F>, (f, x, h), second),
    ensures
        first == second,
{
}

/// Two estimates of a partial derivative from the same function, point, axis
/// and step are the same value.
pub proof fn partial_df_repeats<T: Scalar, F: Fn(&Vector<T>) -> T>(
    f: &F,
    x: &Vector<T>,
    axis: usize,
    h: T,
    first: T,
    second: T,
)
    requires
        call_requires(partial_df::<T, F>, (f, x, axis, h)),
        call_ensures(partial_df::<T, F>, (f, x, axis, h), first),
        call_ensures(partial_df::<T, F>, (f, x, axis, h), second),
    ensures
        first == second,
{
}

/// Two gradients estimated from the same function, point and step have the
/// same components.
pub proof fn gradient_repeats<T: Scalar, F: Fn(&Vector<T>) -> T>(
    f: &F,
    x: &Vector<T>,
    h: T,
    first: Vector<T>,
    second: Vector<T>,
)
    requires
        call_requires(gradient::<T, F>, (f, x, h)),
        call_ensures(gradient::<T, F>, (f, x, h), first),
        call_ensures(gradient::<T, F>, (f, x, h), second),
    ensures
        first@ == second@,
{
}

/// Two sums of the gradient estimated from the same function, point and
/// step are the same value.
pub proof fn divergence_repeats<T: Scalar, F: Fn(&Vector<T>) -> T>(
    f: &F,
    x: &Vector<T>,
    h: T,
    first: T,
    second: T,
)
    requires
        call_requires(divergence::<T, F>, (f, x, h)),
        call_ensures(divergence::<T, F>, (f, x, h), first),
        call_ensures(divergence::<T, F>, (f, x, h), second),
    ensures
        first == second,
{
}

/// The square of `x` as a 64-bit integer.
pub open spec fn square_spec(x: int) -> i64 {
    (x * x) as i64
}

/// The cube of `x` as a 64-bit integer.
pub open spec fn cube_spec(x: int) -> i64 {
    (x * x * x) as i64
}

/// In exact arithmetic the central first difference of the squares is the
/// derivative `2 x` itself, whatever the step: the estimate has no
/// truncation error on a quadratic. Stated for 64-bit integers that are
/// small enough for no operation to overflow.
pub proof fn central_difference_of_squares(x: i64, h: i64)
    requires
        -1_000_000 <= x <= 1_000_000,
        0 < h <= 1_000_000,
    ensures
        central_difference_defined(square_spec(x + h), square_spec(x - h), h),
        central_difference_spec(square_spec(x + h), square_spec(x - h), h) == 2 * x,
{
    let above = (x + h) * (x + h);
    let below = (x - h) * (x - h);
    assert(0 <= above <= 4_000_000_000_000 && 0 <= below <= 4_000_000_000_000) by (nonlinear_arith)
        requires
            -1_000_000 <= x <= 1_000_000,
            0 < h <= 1_000_000,
            above == (x + h) * (x + h),
            below == (x - h) * (x - h),
    ;
    assert(above - below == (2 * x) * (2 * h)) by (nonlinear_arith)
        requires
            above == (x + h) * (x + h),
            below == (x - h) * (x - h),
    ;
    lemma_exact_quotient(2 * x, 2 * h);
}

/// In exact arithmetic the central first difference of the cubes exceeds
/// the derivative `3 x^2` by `h^2` exactly: the error of the estimate falls
/// to a quarter when the step is halved. Stated for 64-bit integers that are
/// small enough for no operation to overflow.
pub proof fn central_difference_of_cubes(x: i64, h: i64)
    requires
        -100_000 <= x <= 100_000,
        0 < h <= 100_000,
    ensures
        central_difference_defined(cube_spec(x + h), cube_spec(x - h), h),
        central_difference_spec(cube_spec(x + h), cube_spec(x - h), h) == 3 * x * x + h * h,
{
    let above = (x + h) * (x + h) * (x + h);
    let below = (x - h) * (x - h) * (x - h);
    let slope = 3 * x * x + h * h;
    assert(-8_000_000_000_000_000 <= above <= 8_000_000_000_000_000
        && -8_000_000_000_000_000 <= below <= 8_000_000_000_000_000) by (nonlinear_arith)
        requires
            -100_000 <= x <= 100_000,
            0 < h <= 100_000,
            above == (x + h) * (x + h) * (x + h),
            below == (x - h) * (x - h) * (x - h),
    ;
    assert(above - below == slope * (2 * h)) by (nonlinear_arith)
        requires
            above == (x + h) * (x + h) * (x + h),
            below == (x - h) * (x - h) * (x - h),
            slope == 3 * x * x + h * h,
    ;
    assert(0 <= slope <= 40_000_000_000) by (nonlinear_arith)
        requires
            -100_000 <= x <= 100_000,
            0 < h <= 100_000,
            slope == 3 * x * x + h * h,
    ;
    lemma_exact_quotient(slope, 2 * h);
}

/// In exact arithmetic the central second difference of the squares is 2,
/// whatever the point and the step: the estimate has no truncation error on
/// a quadratic. Stated for 64-bit integers that are small enough for no
/// operation to overflow.
pub proof fn second_difference_of_squares(x: i64, h: i64)
    requires
        -1_000_000 <= x <= 1_000_000,
        0 < h <= 1_000_000,
    ensures
        second_difference_defined(square_spec(x + h), square_spec(x as int), square_spec(x - h), h),
        second_difference_spec(square_spec(x + h), square_spec(x as int), square_spec(x - h), h) == 2,
{
    let above = (x + h) * (x + h);
    let centre = x * x;
    let below = (x - h) * (x - h);
    assert(0 <= above <= 4_000_000_000_000 && 0 <= below <= 4_000_000_000_000 && 0 <= centre
        <= 1_000_000_000_000 && 0 < h * h <= 1_000_000_000_000) by (nonlinear_arith)
        requires
            -1_000_000 <= x <= 1_000_000,
            0 < h <= 1_000_000,
            above == (x + h) * (x + h),
            centre == x * x,
            below == (x - h) * (x - h),
    ;
    assert(above - 2 * centre + below == 2 * (h * h)) by (nonlinear_arith)
        requires
            above == (x + h) * (x + h),
            centre == x * x,
            below == (x - h) * (x - h),
    ;
    lemma_exact_quotient(2, h * h);
}

/// `x` raised to the power `k`.
pub open spec fn power_spec(x: int, k: nat) -> int
    decreases k,
{
    if k == 0 {
        1
    } else {
        x * power_spec(x, (k - 1) as nat)
    }
}

/// The derivative of the power `k` at `x`: `k x^(k-1)`, and zero for the
/// constant power.
pub open spec fn power_slope_spec(x: int, k: nat) -> int {
    if k == 0 {
        0
    } else {
        k * power_spec(x, (k - 1) as nat)
    }
}

/// What the step `h` adds to the power `k` around `x`, as the pair `(a, b)`
/// of the expansion
/// `(x + h)^k = x^k + h^2 a + h (k x^(k-1) + h^2 b)`, in which the sign
/// of `h` may be turned. Both vanish up to the first power, and `b` up to
/// the second.
pub open spec fn truncation_spec(x: int, h: int, k: nat) -> (int, int)
    decreases k,
{
    if k == 0 {
        (0, 0)
    } else {
        let before = truncation_spec(x, h, (k - 1) as nat);
        (
            x * before.0 + power_slope_spec(x, (k - 1) as nat) + h * h * before.1,
            x * before.1 + before.0,
        )
    }
}

/// The expansion of a power of `x + h` and of `x - h` around `x`.
proof fn lemma_power_expansion(x: int, h: int, k: nat)
    ensures
        power_spec(x + h, k) == power_spec(x, k) + h * h * truncation_spec(x, h, k).0 + h * (
        power_slope_spec(x, k) + h * h * truncation_spec(x, h, k).1),
        power_spec(x - h, k) == power_spec(x, k) + h * h * truncation_spec(x, h, k).0 - h * (
        power_slope_spec(x, k) + h * h * truncation_spec(x, h, k).1),
    decreases k,
{
    if k > 0 {
        let j = (k - 1) as nat;
        lemma_power_expansion(x, h, j);
        let p = power_spec(x, j);
        let a = truncation_spec(x, h, j).0;
        let b = truncation_spec(x, h, j).1;
        let d = power_slope_spec(x, j);
        let up = power_spec(x + h, j);
        let down = power_spec(x - h, j);
        assert(up == p + h * h * a + h * (d + h * h * b));
        assert(down == p + h * h * a - h * (d + h * h * b));
        let a1 = truncation_spec(x, h, k).0;
        let b1 = truncation_spec(x, h, k).1;
        let d1 = power_slope_spec(x, k);
        assert(a1 == x * a + d + h * h * b);
        assert(b1 == x * b + a);
        assert(x * d + p == d1) by {
            if j > 0 {
                let q = power_spec(x, (j - 1) as nat);
                assert(p == x * q);
                assert(d == j * q);
                assert(d1 == k * p);
                assert(x * (j * q) + x * q == (j + 1) * (x * q)) by (nonlinear_arith);
            }
        }
        let hh = h * h;
        let c = p + hh * a;
        let e = d + hh * b;
        assert(x * c + hh * e == x * p + hh * a1) by (nonlinear_arith)
            requires
                c == p + hh * a,
                a1 == x * a + e,
        ;
        assert(x * e + c == d1 + hh * b1) by (nonlinear_arith)
            requires
                c == p + hh * a,
                e == d + hh * b,
                b1 == x * b + a,
                x * d + p == d1,
        ;
        assert((x + h) * up == (x * c + hh * e) + h * (x * e + c)) by (nonlinear_arith)
            requires
                up == c + h * e,
                hh == h * h,
        ;
        assert((x - h) * down == (x * c + hh * e) - h * (x * e + c)) by (nonlinear_arith)
            requires
                down == c - h * e,
                hh == h * h,
        ;
        assert(power_spec(x + h, k) == (x + h) * up);
        assert(power_spec(x - h, k) == (x - h) * down);
        assert(power_spec(x, k) == x * p);
    } else {
        assert(h * h * 0 == 0) by (nonlinear_arith);
        assert(h * 0 == 0) by (nonlinear_arith);
    }
}

/// Up to the second power the central first difference has no truncation
/// error.
proof fn lemma_truncation_vanishes(x: int, h: int)
    ensures
        truncation_spec(x, h, 1).1 == 0,
        truncation_spec(x, h, 2).1 == 0,
{
    assert(truncation_spec(x, h, 0) == (0int, 0int));
    assert(truncation_spec(x, h, 1) == (0int, 0int)) by {
        assert(h * h * 0 == 0) by (nonlinear_arith);
        assert(x * 0 == 0) by (nonlinear_arith);
    }
    assert(truncation_spec(x, h, 2).1 == 0) by {
        assert(x * 0 == 0) by (nonlinear_arith);
    }
}

/// In exact arithmetic the central first difference of the power `k` is the
/// derivative `k x^(k-1)` plus the square of the step times a whole number,
/// the second part of `truncation_spec`: the error of the estimate is of the
/// second order in the step, and there is none up to the second power.
/// Stated for 64-bit integers, where the two samples leave room for their
/// difference.
pub proof fn central_difference_of_powers(x: i64, h: i64, k: nat)
    requires
        k >= 1,
        0 < h <= 0x3fff_ffff_ffff_ffff,
        -0x3fff_ffff_ffff_ffff <= power_spec(x + h, k) <= 0x3fff_ffff_ffff_ffff,
        -0x3fff_ffff_ffff_ffff <= power_spec(x - h, k) <= 0x3fff_ffff_ffff_ffff,
    ensures
        central_difference_defined(power_spec(x + h, k) as i64, power_spec(x - h, k) as i64, h),
        central_difference_spec(power_spec(x + h, k) as i64, power_spec(x - h, k) as i64, h)
            == power_slope_spec(x as int, k) + h * h * truncation_spec(x as int, h as int, k).1,
        k <= 2 ==> truncation_spec(x as int, h as int, k).1 == 0,
{
    lemma_power_expansion(x as int, h as int, k);
    let above = power_spec(x + h, k);
    let below = power_spec(x - h, k);
    let slope = power_slope_spec(x as int, k) + h * h * truncation_spec(x as int, h as int, k).1;
    assert(above - below == slope * (2 * h)) by (nonlinear_arith)
        requires
            above == power_spec(x as int, k) + h * h * truncation_spec(x as int, h as int, k).0
                + h * slope,
            below == power_spec(x as int, k) + h * h * truncation_spec(x as int, h as int, k).0
                - h * slope,
    ;
    lemma_exact_quotient(slope, 2 * h);
    assert(-0x7fff_ffff_ffff_fffe <= slope <= 0x7fff_ffff_ffff_fffe) by (nonlinear_arith)
        requires
            -0x7fff_ffff_ffff_fffe <= slope * (2 * h) <= 0x7fff_ffff_ffff_fffe,
            h > 0,
    ;
    lemma_truncation_vanishes(x as int, h as int);
}

/// Dividing a product by its positive factor `d` gives the other factor `q`,
/// and dividing the negated product gives `-q`.
proof fn lemma_exact_quotient(q: int, d: int)
    requires
        d > 0,
    ensures
        (q * d) / d == q,
        (-(q * d)) / d == -q,
{
    assert((q * d) / d == q) by (nonlinear_arith)
        requires
            d > 0,
    ;
    assert((-(q * d)) / d == -q) by (nonlinear_arith)
        requires
            d > 0,
    ;
}

} // verus!
