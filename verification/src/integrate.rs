//! Definite integrals by a fixed-step sum over evenly spaced samples.
//!
//! The position of a sample is its index times the spacing. The index is a
//! count, and the caller says how a count becomes a scalar; for a
//! floating-point type that is the rounding conversion of the language.

use crate::evaluate::{attained, evaluate, pure, value_of};
use crate::scalar::{at_most, deterministic, number, positive, Scalar};
use crate::vector::{sum_defined, sum_extends, sum_spec};
use vstd::prelude::*;
use vstd::std_specs::ops::{AddSpec, DivSpec, MulSpec, SubSpec};

verus! {

/// The distance between neighbours among `num` evenly spaced samples that
/// run from `start` to `end`: `(end - start) / (num - 1)`, with the count
/// `num - 1` converted by `count`.
pub open spec fn spacing_spec<T: Scalar, C: Fn(usize) -> T>(
    start: T,
    end: T,
    num: nat,
    count: &C,
) -> T {
    end.sub_spec(start).div_spec(value_of(count, (num - 1) as usize))
}

/// The spacing of `num` samples from `start` to `end` can be computed.
pub open spec fn spacing_defined<T: Scalar, C: Fn(usize) -> T>(
    start: T,
    end: T,
    num: nat,
    count: &C,
) -> bool {
    &&& end.sub_req(start)
    &&& call_requires(count, ((num - 1) as usize,))
    &&& end.sub_spec(start).div_req(value_of(count, (num - 1) as usize))
}

/// The sample of index `i` among `num` evenly spaced samples that run from
/// `start` to `end`: `start + i * spacing`, with the count `i` converted by
/// `count`. A single sample lies at `start`, and no spacing is computed for
/// it.
pub open spec fn sample_spec<T: Scalar, C: Fn(usize) -> T>(
    start: T,
    end: T,
    num: nat,
    i: int,
    count: &C,
) -> T {
    if num == 1 {
        start
    } else {
        start.add_spec(value_of(count, i as usize).mul_spec(spacing_spec(start, end, num, count)))
    }
}

/// The sample of index `i` can be computed from the spacing.
pub open spec fn sample_defined<T: Scalar, C: Fn(usize) -> T>(
    start: T,
    end: T,
    num: nat,
    i: int,
    count: &C,
) -> bool {
    num != 1 ==> {
        &&& call_requires(count, (i as usize,))
        &&& value_of(count, i as usize).mul_req(spacing_spec(start, end, num, count))
        &&& start.add_req(
            value_of(count, i as usize).mul_spec(spacing_spec(start, end, num, count)),
        )
    }
}

/// `num` evenly spaced samples, the first computed from `start` and, with
/// two or more, the last as `start + (num - 1) * spacing`.
pub open spec fn linspace_spec<T: Scalar, C: Fn(usize) -> T>(
    start: T,
    end: T,
    num: nat,
    count: &C,
) -> Seq<T> {
    Seq::new(num, |i: int| sample_spec(start, end, num, i, count))
}

/// Every operation of `linspace` is defined: with two or more samples, the
/// spacing and each sample can be computed.
pub open spec fn linspace_defined<T: Scalar, C: Fn(usize) -> T>(
    start: T,
    end: T,
    num: nat,
    count: &C,
) -> bool {
    num >= 2 ==> {
        &&& spacing_defined(start, end, num, count)
        &&& forall|i: int| 0 <= i < num ==> #[trigger] sample_defined(start, end, num, i, count)
    }
}

/// The conversions of counts that `linspace` uses were attained: with two or
/// more samples, that of `num - 1` and that of every index.
pub open spec fn linspace_attained<T: Scalar, C: Fn(usize) -> T>(num: nat, count: &C) -> bool {
    num >= 2 ==> {
        &&& attained(count, (num - 1) as usize)
        &&& forall|i: int| 0 <= i < num ==> #[trigger] attained(count, i as usize)
    }
}

/// The values of `f` at the abscissas `xs`, in their order.
pub open spec fn values_spec<T: Scalar, F: Fn(T) -> T>(f: &F, xs: Seq<T>) -> Seq<T> {
    Seq::new(xs.len(), |i: int| value_of(f, xs[i]))
}

/// `f` can be called on each of the abscissas `xs`, and its values can be
/// summed.
pub open spec fn values_defined<T: Scalar, F: Fn(T) -> T>(f: &F, xs: Seq<T>) -> bool {
    &&& forall|i: int| 0 <= i < xs.len() ==> call_requires(f, (#[trigger] xs[i],))
    &&& sum_defined(values_spec(f, xs))
}

/// The value of `f` at each of the abscissas `xs` was attained.
pub open spec fn values_attained<T: Scalar, F: Fn(T) -> T>(f: &F, xs: Seq<T>) -> bool {
    forall|i: int| 0 <= i < xs.len() ==> #[trigger] attained(f, xs[i])
}

/// The fixed-step sum for the integral of `f` from `x0` to `x1`: `h` times
/// the sum of `f` over `steps + 1` evenly spaced samples, added from the
/// first to the last onto zero.
pub open spec fn riemann_sum_spec<T: Scalar, F: Fn(T) -> T, C: Fn(usize) -> T>(
    f: &F,
    x0: T,
    x1: T,
    h: T,
    steps: nat,
    count: &C,
) -> T {
    h.mul_spec(sum_spec(values_spec(f, linspace_spec(x0, x1, steps + 1, count))))
}

/// Every operation of `riemann_sum` is defined: the samples can be made,
/// `f` summed over them, and the sum multiplied by `h`.
pub open spec fn riemann_sum_defined<T: Scalar, F: Fn(T) -> T, C: Fn(usize) -> T>(
    f: &F,
    x0: T,
    x1: T,
    h: T,
    steps: nat,
    count: &C,
) -> bool {
    &&& linspace_defined(x0, x1, steps + 1, count)
    &&& values_defined(f, linspace_spec(x0, x1, steps + 1, count))
    &&& h.mul_req(sum_spec(values_spec(f, linspace_spec(x0, x1, steps + 1, count))))
}

/// The conversions of counts and the values of `f` that `riemann_sum`
/// combines were attained.
pub open spec fn riemann_sum_attained<T: Scalar, F: Fn(T) -> T, C: Fn(usize) -> T>(
    f: &F,
    x0: T,
    x1: T,
    steps: nat,
    count: &C,
) -> bool {
    &&& linspace_attained(steps + 1, count)
    &&& values_attained(f, linspace_spec(x0, x1, steps + 1, count))
}

/// The number of whole steps of length `h` between `x0` and `x1`, as the
/// caller's rounding function `floor` gives it for the quotient
/// `(x1 - x0) / h`.
pub open spec fn whole_steps_spec<T: Scalar, W: Fn(T) -> usize>(
    floor: &W,
    x0: T,
    x1: T,
    h: T,
) -> usize {
    value_of(floor, x1.sub_spec(x0).div_spec(h))
}

/// The approximation of the integral of `f` from `x0` to `x1`: the
/// fixed-step sum over as many steps as `floor` finds in the interval.
pub open spec fn integral_spec<T: Scalar, F: Fn(T) -> T, W: Fn(T) -> usize, C: Fn(usize) -> T>(
    f: &F,
    x0: T,
    x1: T,
    h: T,
    floor: &W,
    count: &C,
) -> T {
    riemann_sum_spec(f, x0, x1, h, whole_steps_spec(floor, x0, x1, h) as nat, count)
}

/// Every operation of `integral` is defined: the quotient `(x1 - x0) / h`
/// can be computed and rounded, and the fixed-step sum can be computed.
pub open spec fn integral_defined<T: Scalar, F: Fn(T) -> T, W: Fn(T) -> usize, C: Fn(usize) -> T>(
    f: &F,
    x0: T,
    x1: T,
    h: T,
    floor: &W,
    count: &C,
) -> bool {
    &&& x1.sub_req(x0)
    &&& x1.sub_spec(x0).div_req(h)
    &&& call_requires(floor, (x1.sub_spec(x0).div_spec(h),))
    &&& riemann_sum_defined(f, x0, x1, h, whole_steps_spec(floor, x0, x1, h) as nat, count)
}

/// The number of steps, the conversions of counts and the values of `f`
/// that `integral` combines were attained.
pub open spec fn integral_attained<T: Scalar, F: Fn(T) -> T, W: Fn(T) -> usize, C: Fn(usize) -> T>(
    f: &F,
    x0: T,
    x1: T,
    h: T,
    floor: &W,
    count: &C,
) -> bool {
    &&& attained(floor, x1.sub_spec(x0).div_spec(h))
    &&& riemann_sum_attained(f, x0, x1, whole_steps_spec(floor, x0, x1, h) as nat, count)
}

/// Makes `num` evenly spaced samples from `start` to `end`.
///
/// With two or more samples the spacing is `(end - start) / (num - 1)` and
/// the sample of index `i` is `start + i * spacing`, where `count` converts
/// the counts `num - 1` and `i` into scalars. A single sample is `start`,
/// and no samples are an empty list.
pub fn linspace<T: Scalar, C: Fn(usize) -> T>(start: T, end: T, num: usize, count: &C) -> (v: Vec<
    T,
>)
    requires
        deterministic::<T>(),
        pure(count),
        linspace_defined(start, end, num as nat, count),
    ensures
        v@ == linspace_spec(start, end, num as nat, count),
        linspace_attained(num as nat, count),
{
    let mut v: Vec<T> = Vec::new();
    if num == 1 {
        v.push(start);
        assert(v@ =~= linspace_spec(start, end, num as nat, count));
        return v;
    }
    if num == 0 {
        assert(v@ =~= linspace_spec(start, end, num as nat, count));
        return v;
    }
    let h: T = (end - start) / evaluate(count, num - 1);
    let mut i: usize = 0;
    while i < num
        invariant
            deterministic::<T>(),
            pure(count),
            2 <= num,
            linspace_defined(start, end, num as nat, count),
            h == spacing_spec(start, end, num as nat, count),
            i <= num,
            v@.len() == i,
            forall|j: int|
                0 <= j < i ==> v@[j] == sample_spec(start, end, num as nat, j, count),
            forall|j: int| 0 <= j < i ==> #[trigger] attained(count, j as usize),
        decreases num - i,
    {
        assert(sample_defined(start, end, num as nat, i as int, count));
        v.push(start + evaluate(count, i) * h);
        i += 1;
    }
    assert(v@ =~= linspace_spec(start, end, num as nat, count));
    v
}

/// Sums `f` over `steps + 1` evenly spaced samples from `x0` to `x1` and
/// multiplies the sum by `h`.
///
/// The samples are those of `linspace`, taken one at a time: `f` is called
/// once on each, from the first to the last. They divide the interval
/// evenly, so their spacing differs from `h` wherever `h` does not divide
/// the width of the interval. With `steps == 0` the result is `h * f(x0)`.
pub fn riemann_sum<T: Scalar, F: Fn(T) -> T, C: Fn(usize) -> T>(
    f: &F,
    x0: T,
    x1: T,
    h: T,
    steps: usize,
    count: &C,
) -> (r: T)
    requires
        deterministic::<T>(),
        pure(f),
        pure(count),
        riemann_sum_defined(f, x0, x1, h, steps as nat, count),
    ensures
        r == riemann_sum_spec(f, x0, x1, h, steps as nat, count),
        riemann_sum_attained(f, x0, x1, steps as nat, count),
{
    let ghost num = (steps + 1) as nat;
    let ghost xs = linspace_spec(x0, x1, num, count);
    let ghost values = values_spec(f, xs);
    let mut sum: T = number(0);
    if steps == 0 {
        proof {
            sum_extends(values, 0);
            assert(values.take(1) == values);
            assert(xs[0] == x0);
        }
        sum = sum + evaluate(f, x0);
        return h * sum;
    }
    let spacing: T = (x1 - x0) / evaluate(count, steps);
    proof {
        assert(sample_defined(x0, x1, num, 0, count));
        assert(xs[0] == sample_spec(x0, x1, num, 0, count));
        sum_extends(values, 0);
    }
    sum = sum + evaluate(f, x0 + evaluate(count, 0) * spacing);
    let mut i: usize = 0;
    while i < steps
        invariant
            deterministic::<T>(),
            pure(f),
            pure(count),
            riemann_sum_defined(f, x0, x1, h, steps as nat, count),
            num == steps + 1,
            xs == linspace_spec(x0, x1, num, count),
            values == values_spec(f, xs),
            spacing == spacing_spec(x0, x1, num, count),
            attained(count, steps),
            i <= steps,
            sum == sum_spec(values.take(i + 1)),
            forall|j: int| 0 <= j <= i ==> #[trigger] attained(count, j as usize),
            forall|j: int| 0 <= j <= i ==> #[trigger] attained(f, xs[j]),
        decreases steps - i,
    {
        i += 1;
        proof {
            assert(sample_defined(x0, x1, num, i as int, count));
            assert(xs[i as int] == sample_spec(x0, x1, num, i as int, count));
            sum_extends(values, i as int);
        }
        sum = sum + evaluate(f, x0 + evaluate(count, i) * spacing);
    }
    proof {
        assert(values.take(i + 1) == values);
    }
    h * sum
}

/// Approximates the integral of `f` from `x0` to `x1` with nominal step `h`.
///
/// The number of whole steps is `floor((x1 - x0) / h)`, where `floor` is the
/// caller's function from a scalar to the largest count not above it. One
/// more sample than steps is taken, evenly spaced from `x0` to `x1`, and the
/// sum of `f` over the samples is multiplied by `h`. The result is a
/// first-order approximation, and less accurate where `h` does not divide
/// the width of the interval. For `x1 == x0` it is `h * f(x0)`.
pub fn integral<T: Scalar, F: Fn(T) -> T, W: Fn(T) -> usize, C: Fn(usize) -> T>(
    f: &F,
    x0: T,
    x1: T,
    h: T,
    floor: &W,
    count: &C,
) -> (r: T)
    requires
        deterministic::<T>(),
        pure(f),
        pure(floor),
        pure(count),
        positive(h),
        at_most(x0, x1),
        integral_defined(f, x0, x1, h, floor, count),
    ensures
        r == integral_spec(f, x0, x1, h, floor, count),
        integral_attained(f, x0, x1, h, floor, count),
{
    let steps = evaluate(floor, (x1 - x0) / h);
    riemann_sum(f, x0, x1, h, steps, count)
}

/// Two integrals of the same function over the same interval, with the same
/// step, rounding and conversion of counts, are the same value.
pub proof fn integral_repeats<T: Scalar, F: Fn(T) -> T, W: Fn(T) -> usize, C: Fn(usize) -> T>(
    f: &F,
    x0: T,
    x1: T,
    h: T,
    floor: &W,
    count: &C,
    first: T,
    second: T,
)
    requires
        call_requires(integral::<T, F, W, C>, (f, x0, x1, h, floor, count)),
        call_ensures(integral::<T, F, W, C>, (f, x0, x1, h, floor, count), first),
        call_ensures(integral::<T, F, W, C>, (f, x0, x1, h, floor, count), second),
    ensures
        first == second,
{
}

} // verus!
