//! Products, lengths and linear maps of vectors.

use crate::evaluate::{attained, evaluate, pure, value_of};
use crate::scalar::{deterministic, number, number_spec, Scalar};
use crate::vector::{sum_defined, sum_extends, sum_spec, Vector};
use vstd::prelude::*;
use vstd::std_specs::ops::{DivSpec, MulSpec, SubSpec};

verus! {

/// The products of the first `count` pairs of components of `a` and `b`,
/// in their order.
pub open spec fn products_spec<T: Scalar>(a: Seq<T>, b: Seq<T>, count: nat) -> Seq<T> {
    Seq::new(count, |i: int| a[i].mul_spec(b[i]))
}

/// The sum of the products of the first `count` pairs of components of `a`
/// and `b`, added in their order onto zero.
pub open spec fn dot_product_spec<T: Scalar>(a: Seq<T>, b: Seq<T>, count: nat) -> T {
    sum_spec(products_spec(a, b, count))
}

/// Every operation of the dot product over the first `count` pairs of
/// components is defined: each pair can be multiplied and the products can
/// be summed.
pub open spec fn dot_product_defined<T: Scalar>(a: Seq<T>, b: Seq<T>, count: nat) -> bool {
    &&& forall|i: int| 0 <= i < count ==> (#[trigger] a[i]).mul_req(b[i])
    &&& sum_defined(products_spec(a, b, count))
}

/// The sum of the squares of the components of `v`.
pub open spec fn sqr_magnitude_spec<T: Scalar>(v: Seq<T>) -> T {
    dot_product_spec(v, v, v.len())
}

/// The length of `v`: the caller's square root `sqrt` of the sum of the
/// squares of its components.
pub open spec fn magnitude_spec<T: Scalar, R: Fn(T) -> T>(v: Seq<T>, sqrt: &R) -> T {
    value_of(sqrt, sqr_magnitude_spec(v))
}

/// Every operation of `magnitude` is defined: the squares can be summed and
/// `sqrt` can be called on the sum.
pub open spec fn magnitude_defined<T: Scalar, R: Fn(T) -> T>(v: Seq<T>, sqrt: &R) -> bool {
    &&& dot_product_defined(v, v, v.len())
    &&& call_requires(sqrt, (sqr_magnitude_spec(v),))
}

/// The inverse of the length of `v`.
pub open spec fn inverse_magnitude_spec<T: Scalar, R: Fn(T) -> T>(v: Seq<T>, sqrt: &R) -> T {
    number_spec::<T>(1).div_spec(magnitude_spec(v, sqrt))
}

/// Every operation of `normalize` is defined: the length can be computed and
/// inverted, and each component multiplied by the inverse.
pub open spec fn normalize_defined<T: Scalar, R: Fn(T) -> T>(v: Seq<T>, sqrt: &R) -> bool {
    &&& magnitude_defined(v, sqrt)
    &&& number_spec::<T>(1).div_req(magnitude_spec(v, sqrt))
    &&& forall|i: int|
        0 <= i < v.len() ==> inverse_magnitude_spec(v, sqrt).mul_req(#[trigger] v[i])
}

/// The components of `v`, each multiplied by the inverse of the length of
/// `v`.
pub open spec fn normalize_spec<T: Scalar, R: Fn(T) -> T>(v: Seq<T>, sqrt: &R) -> Seq<T> {
    Seq::new(v.len(), |i: int| inverse_magnitude_spec(v, sqrt).mul_spec(v[i]))
}

/// The cross product of the vectors made of the first three components of
/// `a` and of `b`.
pub open spec fn cross_product_spec<T: Scalar>(a: Seq<T>, b: Seq<T>) -> Seq<T> {
    seq![
        a[1].mul_spec(b[2]).sub_spec(a[2].mul_spec(b[1])),
        a[2].mul_spec(b[0]).sub_spec(a[0].mul_spec(b[2])),
        a[0].mul_spec(b[1]).sub_spec(a[1].mul_spec(b[0])),
    ]
}

/// Every operation of the cross product is defined.
pub open spec fn cross_product_defined<T: Scalar>(a: Seq<T>, b: Seq<T>) -> bool {
    &&& a[1].mul_req(b[2])
    &&& a[2].mul_req(b[1])
    &&& a[1].mul_spec(b[2]).sub_req(a[2].mul_spec(b[1]))
    &&& a[2].mul_req(b[0])
    &&& a[0].mul_req(b[2])
    &&& a[2].mul_spec(b[0]).sub_req(a[0].mul_spec(b[2]))
    &&& a[0].mul_req(b[1])
    &&& a[1].mul_req(b[0])
    &&& a[0].mul_spec(b[1]).sub_req(a[1].mul_spec(b[0]))
}

/// The image of `v` under the matrix with the rows `m`: one dot product for
/// each row, over the length of that row.
pub open spec fn transform_spec<T: Scalar>(m: Seq<Vector<T>>, v: Seq<T>) -> Seq<T> {
    Seq::new(m.len(), |i: int| dot_product_spec(m[i]@, v, m[i]@.len()))
}

/// No row of `m` is longer than `v`, and the dot product of each row with
/// `v` is defined.
pub open spec fn transform_defined<T: Scalar>(m: Seq<Vector<T>>, v: Seq<T>) -> bool {
    forall|i: int|
        0 <= i < m.len() ==> {
            &&& (#[trigger] m[i])@.len() <= v.len()
            &&& dot_product_defined(m[i]@, v, m[i]@.len())
        }
}

/// Computes the dot product of `v1` with the leading components of `v2`.
pub fn dot_product<T: Scalar>(v1: &Vector<T>, v2: &Vector<T>) -> (dot: T)
    requires
        deterministic::<T>(),
        v1@.len() <= v2@.len(),
        dot_product_defined(v1@, v2@, v1@.len()),
    ensures
        dot == dot_product_spec(v1@, v2@, v1@.len()),
{
    let len = v1.length();
    let ghost products = products_spec(v1@, v2@, v1@.len());
    let mut dot: T = number(0);
    let mut i: usize = 0;
    while i < len
        invariant
            deterministic::<T>(),
            dot_product_defined(v1@, v2@, v1@.len()),
            products == products_spec(v1@, v2@, v1@.len()),
            len == v1@.len(),
            len <= v2@.len(),
            i <= len,
            dot == sum_spec(products.take(i as int)),
        decreases len - i,
    {
        proof {
            sum_extends(products, i as int);
        }
        dot = dot + v1.get(i) * v2.get(i);
        i += 1;
    }
    proof {
        assert(products.take(i as int) == products);
    }
    dot
}

/// Computes the cross product of two vectors of three dimensions. Components
/// beyond the third are not read.
pub fn cross_product<T: Scalar>(v1: &Vector<T>, v2: &Vector<T>) -> (cross: Vector<T>)
    requires
        deterministic::<T>(),
        v1@.len() >= 3,
        v2@.len() >= 3,
        cross_product_defined(v1@, v2@),
    ensures
        cross@ == cross_product_spec(v1@, v2@),
{
    Vector::new_3d(
        v1.get(1) * v2.get(2) - v1.get(2) * v2.get(1),
        v1.get(2) * v2.get(0) - v1.get(0) * v2.get(2),
        v1.get(0) * v2.get(1) - v1.get(1) * v2.get(0),
    )
}

/// Computes the squared length of `v`.
pub fn sqr_magnitude<T: Scalar>(v: &Vector<T>) -> (sqr_sum: T)
    requires
        deterministic::<T>(),
        dot_product_defined(v@, v@, v@.len()),
    ensures
        sqr_sum == sqr_magnitude_spec(v@),
{
    dot_product(v, v)
}

/// Computes the length of `v`, with the caller's square root `sqrt`.
pub fn magnitude<T: Scalar, R: Fn(T) -> T>(v: &Vector<T>, sqrt: &R) -> (r: T)
    requires
        deterministic::<T>(),
        pure(sqrt),
        magnitude_defined(v@, sqrt),
    ensures
        r == magnitude_spec(v@, sqrt),
        attained(sqrt, sqr_magnitude_spec(v@)),
{
    evaluate(sqrt, sqr_magnitude(v))
}

/// Makes the vector that points as `v` does and has the length one. The
/// vector `v` is not changed. For a vector of length zero the components are
/// whatever the scalar type makes of a division by zero.
pub fn normalize<T: Scalar, R: Fn(T) -> T>(v: &Vector<T>, sqrt: &R) -> (norm_v: Vector<T>)
    requires
        deterministic::<T>(),
        pure(sqrt),
        normalize_defined(v@, sqrt),
    ensures
        norm_v@ == normalize_spec(v@, sqrt),
        attained(sqrt, sqr_magnitude_spec(v@)),
{
    let len = v.length();
    let mut norm_v: Vector<T> = Vector::zeros(len);
    let one: T = number(1);
    let inverse_magnitude = one / magnitude(v, sqrt);
    let mut i: usize = 0;
    while i < len
        invariant
            deterministic::<T>(),
            normalize_defined(v@, sqrt),
            len == v@.len(),
            norm_v@.len() == len,
            i <= len,
            inverse_magnitude == inverse_magnitude_spec(v@, sqrt),
            forall|j: int| 0 <= j < i ==> norm_v@[j] == inverse_magnitude.mul_spec(v@[j]),
        decreases len - i,
    {
        norm_v.set(i, inverse_magnitude * v.get(i));
        i += 1;
    }
    assert(norm_v@ =~= normalize_spec(v@, sqrt));
    norm_v
}

/// Applies the matrix with the rows `m` to the vector `v`: the component `i`
/// of the result is the dot product of row `i` with `v`.
pub fn transform<T: Scalar>(m: &Vec<Vector<T>>, v: &Vector<T>) -> (result: Vector<T>)
    requires
        deterministic::<T>(),
        transform_defined(m@, v@),
    ensures
        result@ == transform_spec(m@, v@),
{
    let rows = m.len();
    let mut result: Vector<T> = Vector::zeros(rows);
    let mut i: usize = 0;
    while i < rows
        invariant
            deterministic::<T>(),
            transform_defined(m@, v@),
            rows == m@.len(),
            result@.len() == rows,
            i <= rows,
            forall|k: int|
                0 <= k < i ==> result@[k] == dot_product_spec(m@[k]@, v@, m@[k]@.len()),
        decreases rows - i,
    {
        let row = &m[i];
        result.set(i, dot_product(row, v));
        i += 1;
    }
    assert(result@ =~= transform_spec(m@, v@));
    result
}

} // verus!
