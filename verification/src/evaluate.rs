//! Caller-supplied functions, seen as mathematical functions.
//!
//! The routines of this crate call the function they are given and never
//! look inside it. Their contracts speak of its values through `value_of`
//! and `value_at`, which are meaningful for a function that is pure. Each
//! routine also ensures that the values its result is built from were
//! attained: they are results of the function, so whatever the function
//! ensures of its results holds of them.

use crate::vector::Vector;
use vstd::prelude::*;

verus! {

/// `f` has at most one possible result for each argument.
pub open spec fn pure<A, B, F: Fn(A) -> B>(f: &F) -> bool {
    forall|a: A, b1: B, b2: B|
        #[trigger] call_ensures(f, (a,), b1) && #[trigger] call_ensures(f, (a,), b2) ==> b1 == b2
}

/// The value of a pure `f` at `a`.
pub open spec fn value_of<A, B, F: Fn(A) -> B>(f: &F, a: A) -> B {
    choose|b: B| call_ensures(f, (a,), b)
}

/// The value of `f` at `a` is a result of `f` on `a`.
pub open spec fn attained<A, B, F: Fn(A) -> B>(f: &F, a: A) -> bool {
    call_ensures(f, (a,), value_of(f, a))
}

/// Calls `f` on `a`.
pub fn evaluate<A, B, F: Fn(A) -> B>(f: &F, a: A) -> (b: B)
    requires
        pure(f),
        call_requires(f, (a,)),
    ensures
        b == value_of(f, a),
        call_ensures(f, (a,), b),
{
    f(a)
}

/// A function of a point `f` has at most one possible result for each point,
/// and that result depends on the point's components alone.
pub open spec fn pure_on_points<T, B, F: Fn(&Vector<T>) -> B>(f: &F) -> bool {
    forall|p: Vector<T>, q: Vector<T>, b1: B, b2: B|
        p@ == q@ && #[trigger] call_ensures(f, (&p,), b1) && #[trigger] call_ensures(f, (&q,), b2)
            ==> b1 == b2
}

/// `f` can be called on every point with the components `point`.
pub open spec fn accepts_at<T, B, F: Fn(&Vector<T>) -> B>(f: &F, point: Seq<T>) -> bool {
    forall|p: Vector<T>| p@ == point ==> #[trigger] call_requires(f, (&p,))
}

/// `b` is a possible result of `f` on a point with the components `point`.
pub open spec fn yields_at<T, B, F: Fn(&Vector<T>) -> B>(f: &F, point: Seq<T>, b: B) -> bool {
    exists|p: Vector<T>| p@ == point && #[trigger] call_ensures(f, (&p,), b)
}

/// The value of a pure function of a point at the point with the components
/// `point`.
pub open spec fn value_at<T, B, F: Fn(&Vector<T>) -> B>(f: &F, point: Seq<T>) -> B {
    choose|b: B| yields_at(f, point, b)
}

/// The value of `f` at the point with the components `point` is a result of
/// `f` on such a point.
pub open spec fn attained_at<T, B, F: Fn(&Vector<T>) -> B>(f: &F, point: Seq<T>) -> bool {
    yields_at(f, point, value_at(f, point))
}

/// Calls `f` on `point`.
pub fn evaluate_at<T, B, F: Fn(&Vector<T>) -> B>(f: &F, point: &Vector<T>) -> (b: B)
    requires
        pure_on_points(f),
        accepts_at(f, point@),
    ensures
        b == value_at(f, point@),
        call_ensures(f, (point,), b),
        yields_at(f, point@, b),
{
    let b = f(point);
    proof {
        let found = value_at(f, point@);
        assert(yields_at(f, point@, b));
        let witness = choose|p: Vector<T>| p@ == point@ && #[trigger] call_ensures(f, (&p,), found);
        assert(call_ensures(f, (&witness,), found));
    }
    b
}

} // verus!
