//! A fixed-length sequence of scalars.

use crate::scalar::{deterministic, number, number_spec, Scalar};
use vstd::prelude::*;
use vstd::std_specs::ops::AddSpec;

verus! {

/// An ordered sequence of scalars whose length is fixed when it is made.
/// Components are read and written by index; none can be added or removed.
#[derive(Clone)]
pub struct Vector<T> {
    components: Vec<T>,
}

impl<T> View for Vector<T> {
    type V = Seq<T>;

    closed spec fn view(&self) -> Seq<T> {
        self.components@
    }
}

/// The sum of the components of `s`, added from the first to the last onto
/// zero.
pub open spec fn sum_spec<T: Scalar>(s: Seq<T>) -> T
    decreases s.len(),
{
    if s.len() == 0 {
        number_spec::<T>(0)
    } else {
        sum_spec(s.drop_last()).add_spec(s.last())
    }
}

/// Every addition in the sum of the components of `s` is defined.
pub open spec fn sum_defined<T: Scalar>(s: Seq<T>) -> bool {
    forall|i: int| 0 <= i < s.len() ==> (#[trigger] sum_spec(s.take(i))).add_req(s[i])
}

impl<T: Copy> Vector<T> {
    /// Makes a vector with the components of `x`, in their order.
    pub fn new(x: &[T]) -> (v: Vector<T>)
        ensures
            v@ == x@,
    {
        let mut components: Vec<T> = Vec::new();
        let mut i: usize = 0;
        while i < x.len()
            invariant
                i <= x@.len(),
                components@ == x@.take(i as int),
            decreases x@.len() - i,
        {
            components.push(x[i]);
            i += 1;
        }
        Vector { components }
    }

    /// Makes the vector `(x, y)`.
    pub fn new_2d(x: T, y: T) -> (v: Vector<T>)
        ensures
            v@ == seq![x, y],
    {
        Vector::new(&[x, y])
    }

    /// Makes the vector `(x, y, z)`.
    pub fn new_3d(x: T, y: T, z: T) -> (v: Vector<T>)
        ensures
            v@ == seq![x, y, z],
    {
        Vector::new(&[x, y, z])
    }

    /// Makes a vector of `length` components, each equal to `value`.
    pub fn filled(length: usize, value: T) -> (v: Vector<T>)
        ensures
            v@ == Seq::new(length as nat, |i: int| value),
    {
        let mut components: Vec<T> = Vec::new();
        let mut i: usize = 0;
        while i < length
            invariant
                i <= length,
                components@ == Seq::new(i as nat, |j: int| value),
            decreases length - i,
        {
            components.push(value);
            i += 1;
        }
        Vector { components }
    }

    /// The number of components.
    pub fn length(&self) -> (n: usize)
        ensures
            n == self@.len(),
    {
        self.components.len()
    }

    /// The component at `index`.
    pub fn get(&self, index: usize) -> (val: T)
        requires
            index < self@.len(),
        ensures
            val == self@[index as int],
    {
        self.components[index]
    }

    /// Replaces the component at `index` by `val` and leaves the others as
    /// they are.
    pub fn set(&mut self, index: usize, val: T)
        requires
            index < old(self)@.len(),
        ensures
            final(self)@ == old(self)@.update(index as int, val),
    {
        self.components.set(index, val);
    }

    /// Makes a new vector with the same components. The two share nothing:
    /// a later change to one does not show in the other.
    pub fn copy(&self) -> (v: Vector<T>)
        ensures
            v@ == self@,
    {
        let mut components: Vec<T> = Vec::new();
        let mut i: usize = 0;
        while i < self.components.len()
            invariant
                i <= self.components@.len(),
                components@ == self.components@.take(i as int),
            decreases self.components@.len() - i,
        {
            components.push(self.components[i]);
            i += 1;
        }
        Vector { components }
    }
}

impl<T: Scalar> Vector<T> {
    /// Makes the vector of `length` zeros.
    pub fn zeros(length: usize) -> (v: Vector<T>)
        requires
            deterministic::<T>(),
        ensures
            v@ == Seq::new(length as nat, |i: int| number_spec::<T>(0)),
    {
        Vector::filled(length, number(0))
    }

    /// Makes the vector of `length` ones.
    pub fn ones(length: usize) -> (v: Vector<T>)
        requires
            deterministic::<T>(),
        ensures
            v@ == Seq::new(length as nat, |i: int| number_spec::<T>(1)),
    {
        Vector::filled(length, number(1))
    }

    /// Adds up the components, from the first to the last, starting at zero.
    pub fn sum(&self) -> (sum: T)
        requires
            deterministic::<T>(),
            sum_defined(self@),
        ensures
            sum == sum_spec(self@),
    {
        let mut sum: T = number(0);
        let mut i: usize = 0;
        while i < self.components.len()
            invariant
                deterministic::<T>(),
                sum_defined(self.components@),
                i <= self.components@.len(),
                sum == sum_spec(self.components@.take(i as int)),
            decreases self.components@.len() - i,
        {
            proof {
                sum_extends(self.components@, i as int);
            }
            sum = sum + self.components[i];
            i += 1;
        }
        proof {
            assert(self.components@.take(i as int) == self.components@);
        }
        sum
    }
}

/// The sum of the first `i + 1` components of `s` is the sum of the first
/// `i` with the component of index `i` added.
pub proof fn sum_extends<T: Scalar>(s: Seq<T>, i: int)
    requires
        0 <= i < s.len(),
    ensures
        sum_spec(s.take(i + 1)) == sum_spec(s.take(i)).add_spec(s[i]),
{
    assert(s.take(i + 1).drop_last() == s.take(i));
}

} // verus!
