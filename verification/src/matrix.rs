//! A rectangular table of scalars, held row by row.

use crate::scalar::{deterministic, number, number_spec, Scalar};
use crate::vector::Vector;
use vstd::prelude::*;

verus! {

/// A table of scalars, held as a list of rows.
#[derive(Clone)]
pub struct Matrix<T> {
    rows: Vec<Vector<T>>,
}

impl<T> View for Matrix<T> {
    type V = Seq<Seq<T>>;

    closed spec fn view(&self) -> Seq<Seq<T>> {
        Seq::new(self.rows@.len(), |i: int| self.rows@[i]@)
    }
}

/// The table of `rows` rows and `cols` columns that holds `value` in every
/// place.
pub open spec fn constant_table<T>(rows: nat, cols: nat, value: T) -> Seq<Seq<T>> {
    Seq::new(rows, |i: int| Seq::new(cols, |j: int| value))
}

impl<T: Copy> Matrix<T> {
    /// Makes the matrix of `rows` rows and `cols` columns that holds `value`
    /// in every place.
    pub fn filled(rows: usize, cols: usize, value: T) -> (m: Matrix<T>)
        ensures
            m@ == constant_table(rows as nat, cols as nat, value),
    {
        let mut row_list: Vec<Vector<T>> = Vec::new();
        let mut i: usize = 0;
        while i < rows
            invariant
                i <= rows,
                row_list@.len() == i,
                forall|k: int|
                    0 <= k < i ==> (#[trigger] row_list@[k])@ == Seq::new(
                        cols as nat,
                        |j: int| value,
                    ),
            decreases rows - i,
        {
            row_list.push(Vector::filled(cols, value));
            i += 1;
        }
        let m = Matrix { rows: row_list };
        assert(m@ =~= constant_table(rows as nat, cols as nat, value));
        m
    }

    /// The number of rows.
    pub fn row_count(&self) -> (n: usize)
        ensures
            n == self@.len(),
    {
        self.rows.len()
    }

    /// The row at `index`.
    pub fn row(&self, index: usize) -> (r: &Vector<T>)
        requires
            index < self@.len(),
        ensures
            r@ == self@[index as int],
    {
        &self.rows[index]
    }
}

impl<T: Scalar> Matrix<T> {
    /// Makes the matrix of `rows` rows and `cols` columns that holds zero in
    /// every place.
    pub fn zeros(rows: usize, cols: usize) -> (m: Matrix<T>)
        requires
            deterministic::<T>(),
        ensures
            m@ == constant_table(rows as nat, cols as nat, number_spec::<T>(0)),
    {
        Matrix::filled(rows, cols, number(0))
    }

    /// Makes the matrix of `rows` rows and `cols` columns that holds one in
    /// every place.
    pub fn ones(rows: usize, cols: usize) -> (m: Matrix<T>)
        requires
            deterministic::<T>(),
        ensures
            m@ == constant_table(rows as nat, cols as nat, number_spec::<T>(1)),
    {
        Matrix::filled(rows, cols, number(1))
    }
}

} // verus!
