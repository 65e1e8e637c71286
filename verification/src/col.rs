//! Dense column vectors.

use crate::convert::usize_from;
use crate::mapped::Mapped;
use crate::traits::{Flops, Matrix, UnsafeGet, Zero};
use vstd::prelude::*;

verus! {

/// An owning run of elements that lie next to each other.
pub struct Slice<T> {
    data: Vec<T>,
    len: u32,
}

/// A dense column vector: a matrix with one column, owning its elements.
pub type Col<T> = Slice<T>;

impl<T> Slice<T> {
    /// The elements, first to last.
    pub closed spec fn elems(&self) -> Seq<T> {
        self.data@
    }

    /// There are exactly `rows` elements, a number that fits the index
    /// width.
    pub open spec fn wf(&self) -> bool {
        &&& self.elems().len() == self.rows()
        &&& self.rows() * self.cols() <= usize::MAX
        &&& self.rows() <= u32::MAX
    }

    /// The element at row `i`.
    pub open spec fn at(&self, i: int) -> T {
        self.elems()[i]
    }

    /// Lazily maps this column.
    pub fn map<F, O>(&self, f: F) -> (m: Mapped<F, &Slice<T>>) where F: Fn(T) -> O, T: Clone
        ensures
            m.0 == f,
            m.1 == self,
    {
        Mapped(f, self)
    }

    /// The elements, first to last.
    pub fn as_ref(&self) -> (s: &[T])
        ensures
            s@ == self.elems(),
    {
        self.data.as_slice()
    }

    /// The elements, first to last, for writing in place.
    pub fn as_mut(&mut self) -> (s: &mut [T])
        ensures
            s@ == old(self).elems(),
            final(self).elems() == final(s)@,
            final(self).rows() == old(self).rows(),
    {
        self.data.as_mut_slice()
    }
}

impl<T> Col<T> {
    /// Creates a column of `n` zeros.
    pub fn zeros(n: u32) -> (c: Col<T>) where T: Clone + Zero
        ensures
            c.wf(),
            c.rows() == n,
            forall|i: int| 0 <= i < n ==> cloned(T::zero_value(), #[trigger] c.at(i)),
    {
        let data = vec![T::zero(); usize_from(n)];
        Slice { data, len: n }
    }

    /// The elements, first to last, for visiting and changing each in place.
    pub fn iter_mut(&mut self) -> (s: &mut [T])
        ensures
            s@ == old(self).elems(),
            final(self).elems() == final(s)@,
            final(self).rows() == old(self).rows(),
    {
        self.as_mut()
    }

    /// Views this column as a strided column of stride 1.
    pub fn as_strided(&self) -> (col: crate::strided::Col<'_, T>)
        requires
            self.wf(),
        ensures
            col.wf(),
            col.rows() == self.rows(),
            forall|i: int| 0 <= i < self.rows() ==> #[trigger] col.at(i) == self.at(i),
    {
        crate::strided::Col::new(self.data.as_slice(), 0, self.len, 1)
    }
}

impl<T> Flops for Slice<T> {
    open spec fn cost() -> nat {
        0
    }

    fn flops() -> (n: usize) {
        0
    }
}

impl<T> Matrix for Slice<T> {
    closed spec fn rows(&self) -> nat {
        self.len as nat
    }

    open spec fn cols(&self) -> nat {
        1
    }

    fn nrows(&self) -> (n: u32) {
        self.len
    }

    fn ncols(&self) -> (n: u32) {
        1
    }
}

impl<T: Clone> UnsafeGet for Slice<T> {
    type Output = T;

    open spec fn readable(&self, i: int, j: int) -> bool {
        &&& self.wf()
        &&& 0 <= i < self.rows()
        &&& j == 0
    }

    open spec fn yields(&self, i: int, j: int, v: T) -> bool {
        cloned(self.at(i), v)
    }

    fn unsafe_get(&self, at: (u32, u32)) -> (v: T) {
        self.data[usize_from(at.0)].clone()
    }
}

} // verus!
