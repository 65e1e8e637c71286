//! Strided column vector.

use crate::convert::usize_from;
use crate::mapped::Mapped;
use crate::traits::{Flops, Matrix, UnsafeGet};
use vstd::prelude::*;

verus! {

/// A column that borrows its entries from a row-major buffer: entry `i` is
/// the element `start + i * stride` of that buffer.
pub struct Col<'a, T> {
    data: &'a [T],
    start: usize,
    len: u32,
    stride: u32,
}

impl<'a, T> Col<'a, T> {
    /// The entries of the column, first to last.
    pub closed spec fn elems(&self) -> Seq<T> {
        Seq::new(self.len as nat, |i: int| self.data@[self.start + i * self.stride])
    }

    /// Every entry lies inside the borrowed buffer.
    pub closed spec fn in_buffer(&self) -> bool {
        self.len == 0 || self.start + (self.len - 1) * self.stride < self.data@.len()
    }

    /// Every entry lies inside the borrowed buffer, and the number of entries
    /// fits the index width.
    pub open spec fn wf(&self) -> bool {
        &&& self.in_buffer()
        &&& self.elems().len() == self.rows()
        &&& self.rows() * self.cols() <= usize::MAX
        &&& self.rows() <= u32::MAX
    }

    /// The entry at row `i`.
    pub open spec fn at(&self, i: int) -> T {
        self.elems()[i]
    }

    /// Views the elements `start`, `start + stride`, ... of `data` as a
    /// column of `len` entries.
    pub(crate) fn new(data: &'a [T], start: usize, len: u32, stride: u32) -> (c: Self)
        requires
            len == 0 || start + (len - 1) * stride < data@.len(),
        ensures
            c.wf(),
            c.rows() == len,
            forall|i: int| 0 <= i < len ==> #[trigger] c.at(i) == data@[start + i * stride],
    {
        let c = Col { data, start, len, stride };
        assert(c.rows() * c.cols() == len);
        c
    }

    /// Lazily maps this column.
    pub fn map<F, O>(&self, f: F) -> (m: Mapped<F, &Self>) where F: Fn(T) -> O, T: Clone
        ensures
            m.0 == f,
            m.1 == self,
    {
        Mapped(f, self)
    }
}

impl<'a, T> Flops for Col<'a, T> {
    open spec fn cost() -> nat {
        0
    }

    fn flops() -> (n: usize) {
        0
    }
}

impl<'a, T> Matrix for Col<'a, T> {
    closed spec fn rows(&self) -> nat {
        self.len as nat
    }

    open spec fn cols(&self) -> nat {
        1
    }

    fn nrows(&self) -> (n: u32) {
        self.len
    }

    fn ncols(&self) -> (n: u32) {
        1
    }
}

impl<'a, T: Clone> UnsafeGet for Col<'a, T> {
    type Output = T;

    open spec fn readable(&self, i: int, j: int) -> bool {
        &&& self.wf()
        &&& 0 <= i < self.rows()
        &&& j == 0
    }

    open spec fn yields(&self, i: int, j: int, v: T) -> bool {
        cloned(self.at(i), v)
    }

    fn unsafe_get(&self, at: (u32, u32)) -> (v: T) {
        let i = at.0;
        proof {
            assert(0 <= i * self.stride <= (self.len - 1) * self.stride) by (nonlinear_arith)
                requires
                    0 <= i <= self.len - 1,
                    0 <= self.stride,
            ;
            assert(self.data@.len() == self.data.len());
        }
        let k = self.start + usize_from(i) * usize_from(self.stride);
        self.data[k].clone()
    }
}

} // verus!
