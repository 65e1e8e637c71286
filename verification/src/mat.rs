//! Dense matrices: an owning one, and a borrowed one laid over a flat buffer.

use crate::convert::usize_from;
use crate::error::Failure;
use crate::layout::{lemma_offset_in_bounds, offset};
use crate::mapped::Mapped;
use crate::strided::Col;
use crate::traits::{Flops, Matrix, One, UnsafeGet, Zero};
use vstd::prelude::*;

verus! {

/// An owning matrix in row-major order. Its dimensions are fixed when it is
/// made.
pub struct Mat<T> {
    data: Vec<T>,
    nrows: u32,
    ncols: u32,
}

impl<T> Mat<T> {
    /// The elements in row-major order.
    pub closed spec fn elems(&self) -> Seq<T> {
        self.data@
    }

    /// The buffer holds exactly `rows * cols` elements, a number that fits
    /// the platform's size type, and each dimension fits the index width.
    pub open spec fn wf(&self) -> bool {
        &&& self.elems().len() == self.rows() * self.cols()
        &&& self.rows() * self.cols() <= usize::MAX
        &&& self.rows() <= u32::MAX
        &&& self.cols() <= u32::MAX
    }

    /// The element at row `i` and column `j`.
    pub open spec fn at(&self, i: int, j: int) -> T {
        self.elems()[offset(i, j, self.cols() as int)]
    }

    /// Creates a matrix where each element is initialized to `elem`.
    pub fn from_elem(size: (u32, u32), elem: T) -> (r: Result<Mat<T>, Failure>) where T: Clone
        ensures
            r is Ok <==> size.0 * size.1 <= usize::MAX,
            r is Err ==> r->Err_0 == Failure::SizeOverflow,
            r is Ok ==> {
                let m = r->Ok_0;
                &&& m.wf()
                &&& m.rows() == size.0
                &&& m.cols() == size.1
                &&& forall|i: int, j: int|
                    0 <= i < size.0 && 0 <= j < size.1 ==> cloned(elem, #[trigger] m.at(i, j))
            },
    {
        let (nrows, ncols) = size;
        let n = match usize_from(nrows).checked_mul(usize_from(ncols)) {
            Some(n) => n,
            None => {
                return Err(Failure::SizeOverflow);
            },
        };
        let data = vec![elem; n];
        let m = Mat { data, nrows, ncols };
        proof {
            assert forall|i: int, j: int| 0 <= i < nrows && 0 <= j < ncols implies cloned(
                elem,
                #[trigger] m.at(i, j),
            ) by {
                lemma_offset_in_bounds(i, j, nrows as int, ncols as int);
            }
        }
        Ok(m)
    }

    /// Creates a matrix where each element is initialized using the function
    /// `f`, called once per coordinate in row-major order.
    pub fn from_fn<F>(size: (u32, u32), f: F) -> (r: Result<Mat<T>, Failure>) where
        F: Fn((u32, u32)) -> T,

        requires
            forall|i: u32, j: u32| i < size.0 && j < size.1 ==> call_requires(f, ((i, j),)),
        ensures
            r is Ok <==> size.0 * size.1 <= usize::MAX,
            r is Err ==> r->Err_0 == Failure::SizeOverflow,
            r is Ok ==> {
                let m = r->Ok_0;
                &&& m.wf()
                &&& m.rows() == size.0
                &&& m.cols() == size.1
                &&& forall|i: u32, j: u32|
                    i < size.0 && j < size.1 ==> call_ensures(
                        f,
                        ((i, j),),
                        #[trigger] m.at(i as int, j as int),
                    )
            },
    {
        let (nrows, ncols) = size;
        let n = match usize_from(nrows).checked_mul(usize_from(ncols)) {
            Some(n) => n,
            None => {
                return Err(Failure::SizeOverflow);
            },
        };
        let mut data: Vec<T> = Vec::with_capacity(n);
        let mut i: u32 = 0;
        while i < nrows
            invariant
                i <= nrows,
                nrows * ncols <= usize::MAX,
                data@.len() == i * ncols,
                forall|i: u32, j: u32| i < nrows && j < ncols ==> call_requires(f, ((i, j),)),
                forall|p: u32, q: u32|
                    p < i && q < ncols ==> call_ensures(
                        f,
                        ((p, q),),
                        data@[#[trigger] offset(p as int, q as int, ncols as int)],
                    ),
            decreases nrows - i,
        {
            let mut j: u32 = 0;
            while j < ncols
                invariant
                    i < nrows,
                    j <= ncols,
                    nrows * ncols <= usize::MAX,
                    data@.len() == i * ncols + j,
                    forall|i: u32, j: u32| i < nrows && j < ncols ==> call_requires(f, ((i, j),)),
                    forall|p: u32, q: u32|
                        (p < i && q < ncols) || (p == i && q < j) ==> call_ensures(
                            f,
                            ((p, q),),
                            data@[#[trigger] offset(p as int, q as int, ncols as int)],
                        ),
                decreases ncols - j,
            {
                data.push(f((i, j)));
                proof {
                    assert forall|p: u32, q: u32|
                        (p < i && q < ncols) || (p == i && q < j + 1) implies call_ensures(
                        f,
                        ((p, q),),
                        data@[#[trigger] offset(p as int, q as int, ncols as int)],
                    ) by {
                        if p < i {
                            lemma_offset_in_bounds(p as int, q as int, i as int, ncols as int);
                        }
                    }
                }
                j = j + 1;
            }
            proof {
                assert((i + 1) * ncols == i * ncols + ncols) by (nonlinear_arith);
            }
            i = i + 1;
        }
        let m = Mat { data, nrows, ncols };
        Ok(m)
    }

    /// Lays a matrix of shape `size` over a flat buffer, without copying it.
    pub fn reshape<'a>(slice: &'a [T], size: (u32, u32)) -> (r: Result<MatRef<'a, T>, Failure>)
        ensures
            r is Ok <==> slice@.len() == size.0 * size.1,
            r is Err ==> r->Err_0 == Failure::SizeMismatch,
            r is Ok ==> {
                let m = r->Ok_0;
                &&& m.wf()
                &&& m.rows() == size.0
                &&& m.cols() == size.1
                &&& m.elems() == slice@
            },
    {
        let (nrows, ncols) = size;
        match usize_from(nrows).checked_mul(usize_from(ncols)) {
            Some(n) => {
                if slice.len() == n {
                    Ok(MatRef { data: slice, nrows, ncols })
                } else {
                    Err(Failure::SizeMismatch)
                }
            },
            None => {
                assert(slice@.len() == slice.len());
                Err(Failure::SizeMismatch)
            },
        }
    }

    /// Lazily maps this matrix.
    pub fn map<F, O>(&self, f: F) -> (m: Mapped<F, &Mat<T>>) where F: Fn(T) -> O, T: Clone
        ensures
            m.0 == f,
            m.1 == self,
    {
        Mapped(f, self)
    }

    /// Creates a matrix filled with ones.
    pub fn ones(size: (u32, u32)) -> (r: Result<Mat<T>, Failure>) where T: Clone + One
        ensures
            r is Ok <==> size.0 * size.1 <= usize::MAX,
            r is Err ==> r->Err_0 == Failure::SizeOverflow,
            r is Ok ==> {
                let m = r->Ok_0;
                &&& m.wf()
                &&& m.rows() == size.0
                &&& m.cols() == size.1
                &&& forall|i: int, j: int|
                    0 <= i < size.0 && 0 <= j < size.1 ==> cloned(
                        T::one_value(),
                        #[trigger] m.at(i, j),
                    )
            },
    {
        Mat::from_elem(size, T::one())
    }

    /// Creates a matrix filled with zeros.
    pub fn zeros(size: (u32, u32)) -> (r: Result<Mat<T>, Failure>) where T: Clone + Zero
        ensures
            r is Ok <==> size.0 * size.1 <= usize::MAX,
            r is Err ==> r->Err_0 == Failure::SizeOverflow,
            r is Ok ==> {
                let m = r->Ok_0;
                &&& m.wf()
                &&& m.rows() == size.0
                &&& m.cols() == size.1
                &&& forall|i: int, j: int|
                    0 <= i < size.0 && 0 <= j < size.1 ==> cloned(
                        T::zero_value(),
                        #[trigger] m.at(i, j),
                    )
            },
    {
        Mat::from_elem(size, T::zero())
    }

    /// Views column `c` of this matrix, without copying it.
    pub fn col(&self, c: u32) -> (col: Col<'_, T>)
        requires
            self.wf(),
            c < self.cols(),
        ensures
            col.wf(),
            col.rows() == self.rows(),
            forall|i: int| 0 <= i < self.rows() ==> #[trigger] col.at(i) == self.at(i, c as int),
    {
        proof {
            if self.nrows > 0 {
                lemma_offset_in_bounds(
                    self.nrows - 1,
                    c as int,
                    self.nrows as int,
                    self.ncols as int,
                );
            }
        }
        Col::new(self.data.as_slice(), usize_from(c), self.nrows, self.ncols)
    }

    /// The elements in row-major order.
    pub fn as_ref(&self) -> (s: &[T])
        ensures
            s@ == self.elems(),
    {
        self.data.as_slice()
    }

    /// The elements in row-major order, for writing in place.
    pub fn as_mut(&mut self) -> (s: &mut [T])
        ensures
            s@ == old(self).elems(),
            final(self).elems() == final(s)@,
            final(self).rows() == old(self).rows(),
            final(self).cols() == old(self).cols(),
    {
        self.data.as_mut_slice()
    }
}

impl<T> Flops for Mat<T> {
    open spec fn cost() -> nat {
        0
    }

    fn flops() -> (n: usize) {
        0
    }
}

impl<T> Matrix for Mat<T> {
    closed spec fn rows(&self) -> nat {
        self.nrows as nat
    }

    closed spec fn cols(&self) -> nat {
        self.ncols as nat
    }

    fn nrows(&self) -> (n: u32) {
        self.nrows
    }

    fn ncols(&self) -> (n: u32) {
        self.ncols
    }

    fn size(&self) -> (s: (u32, u32)) {
        (self.nrows, self.ncols)
    }
}

impl<T: Clone> UnsafeGet for Mat<T> {
    type Output = T;

    open spec fn readable(&self, i: int, j: int) -> bool {
        &&& self.wf()
        &&& 0 <= i < self.rows()
        &&& 0 <= j < self.cols()
    }

    open spec fn yields(&self, i: int, j: int, v: T) -> bool {
        cloned(self.at(i, j), v)
    }

    fn unsafe_get(&self, at: (u32, u32)) -> (v: T) {
        let (i, j) = at;
        proof {
            lemma_offset_in_bounds(i as int, j as int, self.nrows as int, self.ncols as int);
        }
        let k = usize_from(i) * usize_from(self.ncols) + usize_from(j);
        self.data[k].clone()
    }
}

/// A matrix in row-major order laid over a buffer that it borrows.
pub struct MatRef<'a, T> {
    data: &'a [T],
    nrows: u32,
    ncols: u32,
}

impl<'a, T> MatRef<'a, T> {
    /// The elements in row-major order.
    pub closed spec fn elems(&self) -> Seq<T> {
        self.data@
    }

    /// The buffer holds exactly `rows * cols` elements, a number that fits
    /// the platform's size type, and each dimension fits the index width.
    pub open spec fn wf(&self) -> bool {
        &&& self.elems().len() == self.rows() * self.cols()
        &&& self.rows() * self.cols() <= usize::MAX
        &&& self.rows() <= u32::MAX
        &&& self.cols() <= u32::MAX
    }

    /// The element at row `i` and column `j`.
    pub open spec fn at(&self, i: int, j: int) -> T {
        self.elems()[offset(i, j, self.cols() as int)]
    }

    /// Lazily maps this matrix.
    pub fn map<F, O>(&self, f: F) -> (m: Mapped<F, &Self>) where F: Fn(T) -> O, T: Clone
        ensures
            m.0 == f,
            m.1 == self,
    {
        Mapped(f, self)
    }

    /// Views column `c` of this matrix, without copying it.
    pub fn col(&self, c: u32) -> (col: Col<'a, T>)
        requires
            self.wf(),
            c < self.cols(),
        ensures
            col.wf(),
            col.rows() == self.rows(),
            forall|i: int| 0 <= i < self.rows() ==> #[trigger] col.at(i) == self.at(i, c as int),
    {
        proof {
            if self.nrows > 0 {
                lemma_offset_in_bounds(
                    self.nrows - 1,
                    c as int,
                    self.nrows as int,
                    self.ncols as int,
                );
            }
        }
        Col::new(self.data, usize_from(c), self.nrows, self.ncols)
    }

    /// The elements in row-major order.
    pub fn as_ref(&self) -> (s: &'a [T])
        ensures
            s@ == self.elems(),
    {
        self.data
    }
}

impl<'a, T> Flops for MatRef<'a, T> {
    open spec fn cost() -> nat {
        0
    }

    fn flops() -> (n: usize) {
        0
    }
}

impl<'a, T> Matrix for MatRef<'a, T> {
    closed spec fn rows(&self) -> nat {
        self.nrows as nat
    }

    closed spec fn cols(&self) -> nat {
        self.ncols as nat
    }

    fn nrows(&self) -> (n: u32) {
        self.nrows
    }

    fn ncols(&self) -> (n: u32) {
        self.ncols
    }

    fn size(&self) -> (s: (u32, u32)) {
        (self.nrows, self.ncols)
    }
}

impl<'a, T: Clone> UnsafeGet for MatRef<'a, T> {
    type Output = T;

    open spec fn readable(&self, i: int, j: int) -> bool {
        &&& self.wf()
        &&& 0 <= i < self.rows()
        &&& 0 <= j < self.cols()
    }

    open spec fn yields(&self, i: int, j: int, v: T) -> bool {
        cloned(self.at(i, j), v)
    }

    fn unsafe_get(&self, at: (u32, u32)) -> (v: T) {
        let (i, j) = at;
        proof {
            lemma_offset_in_bounds(i as int, j as int, self.nrows as int, self.ncols as int);
        }
        let k = usize_from(i) * usize_from(self.ncols) + usize_from(j);
        self.data[k].clone()
    }
}

} // verus!
