//! The three capabilities that every container and every expression node
//! offers: a cost estimate, a shape, and element access by coordinate.

use crate::convert::usize_from;
use vstd::prelude::*;

verus! {

/// A rough count of the arithmetic operations needed to produce one element.
pub trait Flops {
    /// The estimate: a property of the type, not of a value.
    spec fn cost() -> nat;

    /// Returns the estimate.
    fn flops() -> (n: usize)
        requires
            Self::cost() <= usize::MAX,
        ensures
            n == Self::cost(),
    ;
}

impl<'a, T: Flops> Flops for &'a T {
    open spec fn cost() -> nat {
        T::cost()
    }

    fn flops() -> (n: usize) {
        T::flops()
    }
}

/// A rectangular arrangement of elements in rows and columns.
pub trait Matrix {
    /// Number of rows.
    spec fn rows(&self) -> nat;

    /// Number of columns.
    spec fn cols(&self) -> nat;

    /// Returns the number of rows.
    fn nrows(&self) -> (n: u32)
        ensures
            n == self.rows(),
    ;

    /// Returns the number of columns.
    fn ncols(&self) -> (n: u32)
        ensures
            n == self.cols(),
    ;

    /// Returns the number of elements, `rows * cols`.
    fn nelems(&self) -> (n: usize)
        requires
            self.rows() * self.cols() <= usize::MAX,
        ensures
            n == self.rows() * self.cols(),
    {
        let r = usize_from(self.nrows());
        let c = usize_from(self.ncols());
        r * c
    }

    /// Returns the pair `(rows, cols)`.
    fn size(&self) -> (s: (u32, u32))
        ensures
            s.0 == self.rows(),
            s.1 == self.cols(),
    {
        (self.nrows(), self.ncols())
    }
}

impl<'a, M: Matrix> Matrix for &'a M {
    open spec fn rows(&self) -> nat {
        (**self).rows()
    }

    open spec fn cols(&self) -> nat {
        (**self).cols()
    }

    fn nrows(&self) -> (n: u32) {
        (**self).nrows()
    }

    fn ncols(&self) -> (n: u32) {
        (**self).ncols()
    }

    fn nelems(&self) -> (n: usize) {
        (**self).nelems()
    }

    fn size(&self) -> (s: (u32, u32)) {
        (**self).size()
    }
}

/// Element access by coordinate. Reading is the only computation an
/// expression performs: a node reads its operands at the same coordinate and
/// combines what it got.
pub trait UnsafeGet {
    /// The element.
    type Output;

    /// Whether the coordinate `(i, j)` may be read.
    spec fn readable(&self, i: int, j: int) -> bool;

    /// Whether `v` is a value that reading `(i, j)` can produce.
    spec fn yields(&self, i: int, j: int, v: Self::Output) -> bool;

    /// Returns the element at the coordinate `at = (i, j)`.
    fn unsafe_get(&self, at: (u32, u32)) -> (v: Self::Output)
        requires
            self.readable(at.0 as int, at.1 as int),
        ensures
            self.yields(at.0 as int, at.1 as int, v),
    ;
}

impl<'a, T: UnsafeGet> UnsafeGet for &'a T {
    type Output = T::Output;

    open spec fn readable(&self, i: int, j: int) -> bool {
        (**self).readable(i, j)
    }

    open spec fn yields(&self, i: int, j: int, v: T::Output) -> bool {
        (**self).yields(i, j, v)
    }

    fn unsafe_get(&self, at: (u32, u32)) -> (v: T::Output) {
        (**self).unsafe_get(at)
    }
}

/// Types with an additive identity.
pub trait Zero: Sized {
    /// The additive identity.
    spec fn zero_value() -> Self;

    /// Returns the additive identity.
    fn zero() -> (z: Self)
        ensures
            z == Self::zero_value(),
    ;
}

/// Types with a multiplicative identity.
pub trait One: Sized {
    /// The multiplicative identity.
    spec fn one_value() -> Self;

    /// Returns the multiplicative identity.
    fn one() -> (o: Self)
        ensures
            o == Self::one_value(),
    ;
}

} // verus!
