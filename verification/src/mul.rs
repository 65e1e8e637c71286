//! Lazy element-wise multiplication.

use crate::traits::{Flops, Matrix, UnsafeGet};
use vstd::prelude::*;

verus! {

/// Lazy element-wise product of the operands `0` and `1`. Where one operand is a scalar
/// it stands on the left; the shape is that of the right operand.
pub struct Mul<A, B>(pub A, pub B);

impl<A, B> Flops for Mul<A, B> where A: Flops, B: Flops {
    open spec fn cost() -> nat {
        A::cost() + B::cost() + 1
    }

    fn flops() -> (n: usize)
        ensures
            n == A::cost() + B::cost() + 1,
    {
        A::flops() + B::flops() + 1
    }
}

impl<A, B> Matrix for Mul<A, B> where B: Matrix {
    open spec fn rows(&self) -> nat {
        self.1.rows()
    }

    open spec fn cols(&self) -> nat {
        self.1.cols()
    }

    fn nrows(&self) -> (n: u32)
        ensures
            n == self.1.rows(),
    {
        self.1.nrows()
    }

    fn ncols(&self) -> (n: u32)
        ensures
            n == self.1.cols(),
    {
        self.1.ncols()
    }

    fn nelems(&self) -> (n: usize)
        ensures
            n == self.1.rows() * self.1.cols(),
    {
        self.1.nelems()
    }

    fn size(&self) -> (s: (u32, u32))
        ensures
            s.0 == self.1.rows(),
            s.1 == self.1.cols(),
    {
        self.1.size()
    }
}

impl<A, B> UnsafeGet for Mul<A, B> where
    A: UnsafeGet,
    B: UnsafeGet,
    A::Output: core::ops::Mul<B::Output>,
 {
    type Output = <A::Output as core::ops::Mul<B::Output>>::Output;

    /// Both operands can be read, and whatever they yield can be multiplied.
    open spec fn readable(&self, i: int, j: int) -> bool {
        &&& self.0.readable(i, j)
        &&& self.1.readable(i, j)
        &&& forall|a: A::Output, b: B::Output|
            self.0.yields(i, j, a) && self.1.yields(i, j, b) ==> call_requires(
                <A::Output as core::ops::Mul<B::Output>>::mul,
                (a, b),
            )
    }

    /// `v` is a product of values that the two operands yield.
    open spec fn yields(&self, i: int, j: int, v: Self::Output) -> bool {
        exists|a: A::Output, b: B::Output|
            self.0.yields(i, j, a) && self.1.yields(i, j, b) && call_ensures(
                <A::Output as core::ops::Mul<B::Output>>::mul,
                (a, b),
                v,
            )
    }

    fn unsafe_get(&self, at: (u32, u32)) -> (v: Self::Output) {
        let a = self.0.unsafe_get(at);
        let b = self.1.unsafe_get(at);
        a * b
    }
}

} // verus!
