//! Lazy element-wise addition.

use crate::mapped::Mapped;
use crate::traits::{Flops, Matrix, UnsafeGet};
use vstd::prelude::*;

verus! {

/// Lazy addition of the operands `0` and `1`. Where one operand is a scalar
/// it stands on the left; the shape is that of the right operand.
pub struct Add<A, B>(pub A, pub B);

impl<A, B> Add<A, B> where A: UnsafeGet, B: UnsafeGet, A::Output: core::ops::Add<B::Output> {
    /// Lazily maps this addition.
    pub fn map<F, O>(self, f: F) -> (m: Mapped<F, Add<A, B>>) where
        F: Fn(<A::Output as core::ops::Add<B::Output>>::Output) -> O,

        ensures
            m.0 == f,
            m.1 == self,
    {
        Mapped(f, self)
    }
}

impl<A, B> Flops for Add<A, B> where A: Flops, B: Flops {
    open spec fn cost() -> nat {
        A::cost() + B::cost() + 1
    }

    fn flops() -> (n: usize)
        ensures
            n == A::cost() + B::cost() + 1,
    {
        A::flops() + B::flops() + 1
    }
}

impl<A, B> Matrix for Add<A, B> where B: Matrix {
    open spec fn rows(&self) -> nat {
        self.1.rows()
    }

    open spec fn cols(&self) -> nat {
        self.1.cols()
    }

    fn nrows(&self) -> (n: u32)
        ensures
            n == self.1.rows(),
    {
        self.1.nrows()
    }

    fn ncols(&self) -> (n: u32)
        ensures
            n == self.1.cols(),
    {
        self.1.ncols()
    }

    fn nelems(&self) -> (n: usize)
        ensures
            n == self.1.rows() * self.1.cols(),
    {
        self.1.nelems()
    }

    fn size(&self) -> (s: (u32, u32))
        ensures
            s.0 == self.1.rows(),
            s.1 == self.1.cols(),
    {
        self.1.size()
    }
}

impl<A, B> UnsafeGet for Add<A, B> where
    A: UnsafeGet,
    B: UnsafeGet,
    A::Output: core::ops::Add<B::Output>,
 {
    type Output = <A::Output as core::ops::Add<B::Output>>::Output;

    /// Both operands can be read, and whatever they yield can be added.
    open spec fn readable(&self, i: int, j: int) -> bool {
        &&& self.0.readable(i, j)
        &&& self.1.readable(i, j)
        &&& forall|a: A::Output, b: B::Output|
            self.0.yields(i, j, a) && self.1.yields(i, j, b) ==> call_requires(
                <A::Output as core::ops::Add<B::Output>>::add,
                (a, b),
            )
    }

    /// `v` is a sum of values that the two operands yield.
    open spec fn yields(&self, i: int, j: int, v: Self::Output) -> bool {
        exists|a: A::Output, b: B::Output|
            self.0.yields(i, j, a) && self.1.yields(i, j, b) && call_ensures(
                <A::Output as core::ops::Add<B::Output>>::add,
                (a, b),
                v,
            )
    }

    fn unsafe_get(&self, at: (u32, u32)) -> (v: Self::Output) {
        let a = self.0.unsafe_get(at);
        let b = self.1.unsafe_get(at);
        a + b
    }
}

} // verus!
