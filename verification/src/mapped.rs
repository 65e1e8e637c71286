//! Lazy function application.

use crate::traits::{Flops, Matrix, UnsafeGet};
use vstd::prelude::*;

verus! {

/// Lazy function application: every element of the operand `1`, passed
/// through the function `0` when it is read.
pub struct Mapped<F, M>(pub F, pub M);

impl<F, M> Flops for Mapped<F, M> where M: Flops {
    open spec fn cost() -> nat {
        M::cost() + 1
    }

    fn flops() -> (n: usize)
        ensures
            n == M::cost() + 1,
    {
        M::flops() + 1
    }
}

impl<F, M> Matrix for Mapped<F, M> where M: Matrix {
    open spec fn rows(&self) -> nat {
        self.1.rows()
    }

    open spec fn cols(&self) -> nat {
        self.1.cols()
    }

    fn nrows(&self) -> (n: u32)
        ensures
            n == self.1.rows(),
    {
        self.1.nrows()
    }

    fn ncols(&self) -> (n: u32)
        ensures
            n == self.1.cols(),
    {
        self.1.ncols()
    }

    fn nelems(&self) -> (n: usize)
        ensures
            n == self.1.rows() * self.1.cols(),
    {
        self.1.nelems()
    }

    fn size(&self) -> (s: (u32, u32))
        ensures
            s.0 == self.1.rows(),
            s.1 == self.1.cols(),
    {
        self.1.size()
    }
}

impl<F, M, O> UnsafeGet for Mapped<F, M> where M: UnsafeGet, F: Fn(M::Output) -> O {
    type Output = O;

    /// The operand can be read, and the function accepts whatever it yields.
    open spec fn readable(&self, i: int, j: int) -> bool {
        &&& self.1.readable(i, j)
        &&& forall|x: M::Output| self.1.yields(i, j, x) ==> call_requires(self.0, (x,))
    }

    /// `v` is a result of the function on some value that the operand
    /// yields.
    open spec fn yields(&self, i: int, j: int, v: O) -> bool {
        exists|x: M::Output| self.1.yields(i, j, x) && call_ensures(self.0, (x,), v)
    }

    fn unsafe_get(&self, at: (u32, u32)) -> (v: O) {
        let x = self.1.unsafe_get(at);
        (self.0)(x)
    }
}

} // verus!
