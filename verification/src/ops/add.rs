//! The `+` operator on expression nodes. A sum of products keeps both
//! products; a product added to a sum joins the sum's right operand, so that
//! the sum's left operand, where scalars stand, stays outermost.

use crate::traits::Matrix;
use vstd::prelude::*;

verus! {

/// `a * b + c * d` is `Add(a * b, c * d)`.
impl<A, B, D, E> std::ops::Add<crate::mul::Mul<D, E>> for crate::mul::Mul<A, B> where B: Matrix, E: Matrix {
    type Output = crate::add::Add<crate::mul::Mul<A, B>, crate::mul::Mul<D, E>>;

    fn add(self, rhs: crate::mul::Mul<D, E>) -> (sum: crate::add::Add<crate::mul::Mul<A, B>, crate::mul::Mul<D, E>>)
        ensures
            sum == crate::add::Add(self, rhs),
    {
        crate::add::Add(self, rhs)
    }
}

impl<A, B, D, E> vstd::std_specs::ops::AddSpecImpl<crate::mul::Mul<D, E>> for crate::mul::Mul<A, B> where B: Matrix, E: Matrix {
    open spec fn obeys_add_spec() -> bool {
        true
    }

    open spec fn add_req(self, rhs: crate::mul::Mul<D, E>) -> bool {
        true
    }

    open spec fn add_spec(self, rhs: crate::mul::Mul<D, E>) -> crate::add::Add<crate::mul::Mul<A, B>, crate::mul::Mul<D, E>> {
        crate::add::Add(self, rhs)
    }
}

/// `(a + b) + c * d` is `Add(a, Add(b, c * d))`.
impl<A, B, C, D> std::ops::Add<crate::mul::Mul<C, D>> for crate::add::Add<A, B> where B: Matrix, D: Matrix {
    type Output = crate::add::Add<A, crate::add::Add<B, crate::mul::Mul<C, D>>>;

    fn add(self, rhs: crate::mul::Mul<C, D>) -> (sum: crate::add::Add<A, crate::add::Add<B, crate::mul::Mul<C, D>>>)
        ensures
            sum == crate::add::Add(self.0, crate::add::Add(self.1, rhs)),
    {
        crate::add::Add(self.0, crate::add::Add(self.1, rhs))
    }
}

impl<A, B, C, D> vstd::std_specs::ops::AddSpecImpl<crate::mul::Mul<C, D>> for crate::add::Add<A, B> where B: Matrix, D: Matrix {
    open spec fn obeys_add_spec() -> bool {
        true
    }

    open spec fn add_req(self, rhs: crate::mul::Mul<C, D>) -> bool {
        true
    }

    open spec fn add_spec(self, rhs: crate::mul::Mul<C, D>) -> crate::add::Add<A, crate::add::Add<B, crate::mul::Mul<C, D>>> {
        crate::add::Add(self.0, crate::add::Add(self.1, rhs))
    }
}

} // verus!
