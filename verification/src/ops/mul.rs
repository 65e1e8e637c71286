//! The `*` operator on expression nodes.

use crate::mapped::Mapped;
use crate::traits::UnsafeGet;
use vstd::prelude::*;

verus! {

/// A mapped expression times a scalar, as in `x.map(f) * 2`, is
/// `Mul(2, x.map(f))`: the scalar moves to the left.
impl<F, A, B> std::ops::Mul<B> for Mapped<F, A> where B: UnsafeGet<Output = B> {
    type Output = crate::mul::Mul<B, Mapped<F, A>>;

    fn mul(self, rhs: B) -> (product: crate::mul::Mul<B, Mapped<F, A>>)
        ensures
            product == crate::mul::Mul(rhs, self),
    {
        crate::mul::Mul(rhs, self)
    }
}

impl<F, A, B> vstd::std_specs::ops::MulSpecImpl<B> for Mapped<F, A> where B: UnsafeGet<Output = B> {
    open spec fn obeys_mul_spec() -> bool {
        true
    }

    open spec fn mul_req(self, rhs: B) -> bool {
        true
    }

    open spec fn mul_spec(self, rhs: B) -> crate::mul::Mul<B, Mapped<F, A>> {
        crate::mul::Mul(rhs, self)
    }
}

} // verus!
