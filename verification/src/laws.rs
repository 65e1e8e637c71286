//! What holds of every expression, whatever its operands.

use crate::mapped::Mapped;
use crate::traits::{Flops, Matrix, UnsafeGet};
use vstd::prelude::*;
use vstd::std_specs::ops::{AddSpec, MulSpec};

verus! {

/// Shape propagation: a sum, a product and a mapped expression have the
/// shape of their shape-bearing operand, the right one of a sum or product.
/// The left operand, where a scalar stands, has no say in it.
pub proof fn lemma_shape_propagates<A, B: Matrix, F>(a: A, b: B, f: F)
    ensures
        crate::add::Add(a, b).rows() == b.rows(),
        crate::add::Add(a, b).cols() == b.cols(),
        crate::mul::Mul(a, b).rows() == b.rows(),
        crate::mul::Mul(a, b).cols() == b.cols(),
        Mapped(f, b).rows() == b.rows(),
        Mapped(f, b).cols() == b.cols(),
{
}

/// Cost additivity: a sum or a product costs one operation more than its
/// two operands together, a mapped expression one more than its operand.
pub proof fn lemma_cost_additive<A: Flops, B: Flops, F>()
    ensures
        crate::add::Add::<A, B>::cost() == A::cost() + B::cost() + 1,
        crate::mul::Mul::<A, B>::cost() == A::cost() + B::cost() + 1,
        Mapped::<F, A>::cost() == A::cost() + 1,
{
}

/// Canonical form of a sum of two products: `a * b + c * d` is the sum node
/// over the two product nodes, for any operands.
pub proof fn lemma_sum_of_products<A, B: Matrix, D, E: Matrix>(
    x: crate::mul::Mul<A, B>,
    y: crate::mul::Mul<D, E>,
)
    ensures
        x.add_req(y),
        <crate::mul::Mul<A, B> as AddSpec<crate::mul::Mul<D, E>>>::obeys_add_spec(),
        x.add_spec(y) == crate::add::Add(x, y),
{
}

/// Canonical form of a product added to a sum: `(a + b) + c * d` keeps `a`
/// outermost and joins the product to `b`, for any operands.
pub proof fn lemma_product_joins_sum<A, B: Matrix, C, D: Matrix>(
    x: crate::add::Add<A, B>,
    y: crate::mul::Mul<C, D>,
)
    ensures
        x.add_req(y),
        <crate::add::Add<A, B> as AddSpec<crate::mul::Mul<C, D>>>::obeys_add_spec(),
        x.add_spec(y) == crate::add::Add(x.0, crate::add::Add(x.1, y)),
{
}

/// Canonical form of a mapped expression times a scalar: the scalar becomes
/// the left operand of the product.
pub proof fn lemma_scalar_moves_left<F, A, B: UnsafeGet<Output = B>>(x: Mapped<F, A>, k: B)
    ensures
        x.mul_req(k),
        <Mapped<F, A> as MulSpec<B>>::obeys_mul_spec(),
        x.mul_spec(k) == crate::mul::Mul(k, x),
{
}

/// A sum is evaluated by plain addition: where each operand yields one value
/// only at `(i, j)`, and the element type's `+` is specified, the sum yields
/// the sum of those two values and nothing else.
pub proof fn lemma_sum_is_pointwise<A, B>(
    e: crate::add::Add<A, B>,
    i: int,
    j: int,
    a: A::Output,
    b: B::Output,
    v: <A::Output as core::ops::Add<B::Output>>::Output,
) where A: UnsafeGet, B: UnsafeGet, A::Output: core::ops::Add<B::Output>
    requires
        forall|x: A::Output| e.0.yields(i, j, x) ==> x == a,
        forall|y: B::Output| e.1.yields(i, j, y) ==> y == b,
        <A::Output as AddSpec<B::Output>>::obeys_add_spec(),
        e.yields(i, j, v),
    ensures
        v == a.add_spec(b),
{
}

/// A product is evaluated by plain multiplication: where each operand yields
/// one value only at `(i, j)`, and the element type's `*` is specified, the
/// product yields the product of those two values and nothing else.
pub proof fn lemma_product_is_pointwise<A, B>(
    e: crate::mul::Mul<A, B>,
    i: int,
    j: int,
    a: A::Output,
    b: B::Output,
    v: <A::Output as core::ops::Mul<B::Output>>::Output,
) where A: UnsafeGet, B: UnsafeGet, A::Output: core::ops::Mul<B::Output>
    requires
        forall|x: A::Output| e.0.yields(i, j, x) ==> x == a,
        forall|y: B::Output| e.1.yields(i, j, y) ==> y == b,
        <A::Output as MulSpec<B::Output>>::obeys_mul_spec(),
        e.yields(i, j, v),
    ensures
        v == a.mul_spec(b),
{
}

/// A mapped expression is evaluated by applying the function: where the
/// operand yields one value only at `(i, j)`, the mapped expression yields
/// results of the function on that value and nothing else.
pub proof fn lemma_mapped_is_pointwise<F, M, O>(e: Mapped<F, M>, i: int, j: int, x: M::Output, v: O) where
    M: UnsafeGet,
    F: Fn(M::Output) -> O,

    requires
        forall|y: M::Output| e.1.yields(i, j, y) ==> y == x,
        e.yields(i, j, v),
    ensures
        call_ensures(e.0, (x,), v),
{
}

} // verus!
