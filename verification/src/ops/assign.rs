//! The assignment engine: writes every element of an expression into a
//! destination, in one pass or stripe by stripe.

use crate::col::Col;
use crate::convert::{u32_from, usize_from};
use crate::error::Failure;
use crate::layout::{lemma_offset_in_bounds, lemma_offset_unique, offset};
use crate::mat::Mat;
use crate::traits::{Flops, Matrix, UnsafeGet};
use crate::workers;
use vstd::prelude::*;

verus! {

/// Estimated operation count above which an assignment is split into stripes.
pub const THRESHOLD: usize = 1_000_000;

/// How an assignment is carried out.
#[derive(Clone, Copy, Debug, PartialEq, Eq, Structural)]
pub enum Plan {
    /// Every element is written in row-major order, in one pass.
    Serial,
    /// The rows are cut into horizontal stripes of `stripe` rows each, the
    /// last one possibly shorter, for at most `nthreads` workers.
    Parallel { nthreads: u32, stripe: u32 },
}

/// Estimated operations of a whole assignment: the cost of one element times
/// the number of elements.
pub open spec fn total_ops(cost: nat, rows: nat, cols: nat) -> nat {
    cost * (rows * cols)
}

/// Whether an assignment of `ops` estimated operations is split, given
/// `workers` execution contexts.
pub open spec fn splits(ops: nat, workers: nat) -> bool {
    ops > THRESHOLD && workers > 1
}

/// Number of workers asked for: one per full `THRESHOLD` of operations, and
/// no more than there are execution contexts.
pub open spec fn team(ops: nat, workers: nat) -> nat {
    if workers <= ops / (THRESHOLD as nat) {
        workers
    } else {
        ops / (THRESHOLD as nat)
    }
}

/// Rows per stripe when `rows` rows are shared among `team` workers: the
/// quotient rounded up.
pub open spec fn stripe_rows(rows: nat, team: nat) -> nat
    recommends
        rows >= 1,
        team >= 1,
{
    ((rows - 1) / (team as int) + 1) as nat
}

/// The plan for assigning an expression of per-element cost `cost` into a
/// destination of `rows` by `cols` elements with `workers` execution
/// contexts: `None` where the number of workers does not fit a `u32`.
pub open spec fn plan_of(cost: nat, rows: nat, cols: nat, workers: nat) -> Option<Plan> {
    let ops = total_ops(cost, rows, cols);
    if !splits(ops, workers) {
        Some(Plan::Serial)
    } else if team(ops, workers) > u32::MAX {
        None
    } else {
        Some(
            Plan::Parallel {
                nthreads: team(ops, workers) as u32,
                stripe: stripe_rows(rows, team(ops, workers)) as u32,
            },
        )
    }
}

/// Number of stripes of `stripe` rows each that `rows` rows are cut into.
pub open spec fn stripe_count(rows: nat, stripe: nat) -> nat {
    if rows == 0 {
        0
    } else {
        ((rows - 1) / (stripe as int) + 1) as nat
    }
}

/// First row of stripe `k`.
pub open spec fn stripe_start(k: nat, stripe: nat) -> nat {
    k * stripe
}

/// Row after the last row of stripe `k`.
pub open spec fn stripe_end(k: nat, stripe: nat, rows: nat) -> nat {
    if (k + 1) * stripe <= rows {
        (k + 1) * stripe
    } else {
        rows
    }
}

/// Whether row `r` belongs to stripe `k`.
pub open spec fn in_stripe(r: nat, k: nat, stripe: nat, rows: nat) -> bool {
    stripe_start(k, stripe) <= r < stripe_end(k, stripe, rows)
}

/// The stripes cover the rows exactly once. When `rows` rows are cut into
/// stripes of `stripe` rows, there is a stripe if and only if there is a row,
/// no stripe is empty, the first starts at row 0, each starts where the one
/// before it ends, the last ends at `rows`, and a row belongs to stripe `k`
/// if and only if `k` is the row divided by `stripe`.
pub proof fn lemma_stripes_partition(rows: nat, stripe: nat)
    requires
        stripe >= 1,
    ensures
        ({
            let n = stripe_count(rows, stripe);
            &&& n == 0 <==> rows == 0
            &&& stripe_start(0, stripe) == 0
            &&& n >= 1 ==> stripe_end((n - 1) as nat, stripe, rows) == rows
            &&& forall|k: nat|
                k < n ==> #[trigger] stripe_start(k, stripe) < stripe_end(k, stripe, rows)
            &&& forall|k: nat|
                k + 1 < n ==> #[trigger] stripe_end(k, stripe, rows) == stripe_start(k + 1, stripe)
            &&& forall|r: nat, k: nat|
                r < rows && k < n ==> (#[trigger] in_stripe(r, k, stripe, rows) <==> k == r
                    / stripe)
            &&& forall|r: nat| r < rows ==> #[trigger] (r / stripe) < n
        }),
{
    if rows >= 1 {
        let n = stripe_count(rows, stripe);
        let a = (rows - 1) as int;
        let s = stripe as int;
        vstd::arithmetic::div_mod::lemma_fundamental_div_mod(a, s);
        let q = a / s;
        assert(q * s <= a < (q + 1) * s) by (nonlinear_arith)
            requires
                a == s * q + a % s,
                0 <= a % s < s,
        ;
        assert forall|k: nat| k < n implies #[trigger] stripe_start(k, stripe) < stripe_end(
            k,
            stripe,
            rows,
        ) by {
            assert(k * s <= q * s) by (nonlinear_arith)
                requires
                    k <= q,
                    s >= 1,
            ;
            assert(k * s < (k + 1) * s) by (nonlinear_arith)
                requires
                    s >= 1,
            ;
        }
        assert forall|k: nat| k + 1 < n implies #[trigger] stripe_end(k, stripe, rows)
            == stripe_start(k + 1, stripe) by {
            assert((k + 1) * s <= q * s) by (nonlinear_arith)
                requires
                    k + 1 <= q,
                    s >= 1,
            ;
        }
        assert forall|r: nat, k: nat| r < rows && k < n implies (#[trigger] in_stripe(
            r,
            k,
            stripe,
            rows,
        ) <==> k == r / stripe) by {
            let ri = r as int;
            let ki = k as int;
            vstd::arithmetic::div_mod::lemma_fundamental_div_mod(ri, s);
            if ki == ri / s {
                assert(ki * s <= ri < (ki + 1) * s) by (nonlinear_arith)
                    requires
                        ri == s * (ri / s) + ri % s,
                        0 <= ri % s < s,
                        ki == ri / s,
                ;
            }
            if in_stripe(r, k, stripe, rows) {
                assert((ki + 1) * s == ki * s + s) by (nonlinear_arith);
                vstd::arithmetic::div_mod::lemma_fundamental_div_mod_converse(
                    ri,
                    s,
                    ki,
                    ri - ki * s,
                );
            }
        }
        assert forall|r: nat| r < rows implies #[trigger] (r / stripe) < n by {
            vstd::arithmetic::div_mod::lemma_div_is_ordered(r as int, a, s);
        }
    }
}

/// A split is sound. It is only planned for a destination with at least one
/// row; it asks for at least one worker and for stripes of one to `rows`
/// rows; and the stripes are no more than the workers.
pub proof fn lemma_split_is_sound(cost: nat, rows: nat, cols: nat, workers: nat)
    requires
        splits(total_ops(cost, rows, cols), workers),
    ensures
        ({
            let team = team(total_ops(cost, rows, cols), workers);
            &&& rows >= 1
            &&& team >= 1
            &&& 1 <= stripe_rows(rows, team) <= rows
            &&& 1 <= stripe_count(rows, stripe_rows(rows, team)) <= team
        }),
{
    let ops = total_ops(cost, rows, cols);
    assert(rows >= 1) by (nonlinear_arith)
        requires
            cost * (rows * cols) > 0,
    ;
    let t = team(ops, workers) as int;
    let s = stripe_rows(rows, team(ops, workers)) as int;
    let a = (rows - 1) as int;
    vstd::arithmetic::div_mod::lemma_fundamental_div_mod(a, t);
    assert(a / t <= a);
    // the stripes together are at least as tall as the destination
    assert(s * t >= rows) by (nonlinear_arith)
        requires
            a == t * (a / t) + a % t,
            0 <= a % t < t,
            s == a / t + 1,
            rows == a + 1,
    ;
    vstd::arithmetic::div_mod::lemma_fundamental_div_mod(a, s);
    let q = a / s;
    assert(q < t) by (nonlinear_arith)
        requires
            a == s * q + a % s,
            0 <= a % s,
            s * t >= a + 1,
            s >= 1,
            q >= 0,
    ;
}

/// Decides how to assign an expression of per-element cost `cost` into a
/// destination of shape `size`, given `workers` execution contexts.
pub fn plan(cost: usize, size: (u32, u32), workers: usize) -> (r: Result<Plan, Failure>)
    ensures
        r is Ok <==> plan_of(cost as nat, size.0 as nat, size.1 as nat, workers as nat) is Some,
        r is Ok ==> Some(r->Ok_0) == plan_of(
            cost as nat,
            size.0 as nat,
            size.1 as nat,
            workers as nat,
        ),
        r is Err ==> r->Err_0 == Failure::Conversion,
{
    let (nrows, ncols) = size;
    proof {
        assert(nrows * ncols <= 0xffff_ffff * 0xffff_ffff) by (nonlinear_arith)
            requires
                0 <= nrows <= 0xffff_ffff,
                0 <= ncols <= 0xffff_ffff,
        ;
        assert(cost * (nrows * ncols) <= 0xffff_ffff_ffff_ffff * (0xffff_ffff * 0xffff_ffff))
            by (nonlinear_arith)
            requires
                0 <= cost <= 0xffff_ffff_ffff_ffff,
                0 <= nrows * ncols <= 0xffff_ffff * 0xffff_ffff,
        ;
    }
    let nelems: u128 = (nrows as u128) * (ncols as u128);
    let nflops: u128 = (cost as u128) * nelems;
    if nflops > THRESHOLD as u128 && workers > 1 {
        let quota: u128 = nflops / (THRESHOLD as u128);
        let team: usize = if workers as u128 <= quota {
            workers
        } else {
            quota as usize
        };
        let nthreads = match u32_from(team) {
            Ok(n) => n,
            Err(_) => {
                return Err(Failure::Conversion);
            },
        };
        assert(nrows >= 1) by (nonlinear_arith)
            requires
                cost * (nrows * ncols) > 0,
                nrows >= 0,
        ;
        // rows per horizontal stripe
        let stripe = (nrows - 1) / nthreads + 1;
        Ok(Plan::Parallel { nthreads, stripe })
    } else {
        Ok(Plan::Serial)
    }
}

/// Writes `nrows` whole rows of `rhs`, starting at its row `first_row`, into
/// `dst` in row-major order: the work of one worker on its stripe.
pub fn fill_rows<T, R>(dst: &mut [T], rhs: &R, first_row: u32, nrows: u32, ncols: u32) where
    R: UnsafeGet<Output = T>,

    requires
        old(dst)@.len() == nrows * ncols,
        first_row + nrows <= u32::MAX,
        forall|r: int, j: int|
            0 <= r < nrows && 0 <= j < ncols ==> #[trigger] rhs.readable(first_row + r, j),
    ensures
        final(dst)@.len() == old(dst)@.len(),
        forall|r: int, j: int|
            0 <= r < nrows && 0 <= j < ncols ==> rhs.yields(
                first_row + r,
                j,
                final(dst)@[#[trigger] offset(r, j, ncols as int)],
            ),
{
    let mut r: u32 = 0;
    let mut k: usize = 0;
    while r < nrows
        invariant
            r <= nrows,
            first_row + nrows <= u32::MAX,
            k == r * ncols,
            dst@.len() == nrows * ncols,
            forall|r: int, j: int|
                0 <= r < nrows && 0 <= j < ncols ==> #[trigger] rhs.readable(first_row + r, j),
            forall|p: int, q: int|
                0 <= p < r && 0 <= q < ncols ==> rhs.yields(
                    first_row + p,
                    q,
                    dst@[#[trigger] offset(p, q, ncols as int)],
                ),
        decreases nrows - r,
    {
        let mut j: u32 = 0;
        while j < ncols
            invariant
                r < nrows,
                j <= ncols,
                first_row + nrows <= u32::MAX,
                k == r * ncols + j,
                dst@.len() == nrows * ncols,
                forall|r: int, j: int|
                    0 <= r < nrows && 0 <= j < ncols ==> #[trigger] rhs.readable(first_row + r, j),
                forall|p: int, q: int|
                    (0 <= p < r && 0 <= q < ncols) || (p == r && 0 <= q < j) ==> rhs.yields(
                        first_row + p,
                        q,
                        dst@[#[trigger] offset(p, q, ncols as int)],
                    ),
            decreases ncols - j,
        {
            proof {
                lemma_offset_in_bounds(r as int, j as int, nrows as int, ncols as int);
            }
            let v = rhs.unsafe_get((first_row + r, j));
            dst[k] = v;
            proof {
                assert forall|p: int, q: int|
                    (0 <= p < r && 0 <= q < ncols) || (p == r && 0 <= q < j + 1) implies rhs.yields(
                    first_row + p,
                    q,
                    dst@[#[trigger] offset(p, q, ncols as int)],
                ) by {
                    lemma_offset_unique(p, q, ncols as int);
                    lemma_offset_unique(r as int, j as int, ncols as int);
                    if !(p == r && q == j) {
                        lemma_offset_in_bounds(p, q, nrows as int, ncols as int);
                    }
                }
            }
            j = j + 1;
            k = k + 1;
        }
        proof {
            assert((r + 1) * ncols == r * ncols + ncols) by (nonlinear_arith);
        }
        r = r + 1;
    }
}

/// Writes every element of `rhs` into `dst`, a row-major buffer of shape
/// `size`, one stripe of `stripe` rows after the other.
pub fn fill_stripes<T, R>(dst: &mut [T], rhs: &R, size: (u32, u32), stripe: u32) where
    R: UnsafeGet<Output = T>,

    requires
        old(dst)@.len() == size.0 * size.1,
        stripe >= 1,
        forall|i: int, j: int|
            0 <= i < size.0 && 0 <= j < size.1 ==> #[trigger] rhs.readable(i, j),
    ensures
        final(dst)@.len() == old(dst)@.len(),
        forall|i: int, j: int|
            0 <= i < size.0 && 0 <= j < size.1 ==> rhs.yields(
                i,
                j,
                final(dst)@[#[trigger] offset(i, j, size.1 as int)],
            ),
{
    let (nrows, ncols) = size;
    let mut first: u32 = 0;
    while first < nrows
        invariant
            first <= nrows,
            stripe >= 1,
            dst@.len() == nrows * ncols,
            forall|i: int, j: int|
                0 <= i < nrows && 0 <= j < ncols ==> #[trigger] rhs.readable(i, j),
            forall|i: int, j: int|
                0 <= i < first && 0 <= j < ncols ==> rhs.yields(
                    i,
                    j,
                    dst@[#[trigger] offset(i, j, ncols as int)],
                ),
        decreases nrows - first,
    {
        let here = if nrows - first < stripe {
            nrows - first
        } else {
            stripe
        };
        proof {
            assert(first * ncols + here * ncols == (first + here) * ncols) by (nonlinear_arith);
            assert((first + here) * ncols <= nrows * ncols) by (nonlinear_arith)
                requires
                    first + here <= nrows,
            ;
            assert(dst@.len() == dst.len());
        }
        let lo = usize_from(first) * usize_from(ncols);
        let len = usize_from(here) * usize_from(ncols);
        let (_, tail) = dst.split_at_mut(lo);
        let (chunk, _) = tail.split_at_mut(len);
        fill_rows(chunk, rhs, first, here, ncols);
        proof {
            assert forall|i: int, j: int| 0 <= i < first + here && 0 <= j < ncols implies rhs.yields(
                i,
                j,
                dst@[#[trigger] offset(i, j, ncols as int)],
            ) by {
                if i < first {
                    lemma_offset_in_bounds(i, j, first as int, ncols as int);
                } else {
                    lemma_offset_in_bounds(i - first, j, here as int, ncols as int);
                    assert(offset(i, j, ncols as int) == lo + offset(i - first, j, ncols as int))
                        by (nonlinear_arith)
                        requires
                            lo == first * ncols,
                    ;
                    assert(rhs.yields(
                        first + (i - first),
                        j,
                        chunk@[offset(i - first, j, ncols as int)],
                    ));
                }
            }
        }
        first = first + here;
    }
}

/// Whether an expression has the shape `size`.
pub open spec fn has_shape<R: Matrix>(rhs: &R, size: (u32, u32)) -> bool {
    rhs.rows() == size.0 && rhs.cols() == size.1
}

/// Overwrites `dst`, a row-major buffer of shape `size`, with the elements
/// of `rhs`, given `workers` execution contexts. The shapes are compared
/// before anything is written; a refused assignment leaves `dst` as it was.
pub fn assign<T, R>(dst: &mut [T], size: (u32, u32), rhs: &R, workers: usize) -> (r: Result<
    (),
    Failure,
>) where R: Flops + Matrix + UnsafeGet<Output = T>
    requires
        old(dst)@.len() == size.0 * size.1,
        R::cost() <= usize::MAX,
        has_shape(rhs, size) ==> forall|i: int, j: int|
            0 <= i < size.0 && 0 <= j < size.1 ==> #[trigger] rhs.readable(i, j),
    ensures
        final(dst)@.len() == old(dst)@.len(),
        !has_shape(rhs, size) ==> r == Err::<(), Failure>(Failure::ShapeMismatch),
        has_shape(rhs, size) ==> (r is Ok <==> plan_of(
            R::cost(),
            size.0 as nat,
            size.1 as nat,
            workers as nat,
        ) is Some),
        has_shape(rhs, size) && r is Err ==> r == Err::<(), Failure>(Failure::Conversion),
        r is Err ==> final(dst)@ == old(dst)@,
        r is Ok ==> forall|i: int, j: int|
            0 <= i < size.0 && 0 <= j < size.1 ==> rhs.yields(
                i,
                j,
                final(dst)@[#[trigger] offset(i, j, size.1 as int)],
            ),
{
    let (nrows, ncols) = size;
    let found = rhs.size();
    if found.0 != nrows || found.1 != ncols {
        return Err(Failure::ShapeMismatch);
    }
    match plan(R::flops(), size, workers) {
        Err(e) => Err(e),
        Ok(Plan::Serial) => {
            fill_rows(dst, rhs, 0, nrows, ncols);
            Ok(())
        },
        Ok(Plan::Parallel { nthreads, stripe }) => {
            proof {
                lemma_split_is_sound(R::cost(), nrows as nat, ncols as nat, workers as nat);
            }
            fill_stripes(dst, rhs, size, stripe);
            Ok(())
        },
    }
}

impl<T> Mat<T> {
    /// Overwrites every element of this matrix with the element of `rhs` at
    /// the same coordinate: `self[..] = rhs`. A large assignment is split
    /// into stripes when the machine offers more than one execution context.
    /// The stripes are written one after the other, on the calling thread; a
    /// caller that wants a thread per stripe takes the `plan` and hands each
    /// stripe to `fill_rows`.
    pub fn index_assign<R>(&mut self, rhs: R) -> (r: Result<(), Failure>) where
        R: Flops + Matrix + UnsafeGet<Output = T>,

        requires
            old(self).wf(),
            R::cost() <= usize::MAX,
            rhs.rows() == old(self).rows() && rhs.cols() == old(self).cols() ==> forall|
                i: int,
                j: int,
            |
                0 <= i < rhs.rows() && 0 <= j < rhs.cols() ==> #[trigger] rhs.readable(i, j),
        ensures
            final(self).wf(),
            final(self).rows() == old(self).rows(),
            final(self).cols() == old(self).cols(),
            rhs.rows() != old(self).rows() || rhs.cols() != old(self).cols() ==> r == Err::<
                (),
                Failure,
            >(Failure::ShapeMismatch),
            rhs.rows() == old(self).rows() && rhs.cols() == old(self).cols() && total_ops(
                R::cost(),
                rhs.rows(),
                rhs.cols(),
            ) / (THRESHOLD as nat) <= u32::MAX ==> r is Ok,
            rhs.rows() == old(self).rows() && rhs.cols() == old(self).cols() && r is Err ==> r
                == Err::<(), Failure>(Failure::Conversion),
            r is Err ==> final(self).elems() == old(self).elems(),
            r is Ok ==> forall|i: int, j: int|
                0 <= i < rhs.rows() && 0 <= j < rhs.cols() ==> rhs.yields(
                    i,
                    j,
                    #[trigger] final(self).at(i, j),
                ),
    {
        let workers = workers::available();
        self.index_assign_with(rhs, workers)
    }

    /// `index_assign` for a given number of execution contexts.
    pub fn index_assign_with<R>(&mut self, rhs: R, workers: usize) -> (r: Result<
        (),
        Failure,
    >) where R: Flops + Matrix + UnsafeGet<Output = T>
        requires
            old(self).wf(),
            R::cost() <= usize::MAX,
            rhs.rows() == old(self).rows() && rhs.cols() == old(self).cols() ==> forall|
                i: int,
                j: int,
            |
                0 <= i < rhs.rows() && 0 <= j < rhs.cols() ==> #[trigger] rhs.readable(i, j),
        ensures
            final(self).wf(),
            final(self).rows() == old(self).rows(),
            final(self).cols() == old(self).cols(),
            rhs.rows() != old(self).rows() || rhs.cols() != old(self).cols() ==> r == Err::<
                (),
                Failure,
            >(Failure::ShapeMismatch),
            rhs.rows() == old(self).rows() && rhs.cols() == old(self).cols() ==> (r is Ok
                <==> plan_of(R::cost(), rhs.rows(), rhs.cols(), workers as nat) is Some),
            rhs.rows() == old(self).rows() && rhs.cols() == old(self).cols() && r is Err ==> r
                == Err::<(), Failure>(Failure::Conversion),
            r is Err ==> final(self).elems() == old(self).elems(),
            r is Ok ==> forall|i: int, j: int|
                0 <= i < rhs.rows() && 0 <= j < rhs.cols() ==> rhs.yields(
                    i,
                    j,
                    #[trigger] final(self).at(i, j),
                ),
    {
        let size = self.size();
        let dst = self.as_mut();
        assign(dst, size, &rhs, workers)
    }
}

impl<T> Col<T> {
    /// Overwrites every element of this column with the element of `rhs` at
    /// the same row: `self[..] = rhs`. A large assignment is split into
    /// stripes when the machine offers more than one execution context. The
    /// stripes are written one after the other, on the calling thread.
    pub fn index_assign<R>(&mut self, rhs: R) -> (r: Result<(), Failure>) where
        R: Flops + Matrix + UnsafeGet<Output = T>,

        requires
            old(self).wf(),
            R::cost() <= usize::MAX,
            rhs.rows() == old(self).rows() && rhs.cols() == 1 ==> forall|i: int|
                0 <= i < rhs.rows() ==> #[trigger] rhs.readable(i, 0),
        ensures
            final(self).wf(),
            final(self).rows() == old(self).rows(),
            rhs.rows() != old(self).rows() || rhs.cols() != 1 ==> r == Err::<(), Failure>(
                Failure::ShapeMismatch,
            ),
            rhs.rows() == old(self).rows() && rhs.cols() == 1 && total_ops(
                R::cost(),
                rhs.rows(),
                1,
            ) / (THRESHOLD as nat) <= u32::MAX ==> r is Ok,
            rhs.rows() == old(self).rows() && rhs.cols() == 1 && r is Err ==> r == Err::<
                (),
                Failure,
            >(Failure::Conversion),
            r is Err ==> final(self).elems() == old(self).elems(),
            r is Ok ==> forall|i: int|
                0 <= i < rhs.rows() ==> rhs.yields(i, 0, #[trigger] final(self).at(i)),
    {
        let workers = workers::available();
        self.index_assign_with(rhs, workers)
    }

    /// `index_assign` for a given number of execution contexts.
    pub fn index_assign_with<R>(&mut self, rhs: R, workers: usize) -> (r: Result<
        (),
        Failure,
    >) where R: Flops + Matrix + UnsafeGet<Output = T>
        requires
            old(self).wf(),
            R::cost() <= usize::MAX,
            rhs.rows() == old(self).rows() && rhs.cols() == 1 ==> forall|i: int|
                0 <= i < rhs.rows() ==> #[trigger] rhs.readable(i, 0),
        ensures
            final(self).wf(),
            final(self).rows() == old(self).rows(),
            rhs.rows() != old(self).rows() || rhs.cols() != 1 ==> r == Err::<(), Failure>(
                Failure::ShapeMismatch,
            ),
            rhs.rows() == old(self).rows() && rhs.cols() == 1 ==> (r is Ok <==> plan_of(
                R::cost(),
                rhs.rows(),
                1,
                workers as nat,
            ) is Some),
            rhs.rows() == old(self).rows() && rhs.cols() == 1 && r is Err ==> r == Err::<
                (),
                Failure,
            >(Failure::Conversion),
            r is Err ==> final(self).elems() == old(self).elems(),
            r is Ok ==> forall|i: int|
                0 <= i < rhs.rows() ==> rhs.yields(i, 0, #[trigger] final(self).at(i)),
    {
        let size = self.size();
        let dst = self.as_mut();
        let r = assign(dst, size, &rhs, workers);
        proof {
            if r is Ok {
                assert forall|i: int| 0 <= i < rhs.rows() implies rhs.yields(
                    i,
                    0,
                    #[trigger] self.at(i),
                ) by {
                    assert(offset(i, 0, 1) == i);
                }
            }
        }
        r
    }
}

} // verus!
