//! Checked conversions between the index width (`u32`) and the platform's
//! size type, delegated to the `cast` crate.

use vstd::prelude::*;

verus! {

/// The error type of the `cast` crate, carried through unopened.
#[verifier::external_type_specification]
#[verifier::external_body]
pub struct ExCastError(cast::Error);

/// Calls `cast::usize` on a `u32`. Every `u32` fits the size type, so the
/// conversion is a plain widening and the result equals the argument.
#[verifier::external_body]
pub(crate) fn usize_from(x: u32) -> (r: usize)
    ensures
        r == x,
{
    cast::usize(x)
}

/// Calls `cast::u32` on a `usize`. The crate answers `Ok` with the same
/// number when it is at most `u32::MAX`, and an error otherwise.
#[verifier::external_body]
pub(crate) fn u32_from(x: usize) -> (r: Result<u32, cast::Error>)
    ensures
        r is Ok <==> x <= u32::MAX,
        r is Ok ==> r->Ok_0 == x,
{
    cast::u32(x)
}

} // verus!
