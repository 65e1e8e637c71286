//! How many hardware execution contexts the machine offers.

use vstd::prelude::*;

verus! {

/// Calls `num_cpus::get`. The answer depends on the machine and on the
/// moment of the call, so nothing is claimed about it.
#[verifier::external_body]
pub(crate) fn available() -> usize {
    num_cpus::get()
}

} // verus!
