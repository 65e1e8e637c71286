//! The conditions under which an operation of this crate is refused.

use vstd::prelude::*;

verus! {

/// Why an operation did not take place.
#[derive(Clone, Copy, Debug, PartialEq, Eq, Structural)]
pub enum Failure {
    /// Source and destination of an assignment have different shapes.
    ShapeMismatch,
    /// The requested dimensions describe more elements than can be addressed.
    SizeOverflow,
    /// A flat buffer does not hold exactly `rows * cols` elements.
    SizeMismatch,
    /// An integer did not fit the width it had to be converted to.
    Conversion,
}

} // verus!
