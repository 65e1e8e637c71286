//! Lazy linear algebra: dense and strided containers, expression nodes that
//! defer element-wise work, and an assignment engine that evaluates an
//! expression into a destination, one element at a time.

pub mod add;
pub mod col;
mod convert;
pub mod error;
pub mod laws;
pub mod layout;
pub mod mapped;
pub mod mat;
pub mod mul;
pub mod ops;
pub mod scalar;
pub mod strided;
pub mod traits;
mod workers;

pub use crate::col::{Col, Slice};
pub use crate::error::Failure;
pub use crate::mapped::Mapped;
pub use crate::mat::{Mat, MatRef};
pub use crate::traits::{Flops, Matrix, One, UnsafeGet, Zero};
