//! "Strided" data structures: views whose consecutive entries lie a fixed
//! number of elements apart in the storage they borrow.

pub mod col;

pub use crate::strided::col::Col;
