//! Row-major layout: element `(i, j)` of a matrix with `cols` columns lives at
//! offset `i * cols + j` of its buffer.

use vstd::prelude::*;

verus! {

/// Offset of the coordinate `(i, j)` in a row-major buffer with `cols` columns.
pub open spec fn offset(i: int, j: int, cols: int) -> int {
    i * cols + j
}

/// A coordinate inside a `rows` by `cols` shape has its offset inside a
/// buffer of `rows * cols` elements.
pub proof fn lemma_offset_in_bounds(i: int, j: int, rows: int, cols: int)
    requires
        0 <= i < rows,
        0 <= j < cols,
    ensures
        0 <= offset(i, j, cols) < rows * cols,
{
    assert(0 <= i * cols) by (nonlinear_arith)
        requires
            0 <= i,
            0 <= cols,
    ;
    assert((i + 1) * cols <= rows * cols) by (nonlinear_arith)
        requires
            i + 1 <= rows,
            0 <= cols,
    ;
    assert((i + 1) * cols == i * cols + cols) by (nonlinear_arith);
}

/// The offset of a coordinate determines the coordinate: the row is the
/// quotient and the column the remainder of the division by `cols`.
pub proof fn lemma_offset_unique(i: int, j: int, cols: int)
    requires
        0 <= i,
        0 <= j < cols,
    ensures
        offset(i, j, cols) / cols == i,
        offset(i, j, cols) % cols == j,
{
    vstd::arithmetic::div_mod::lemma_fundamental_div_mod_converse(offset(i, j, cols), cols, i, j);
}

} // verus!
