use linalg::{Col, Failure, Flops, Mat, MatRef, Matrix, One, UnsafeGet, Zero};

#[test]
fn from_elem_fills_every_element() {
    let m = Mat::from_elem((2, 3), 7u16).unwrap();
    assert_eq!(m.nrows(), 2);
    assert_eq!(m.ncols(), 3);
    assert_eq!(m.size(), (2, 3));
    assert_eq!(m.nelems(), 6);
    assert_eq!(m.as_ref(), &[7u16; 6][..]);
    let text = Mat::from_elem((1, 2), String::from("x")).unwrap();
    assert_eq!(text.unsafe_get((0, 1)), "x");
}

#[test]
fn from_elem_with_no_elements() {
    let m = Mat::from_elem((0, 3), 7u16).unwrap();
    assert_eq!(m.size(), (0, 3));
    assert_eq!(m.nelems(), 0);
    let m = Mat::from_elem((3, 0), 7u16).unwrap();
    assert_eq!(m.size(), (3, 0));
    assert_eq!(m.as_ref().len(), 0);
}

#[test]
fn from_fn_is_row_major() {
    let m = Mat::from_fn((2, 3), |(i, j)| 10 * i + j).unwrap();
    assert_eq!(m.as_ref(), &[0, 1, 2, 10, 11, 12][..]);
    assert_eq!(m.unsafe_get((0, 0)), 0);
    assert_eq!(m.unsafe_get((0, 2)), 2);
    assert_eq!(m.unsafe_get((1, 0)), 10);
    assert_eq!(m.unsafe_get((1, 2)), 12);
}

#[test]
fn zeros_and_ones() {
    let z: Mat<i32> = Mat::zeros((2, 2)).unwrap();
    assert_eq!(z.as_ref(), &[0, 0, 0, 0][..]);
    let o: Mat<u8> = Mat::ones((3, 1)).unwrap();
    assert_eq!(o.as_ref(), &[1, 1, 1][..]);
    assert_eq!(o.size(), (3, 1));
    let c: Col<i64> = Col::zeros(3);
    assert_eq!(c.as_ref(), &[0, 0, 0][..]);
    assert_eq!(c.size(), (3, 1));
    assert_eq!(c.nelems(), 3);
}

#[test]
fn additive_and_multiplicative_identities() {
    assert_eq!(<i8 as Zero>::zero(), 0);
    assert_eq!(<i8 as One>::one(), 1);
    assert_eq!(<u64 as Zero>::zero(), 0);
    assert_eq!(<u64 as One>::one(), 1);
    assert_eq!(<isize as Zero>::zero(), 0);
    assert_eq!(<usize as One>::one(), 1);
}

#[test]
fn reshape_borrows_the_buffer() {
    let buf = [1u8, 2, 3, 4, 5, 6];
    let m: MatRef<u8> = Mat::reshape(&buf[..], (2, 3)).unwrap();
    assert_eq!(m.size(), (2, 3));
    assert_eq!(m.nelems(), 6);
    assert_eq!(m.unsafe_get((0, 0)), 1);
    assert_eq!(m.unsafe_get((1, 0)), 4);
    assert_eq!(m.unsafe_get((1, 2)), 6);
    assert_eq!(m.as_ref(), &buf[..]);
    let m = Mat::reshape(&buf[..], (3, 2)).unwrap();
    assert_eq!(m.unsafe_get((1, 0)), 3);
    assert_eq!(m.unsafe_get((2, 1)), 6);
    let m = Mat::reshape(&buf[..], (6, 1)).unwrap();
    assert_eq!(m.unsafe_get((5, 0)), 6);
    let nothing: [u8; 0] = [];
    assert!(Mat::reshape(&nothing[..], (0, 9)).is_ok());
}

#[test]
fn reshape_refuses_a_wrong_length() {
    let buf = [1u8, 2, 3, 4, 5, 6];
    assert!(matches!(Mat::reshape(&buf[..], (2, 2)), Err(Failure::SizeMismatch)));
    assert!(matches!(Mat::reshape(&buf[..], (4, 2)), Err(Failure::SizeMismatch)));
    assert!(matches!(Mat::reshape(&buf[..], (0, 0)), Err(Failure::SizeMismatch)));
    assert!(matches!(Mat::reshape(&buf[..], (u32::MAX, u32::MAX)), Err(Failure::SizeMismatch)));
}

#[test]
fn columns_of_a_matrix() {
    let m = Mat::from_fn((3, 4), |(i, j)| 10 * i + j).unwrap();
    let c = m.col(0);
    assert_eq!(c.size(), (3, 1));
    assert_eq!(c.nrows(), 3);
    assert_eq!(c.ncols(), 1);
    assert_eq!(c.nelems(), 3);
    assert_eq!(c.unsafe_get((0, 0)), 0);
    assert_eq!(c.unsafe_get((2, 0)), 20);
    let c = m.col(3);
    assert_eq!(c.unsafe_get((0, 0)), 3);
    assert_eq!(c.unsafe_get((1, 0)), 13);
    assert_eq!(c.unsafe_get((2, 0)), 23);
    let empty = Mat::from_elem((0, 2), 0u8).unwrap();
    assert_eq!(empty.col(1).size(), (0, 1));
}

#[test]
fn channels_of_an_interleaved_buffer() {
    let pixels = [10u8, 20, 30, 11, 21, 31, 12, 22, 32, 13, 23, 33];
    let rgb = Mat::reshape(&pixels[..], (4, 3)).unwrap();
    let (r, g, b) = (rgb.col(0), rgb.col(1), rgb.col(2));
    let mut out: Col<u8> = Col::zeros(4);
    assert_eq!(out.index_assign(&r), Ok(()));
    assert_eq!(out.as_ref(), &[10, 11, 12, 13][..]);
    assert_eq!(out.index_assign(&g), Ok(()));
    assert_eq!(out.as_ref(), &[20, 21, 22, 23][..]);
    assert_eq!(out.index_assign(&b), Ok(()));
    assert_eq!(out.as_ref(), &[30, 31, 32, 33][..]);
}

#[test]
fn dense_column_as_strided() {
    let mut c: Col<u32> = Col::zeros(3);
    c.as_mut()[1] = 5;
    c.iter_mut()[2] = 9;
    for x in c.iter_mut() {
        *x += 1;
    }
    assert_eq!(c.as_ref(), &[1, 6, 10][..]);
    assert_eq!(c.unsafe_get((1, 0)), 6);
    let s = c.as_strided();
    assert_eq!(s.size(), (3, 1));
    assert_eq!(s.unsafe_get((0, 0)), 1);
    assert_eq!(s.unsafe_get((2, 0)), 10);
}

#[test]
fn matrix_buffer_can_be_written_in_place() {
    let mut m: Mat<u32> = Mat::zeros((2, 2)).unwrap();
    m.as_mut()[3] = 4;
    assert_eq!(m.unsafe_get((1, 1)), 4);
    assert_eq!(m.size(), (2, 2));
}

#[test]
fn storage_costs_nothing() {
    assert_eq!(<Mat<u32> as Flops>::flops(), 0);
    assert_eq!(<MatRef<u32> as Flops>::flops(), 0);
    assert_eq!(<Col<u32> as Flops>::flops(), 0);
    assert_eq!(<linalg::strided::Col<u32> as Flops>::flops(), 0);
    assert_eq!(<u32 as Flops>::flops(), 0);
    assert_eq!(<i64 as Flops>::flops(), 0);
    assert_eq!(<&Mat<u32> as Flops>::flops(), 0);
}

#[test]
fn scalars_read_as_themselves() {
    assert_eq!(7u8.unsafe_get((0, 0)), 7);
    assert_eq!((-3i32).unsafe_get((1000, 2000)), -3);
    assert_eq!(usize::MAX.unsafe_get((u32::MAX, u32::MAX)), usize::MAX);
}

#[test]
fn references_forward_shape_and_elements() {
    let m = Mat::from_fn((2, 3), |(i, j)| i + j).unwrap();
    let r = &m;
    assert_eq!(Matrix::nrows(&r), 2);
    assert_eq!(Matrix::ncols(&r), 3);
    assert_eq!(Matrix::nelems(&r), 6);
    assert_eq!(Matrix::size(&r), (2, 3));
    assert_eq!(UnsafeGet::unsafe_get(&r, (1, 2)), 3);
}
