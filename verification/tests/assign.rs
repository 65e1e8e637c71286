use linalg::ops::assign::{assign, fill_rows, fill_stripes};
use linalg::{Col, Failure, Mapped, Mat, Matrix};

fn column(values: &[u32]) -> Col<u32> {
    let mut c: Col<u32> = Col::zeros(values.len() as u32);
    for (dst, v) in c.iter_mut().iter_mut().zip(values) {
        *dst = *v;
    }
    c
}

#[test]
fn product_of_filled_matrices() {
    let a = Mat::from_elem((4, 3), 2.0f64).unwrap();
    let b = Mat::from_elem((4, 3), 3.0f64).unwrap();
    let mut d = Mat::from_elem((4, 3), 0.0f64).unwrap();
    assert_eq!(d.index_assign(linalg::mul::Mul(&a, &b)), Ok(()));
    assert_eq!(d.size(), (4, 3));
    assert_eq!(d.as_ref().len(), 12);
    assert!(d.as_ref().iter().all(|x| *x == 6.0));
}

#[test]
fn product_of_integer_matrices() {
    let a = Mat::from_elem((4, 3), 2u32).unwrap();
    let b = Mat::from_elem((4, 3), 3u32).unwrap();
    let mut d: Mat<u32> = Mat::zeros((4, 3)).unwrap();
    assert_eq!(d.index_assign(linalg::mul::Mul(&a, &b)), Ok(()));
    assert_eq!(d.as_ref(), &[6u32; 12][..]);
}

#[test]
fn squares_of_a_column() {
    let src = column(&[1, 2, 3, 4]);
    let mut dst: Col<u32> = Col::zeros(4);
    assert_eq!(dst.index_assign(src.map(|x| x * x)), Ok(()));
    assert_eq!(dst.as_ref(), &[1, 4, 9, 16][..]);
}

#[test]
fn shape_mismatch_is_reported() {
    let e = Mat::from_elem((2, 3), 7i64).unwrap();
    let mut d = Mat::from_elem((3, 2), 1i64).unwrap();
    assert_eq!(d.index_assign(&e), Err(Failure::ShapeMismatch));
    assert_eq!(d.as_ref(), &[1i64; 6][..]);
    assert_eq!(d.size(), (3, 2));
}

#[test]
fn shape_mismatch_in_one_dimension() {
    let e = Mat::from_elem((3, 3), 7i64).unwrap();
    let mut d = Mat::from_elem((3, 2), 1i64).unwrap();
    assert_eq!(d.index_assign_with(&e, 1), Err(Failure::ShapeMismatch));
    let e = Mat::from_elem((2, 2), 7i64).unwrap();
    assert_eq!(d.index_assign_with(&e, 8), Err(Failure::ShapeMismatch));
    assert_eq!(d.as_ref(), &[1i64; 6][..]);
}

#[test]
fn column_refuses_a_matrix_of_two_columns() {
    let e = Mat::from_elem((4, 2), 7u32).unwrap();
    let mut d: Col<u32> = Col::zeros(4);
    assert_eq!(d.index_assign(&e), Err(Failure::ShapeMismatch));
    assert_eq!(d.as_ref(), &[0, 0, 0, 0][..]);
    let short = column(&[1, 2, 3]);
    assert_eq!(d.index_assign_with(&short, 4), Err(Failure::ShapeMismatch));
    assert_eq!(d.as_ref(), &[0, 0, 0, 0][..]);
}

#[test]
fn matrix_copies_a_matrix() {
    let e = Mat::from_fn((3, 4), |(i, j)| 10 * i + j).unwrap();
    let mut d: Mat<u32> = Mat::zeros((3, 4)).unwrap();
    assert_eq!(d.index_assign(&e), Ok(()));
    assert_eq!(d.as_ref(), &[0, 1, 2, 3, 10, 11, 12, 13, 20, 21, 22, 23][..]);
}

#[test]
fn empty_destinations_are_assigned() {
    let e = Mat::from_elem((0, 5), 1u8).unwrap();
    let mut d: Mat<u8> = Mat::zeros((0, 5)).unwrap();
    assert_eq!(d.index_assign(&e), Ok(()));
    let e = Mat::from_elem((5, 0), 1u8).unwrap();
    let mut d: Mat<u8> = Mat::zeros((5, 0)).unwrap();
    assert_eq!(d.index_assign(&e), Ok(()));
    assert_eq!(d.as_ref().len(), 0);
    let mut c: Col<u8> = Col::zeros(0);
    let src: Col<u8> = Col::zeros(0);
    assert_eq!(c.index_assign(&src), Ok(()));
}

#[test]
fn split_and_serial_assignments_agree() {
    // cost 3 on 700 x 1000 elements: 2_100_000 estimated operations
    let a = Mat::from_fn((700, 1000), |(i, j)| (i + j) as u64).unwrap();
    let b = Mat::from_fn((700, 1000), |(i, j)| (i * j) as u64).unwrap();
    let mut serial: Mat<u64> = Mat::zeros((700, 1000)).unwrap();
    let mut split: Mat<u64> = Mat::zeros((700, 1000)).unwrap();
    let two = 2u64;
    let three = 3u64;
    let e = linalg::add::Add(linalg::mul::Mul(two, &a), linalg::mul::Mul(three, &b));
    assert_eq!(serial.index_assign_with(&e, 1), Ok(()));
    assert_eq!(split.index_assign_with(&e, 4), Ok(()));
    assert_eq!(serial.as_ref(), split.as_ref());
    assert_eq!(split.as_ref()[0], 0);
    assert_eq!(split.as_ref()[1000 * 349 + 7], 2 * (349 + 7) + 3 * (349 * 7));
    assert_eq!(split.as_ref()[1000 * 350 + 999], 2 * (350 + 999) + 3 * (350 * 999));
    assert_eq!(split.as_ref()[1000 * 699 + 999], 2 * (699 + 999) + 3 * (699 * 999));
}

#[test]
fn split_column_assignment() {
    let src = {
        let mut c: Col<u32> = Col::zeros(1_500_001);
        for (i, dst) in c.iter_mut().iter_mut().enumerate() {
            *dst = i as u32;
        }
        c
    };
    let mut dst: Col<u32> = Col::zeros(1_500_001);
    // cost 2, 3_000_002 estimated operations, three workers, stripes of 500_001 rows
    let e = Mapped(|x| x / 2, src.map(|x| x + 1));
    assert_eq!(dst.index_assign_with(e, 16), Ok(()));
    let got = dst.as_ref();
    assert_eq!(got[0], 0);
    assert_eq!(got[500_000], 250_000);
    assert_eq!(got[500_001], 250_001);
    assert_eq!(got[1_000_002], 500_001);
    assert_eq!(got[1_500_000], 750_000);
    assert!(got.iter().enumerate().all(|(i, v)| *v == (i as u32 + 1) / 2));
}

#[test]
fn engine_assigns_into_a_buffer() {
    let src = column(&[5, 6, 7]);
    let mut buf = [9u32, 9, 9];
    assert_eq!(assign(&mut buf[..], (3, 1), &&src, usize::MAX), Ok(()));
    assert_eq!(buf, [5, 6, 7]);
    let mut buf = [9u32, 9, 9];
    assert_eq!(assign(&mut buf[..], (1, 3), &&src, 2), Err(Failure::ShapeMismatch));
    assert_eq!(buf, [9, 9, 9]);
    let empty = Mat::from_elem((0, 0), 0u32).unwrap();
    assert_eq!(assign(&mut buf[..0], (0, 0), &&empty, usize::MAX), Ok(()));
    assert_eq!(buf, [9, 9, 9]);
}

#[test]
fn worker_fills_its_stripe() {
    let e = Mat::from_fn((5, 3), |(i, j)| 10 * i + j).unwrap();
    let mut dst = [0u32; 6];
    fill_rows(&mut dst[..], &&e, 2, 2, 3);
    assert_eq!(dst, [20, 21, 22, 30, 31, 32]);
    let mut none: [u32; 0] = [];
    fill_rows(&mut none[..], &&e, 5, 0, 3);
    fill_rows(&mut none[..], &&e, 0, 5, 0);
}

#[test]
fn stripes_cover_every_row() {
    let e = Mat::from_fn((5, 3), |(i, j)| 10 * i + j).unwrap();
    let expected = [0, 1, 2, 10, 11, 12, 20, 21, 22, 30, 31, 32, 40, 41, 42];
    for stripe in 1..8 {
        let mut dst = [99u32; 15];
        fill_stripes(&mut dst[..], &&e, (5, 3), stripe);
        assert_eq!(dst, expected);
    }
}
