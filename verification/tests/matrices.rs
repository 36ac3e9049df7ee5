use rgsl::{MatrixF32, MatrixF64, Value, VectorF64};

fn b(x: f64) -> u64 {
    x.to_bits()
}

fn fill_2x2(m: &mut MatrixF64, data: [f64; 4]) {
    m.set(0, 0, b(data[0]));
    m.set(0, 1, b(data[1]));
    m.set(1, 0, b(data[2]));
    m.set(1, 1, b(data[3]));
}

#[test]
fn matrix_new_rejects_zero_dimensions() {
    assert!(MatrixF64::new(0, 3).is_none());
    assert!(MatrixF64::new(3, 0).is_none());
    assert!(MatrixF32::new(0, 0).is_none());
}

#[test]
fn matrix_new_rejects_address_space_overflow() {
    assert!(MatrixF64::new(usize::MAX, 2).is_none());
}

#[test]
fn matrix_new_is_zero_filled() {
    let m = MatrixF64::new(2, 3).unwrap();
    assert_eq!(m.size1(), 2);
    assert_eq!(m.size2(), 3);
    for i in 0..2 {
        for j in 0..3 {
            assert_eq!(f64::from_bits(m.get(i, j)), 0.0);
        }
    }
}

#[test]
fn matrix_set_get_round_trip() {
    let mut m = MatrixF64::new(2, 2).unwrap();
    m.set(1, 0, b(5.25));
    assert_eq!(m.get(1, 0), b(5.25));
    assert_eq!(f64::from_bits(m.get(0, 0)), 0.0);
}

#[test]
fn matrix_set_get_round_trip_f32() {
    let mut m = MatrixF32::new(2, 2).unwrap();
    m.set(0, 1, (2.5f32).to_bits());
    assert_eq!(f32::from_bits(m.get(0, 1)), 2.5);
}

#[test]
fn matrix_out_of_range_reads_zero_and_ignores_writes() {
    let mut m = MatrixF64::new(2, 2).unwrap();
    m.set(0, 0, b(1.0));
    assert_eq!(m.get(5, 0), 0u64);
    m.set(5, 0, b(9.0));
    assert_eq!(f64::from_bits(m.get(0, 0)), 1.0);
}

#[test]
fn matrix_set_identity_mixes_one_and_zero() {
    let mut m = MatrixF64::new(2, 3).unwrap();
    m.set_all(b(7.0));
    m.set_identity();
    for i in 0..2 {
        for j in 0..3 {
            let expected = if i == j { 1.0 } else { 0.0 };
            assert_eq!(f64::from_bits(m.get(i, j)), expected);
        }
    }
}

#[test]
fn matrix_copy_and_mismatch() {
    let mut a = MatrixF64::new(2, 2).unwrap();
    let mut src = MatrixF64::new(2, 2).unwrap();
    fill_2x2(&mut src, [1.0, 2.0, 3.0, 4.0]);
    assert_eq!(a.copy_from(&src), Value::Success);
    assert_eq!(f64::from_bits(a.get(1, 1)), 4.0);

    let wrong = MatrixF64::new(2, 3).unwrap();
    let st = a.copy_from(&wrong);
    assert_eq!(st, Value::BadLen);
    assert_eq!(st.kind(), rgsl::ErrorKind::InvalidArgument);
    assert_eq!(f64::from_bits(a.get(1, 1)), 4.0);

    let mut dst = MatrixF64::new(2, 2).unwrap();
    assert_eq!(src.copy_to(&mut dst), Value::Success);
    assert_eq!(f64::from_bits(dst.get(0, 1)), 2.0);
}

#[test]
fn matrix_swap_contents() {
    let mut a = MatrixF64::new(2, 2).unwrap();
    let mut c = MatrixF64::new(2, 2).unwrap();
    fill_2x2(&mut a, [1.0, 1.0, 1.0, 1.0]);
    fill_2x2(&mut c, [2.0, 2.0, 2.0, 2.0]);
    assert_eq!(a.swap(&mut c), Value::Success);
    assert_eq!(f64::from_bits(a.get(0, 0)), 2.0);
    assert_eq!(f64::from_bits(c.get(0, 0)), 1.0);
    let mut wrong = MatrixF64::new(3, 2).unwrap();
    assert_eq!(a.swap(&mut wrong), Value::BadLen);
}

#[test]
fn matrix_get_row_and_col() {
    let mut m = MatrixF64::new(2, 2).unwrap();
    fill_2x2(&mut m, [1.0, 2.0, 3.0, 4.0]);

    let (row, st) = m.get_row(1).unwrap();
    assert_eq!(st, Value::Success);
    assert_eq!(f64::from_bits(row.get(0)), 3.0);
    assert_eq!(f64::from_bits(row.get(1)), 4.0);

    let (col, st2) = m.get_col(0).unwrap();
    assert_eq!(st2, Value::Success);
    assert_eq!(f64::from_bits(col.get(0)), 1.0);
    assert_eq!(f64::from_bits(col.get(1)), 3.0);

    let (junk, st3) = m.get_row(9).unwrap();
    assert_eq!(st3, Value::Inval);
    assert_eq!(f64::from_bits(junk.get(0)), 0.0);
    assert_eq!(f64::from_bits(junk.get(1)), 0.0);
}

#[test]
fn matrix_set_row_and_col() {
    let mut m = MatrixF64::new(2, 2).unwrap();
    let v = VectorF64::from_slice(&[b(5.0), b(6.0)]).unwrap();

    assert_eq!(m.set_row(0, &v), Value::Success);
    assert_eq!(f64::from_bits(m.get(0, 0)), 5.0);
    assert_eq!(f64::from_bits(m.get(0, 1)), 6.0);

    assert_eq!(m.set_col(1, &v), Value::Success);
    assert_eq!(f64::from_bits(m.get(0, 1)), 5.0);
    assert_eq!(f64::from_bits(m.get(1, 1)), 6.0);

    assert_eq!(m.set_row(5, &v), Value::Inval);
    let long = VectorF64::new(3).unwrap();
    assert_eq!(m.set_row(0, &long), Value::BadLen);
    assert_eq!(f64::from_bits(m.get(0, 0)), 5.0);
}

#[test]
fn matrix_swap_rows_and_columns() {
    let mut m = MatrixF64::new(2, 2).unwrap();
    fill_2x2(&mut m, [1.0, 2.0, 3.0, 4.0]);

    assert_eq!(m.swap_rows(0, 1), Value::Success);
    assert_eq!(f64::from_bits(m.get(0, 0)), 3.0);
    assert_eq!(f64::from_bits(m.get(1, 1)), 2.0);
    assert_eq!(m.swap_rows(0, 5), Value::Inval);

    fill_2x2(&mut m, [1.0, 2.0, 3.0, 4.0]);
    assert_eq!(m.swap_columns(0, 1), Value::Success);
    assert_eq!(f64::from_bits(m.get(0, 0)), 2.0);
    assert_eq!(f64::from_bits(m.get(1, 0)), 4.0);
}

#[test]
fn matrix_swap_row_col_by_stepwise_exchange() {
    // For [[1, 2], [3, 4]], exchanging row 0 with column 0 swaps entry
    // (0, 1) with entry (1, 0): the 2-by-2 transpose.
    let mut m = MatrixF64::new(2, 2).unwrap();
    fill_2x2(&mut m, [1.0, 2.0, 3.0, 4.0]);
    assert_eq!(m.swap_row_col(0, 0), Value::Success);
    assert_eq!(f64::from_bits(m.get(0, 0)), 1.0);
    assert_eq!(f64::from_bits(m.get(0, 1)), 3.0);
    assert_eq!(f64::from_bits(m.get(1, 0)), 2.0);
    assert_eq!(f64::from_bits(m.get(1, 1)), 4.0);

    // Step by step for row 0, column 1: first (0, 0) with (0, 1), then
    // (0, 1) with (1, 1).
    let mut n = MatrixF64::new(2, 2).unwrap();
    fill_2x2(&mut n, [1.0, 2.0, 3.0, 4.0]);
    assert_eq!(n.swap_row_col(0, 1), Value::Success);
    assert_eq!(f64::from_bits(n.get(0, 0)), 2.0);
    assert_eq!(f64::from_bits(n.get(0, 1)), 4.0);
    assert_eq!(f64::from_bits(n.get(1, 0)), 3.0);
    assert_eq!(f64::from_bits(n.get(1, 1)), 1.0);

    let mut rect = MatrixF64::new(2, 3).unwrap();
    assert_eq!(rect.swap_row_col(0, 0), Value::NotSqr);
    assert_eq!(m.swap_row_col(9, 0), Value::Inval);
}

#[test]
fn matrix_transpose_in_place() {
    let mut m = MatrixF64::new(2, 2).unwrap();
    fill_2x2(&mut m, [1.0, 2.0, 3.0, 4.0]);
    assert_eq!(m.transpose(), Value::Success);
    assert_eq!(f64::from_bits(m.get(0, 1)), 3.0);
    assert_eq!(f64::from_bits(m.get(1, 0)), 2.0);

    let mut rect = MatrixF64::new(2, 3).unwrap();
    let st = rect.transpose();
    assert_eq!(st, Value::NotSqr);
    assert_eq!(st.kind(), rgsl::ErrorKind::InvalidArgument);
}

#[test]
fn matrix_transpose_memcpy() {
    let mut m = MatrixF64::new(2, 2).unwrap();
    fill_2x2(&mut m, [1.0, 2.0, 3.0, 4.0]);
    let (t, st) = m.transpose_memcpy().unwrap();
    assert_eq!(st, Value::Success);
    assert_eq!(f64::from_bits(t.get(0, 1)), 3.0);
    assert_eq!(f64::from_bits(m.get(0, 1)), 2.0);
}

#[test]
fn matrix_transpose_memcpy_rectangular() {
    let mut rect = MatrixF64::new(2, 3).unwrap();
    for i in 0..2 {
        for j in 0..3 {
            rect.set(i, j, ((1 + i * 3 + j) as f64).to_bits());
        }
    }
    let (t, st) = rect.transpose_memcpy().unwrap();
    assert_eq!(st, Value::Success);
    assert_eq!(t.size1(), 3);
    assert_eq!(t.size2(), 2);
    for i in 0..2 {
        for j in 0..3 {
            assert_eq!(t.get(j, i), rect.get(i, j));
        }
    }
    assert_eq!(f64::from_bits(t.get(2, 1)), 6.0);
    assert_eq!(f64::from_bits(rect.get(0, 0)), 1.0);
}

#[test]
fn matrix_clone_is_deep() {
    let mut m = MatrixF64::new(2, 2).unwrap();
    fill_2x2(&mut m, [1.0, 2.0, 3.0, 4.0]);
    let mut copy = m.clone().unwrap();
    copy.set(0, 0, b(9.0));
    assert_eq!(f64::from_bits(m.get(0, 0)), 1.0);
    assert_eq!(f64::from_bits(copy.get(0, 0)), 9.0);
}

#[test]
fn matrix_clone_is_deep_f32() {
    let mut m = MatrixF32::new(1, 2).unwrap();
    m.set(0, 0, (1.0f32).to_bits());
    let mut copy = m.clone().unwrap();
    copy.set(0, 0, (7.0f32).to_bits());
    assert_eq!(f32::from_bits(m.get(0, 0)), 1.0);
}

#[test]
fn matrix_add_then_sub_restores() {
    let mut a = MatrixF64::new(2, 2).unwrap();
    let mut c = MatrixF64::new(2, 2).unwrap();
    fill_2x2(&mut a, [1.0, 2.0, 3.0, 4.0]);
    fill_2x2(&mut c, [10.0, 20.0, 30.0, 40.0]);

    let add = |x: u64, y: u64| (f64::from_bits(x) + f64::from_bits(y)).to_bits();
    let sub = |x: u64, y: u64| (f64::from_bits(x) - f64::from_bits(y)).to_bits();

    assert_eq!(a.combine_with(&c, add), Value::Success);
    assert_eq!(f64::from_bits(a.get(1, 1)), 44.0);
    assert_eq!(a.combine_with(&c, sub), Value::Success);
    assert_eq!(a.get(0, 0), b(1.0));
    assert_eq!(a.get(0, 1), b(2.0));
    assert_eq!(a.get(1, 0), b(3.0));
    assert_eq!(a.get(1, 1), b(4.0));
}

#[test]
fn matrix_combine_mismatch_is_invalid_argument() {
    let mut a = MatrixF64::new(2, 2).unwrap();
    let c = MatrixF64::new(2, 3).unwrap();
    let add = |x: u64, y: u64| (f64::from_bits(x) + f64::from_bits(y)).to_bits();
    let st = a.combine_with(&c, add);
    assert_eq!(st, Value::BadLen);
    assert_eq!(st.kind(), rgsl::ErrorKind::InvalidArgument);
}

#[test]
fn matrix_scale_by_mapping() {
    let mut a = MatrixF64::new(2, 2).unwrap();
    fill_2x2(&mut a, [1.0, 2.0, 3.0, 4.0]);
    let scale = |x: u64| (f64::from_bits(x) * 0.5).to_bits();
    assert_eq!(a.map_with(scale), Value::Success);
    assert_eq!(f64::from_bits(a.get(1, 1)), 2.0);
}

#[test]
fn matrix_allocate_then_drop() {
    for n in 1..16 {
        let m = MatrixF64::new(n, n + 1).unwrap();
        assert_eq!(m.size1(), n);
        drop(m);
    }
}
