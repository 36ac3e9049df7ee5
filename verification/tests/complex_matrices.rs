use rgsl::{ComplexF64, MatrixComplexF32, MatrixComplexF64, Value, VectorComplexF64};

fn c64(re: f64, im: f64) -> ComplexF64 {
    ComplexF64::rect(re.to_bits(), im.to_bits())
}

#[test]
fn complex_matrix_new_rejects_zero_dimensions() {
    assert!(MatrixComplexF64::new(0, 2).is_none());
    assert!(MatrixComplexF32::new(2, 0).is_none());
}

#[test]
fn complex_matrix_set_get_round_trip() {
    let mut m = MatrixComplexF64::new(2, 2).unwrap();
    m.set(0, 1, &c64(1.0, 4.0));
    assert_eq!(m.get(0, 1), c64(1.0, 4.0));
    assert_eq!(m.get(0, 0), c64(0.0, 0.0));
}

#[test]
fn complex_matrix_set_get_round_trip_f32() {
    let mut m = MatrixComplexF32::new(1, 1).unwrap();
    let z = rgsl::ComplexF32::rect((3.0f32).to_bits(), (4.0f32).to_bits());
    m.set(0, 0, &z);
    assert_eq!(m.get(0, 0), z);
}

#[test]
fn complex_matrix_identity_and_row() {
    let mut m = MatrixComplexF64::new(2, 2).unwrap();
    m.set_all(&c64(9.0, 9.0));
    m.set_identity();
    assert_eq!(m.get(0, 0), c64(1.0, 0.0));
    assert_eq!(m.get(0, 1), c64(0.0, 0.0));

    let (row, st) = m.get_row(0).unwrap();
    assert_eq!(st, Value::Success);
    assert_eq!(row.get(0), c64(1.0, 0.0));
    assert_eq!(row.get(1), c64(0.0, 0.0));
}

#[test]
fn complex_matrix_set_row_and_mismatch() {
    let mut m = MatrixComplexF64::new(2, 2).unwrap();
    let mut v = VectorComplexF64::new(2).unwrap();
    v.set(0, &c64(5.0, 5.0));
    v.set(1, &c64(1.0, 4.0));
    assert_eq!(m.set_row(0, &v), Value::Success);
    assert_eq!(m.get(0, 1), c64(1.0, 4.0));

    let long = VectorComplexF64::new(3).unwrap();
    let st = m.set_row(0, &long);
    assert_eq!(st, Value::BadLen);
    assert_eq!(m.get(0, 1), c64(1.0, 4.0));
}

#[test]
fn complex_matrix_transpose() {
    let mut m = MatrixComplexF64::new(2, 2).unwrap();
    m.set(0, 1, &c64(1.0, 4.0));
    m.set(1, 0, &c64(2.0, 3.0));
    assert_eq!(m.transpose(), Value::Success);
    assert_eq!(m.get(0, 1), c64(2.0, 3.0));
    assert_eq!(m.get(1, 0), c64(1.0, 4.0));
}

#[test]
fn complex_matrix_clone_is_deep() {
    let mut m = MatrixComplexF64::new(2, 2).unwrap();
    m.set(0, 0, &c64(5.0, 5.0));
    let mut copy = m.clone().unwrap();
    copy.set(0, 0, &c64(8.0, 8.0));
    assert_eq!(m.get(0, 0), c64(5.0, 5.0));
    assert_eq!(copy.get(0, 0), c64(8.0, 8.0));
}

#[test]
fn complex_matrix_clone_is_deep_f32() {
    let mut m = MatrixComplexF32::new(1, 1).unwrap();
    let a = rgsl::ComplexF32::rect((1.0f32).to_bits(), 0);
    let z = rgsl::ComplexF32::rect((2.0f32).to_bits(), 0);
    m.set(0, 0, &a);
    let mut copy = m.clone().unwrap();
    copy.set(0, 0, &z);
    assert_eq!(m.get(0, 0), a);
}

#[test]
fn complex_matrix_add_then_sub_restores() {
    let mut a = MatrixComplexF64::new(1, 2).unwrap();
    a.set(0, 0, &c64(1.0, -1.0));
    a.set(0, 1, &c64(2.0, -2.0));
    let mut other = MatrixComplexF64::new(1, 2).unwrap();
    other.set(0, 0, &c64(10.0, 10.0));
    other.set(0, 1, &c64(20.0, 20.0));

    let add = |x: ComplexF64, y: ComplexF64| {
        ComplexF64::rect(
            (f64::from_bits(x.re) + f64::from_bits(y.re)).to_bits(),
            (f64::from_bits(x.im) + f64::from_bits(y.im)).to_bits(),
        )
    };
    let sub = |x: ComplexF64, y: ComplexF64| {
        ComplexF64::rect(
            (f64::from_bits(x.re) - f64::from_bits(y.re)).to_bits(),
            (f64::from_bits(x.im) - f64::from_bits(y.im)).to_bits(),
        )
    };

    assert_eq!(a.combine_with(&other, add), Value::Success);
    assert_eq!(a.get(0, 0), c64(11.0, 9.0));
    assert_eq!(a.combine_with(&other, sub), Value::Success);
    assert_eq!(a.get(0, 0), c64(1.0, -1.0));
    assert_eq!(a.get(0, 1), c64(2.0, -2.0));
}

#[test]
fn complex_matrix_mismatch_is_invalid_argument() {
    let mut a = MatrixComplexF64::new(2, 2).unwrap();
    let c = MatrixComplexF64::new(3, 2).unwrap();
    let keep = |x: ComplexF64, _y: ComplexF64| x;
    let st = a.combine_with(&c, keep);
    assert_eq!(st, Value::BadLen);
    assert_eq!(st.kind(), rgsl::ErrorKind::InvalidArgument);
}
