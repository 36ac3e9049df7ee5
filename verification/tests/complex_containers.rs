use rgsl::{ComplexF32, ComplexF64, Value, VectorComplexF32, VectorComplexF64};

fn c64(re: f64, im: f64) -> ComplexF64 {
    ComplexF64::rect(re.to_bits(), im.to_bits())
}

#[test]
fn complex_rect_holds_components() {
    let z = c64(1.5, -2.5);
    assert_eq!(f64::from_bits(z.re), 1.5);
    assert_eq!(f64::from_bits(z.im), -2.5);
}

#[test]
fn complex_conjugate_flips_imaginary_sign() {
    let z = c64(1.5, -2.5);
    let c = z.conjugate();
    assert_eq!(f64::from_bits(c.re), 1.5);
    assert_eq!(f64::from_bits(c.im), 2.5);
    assert_eq!(c.conjugate(), z);
}

#[test]
fn complex_negative_flips_both_signs() {
    let z = c64(3.0, -4.0);
    let n = z.negative();
    assert_eq!(f64::from_bits(n.re), -3.0);
    assert_eq!(f64::from_bits(n.im), 4.0);
    assert_eq!(n.negative(), z);
}

#[test]
fn complex_f32_conjugate() {
    let z = ComplexF32::rect((0.5f32).to_bits(), (0.25f32).to_bits());
    let c = z.conjugate();
    assert_eq!(f32::from_bits(c.re), 0.5);
    assert_eq!(f32::from_bits(c.im), -0.25);
}

#[test]
fn complex_vector_new_rejects_zero_dimension() {
    assert!(VectorComplexF64::new(0).is_none());
    assert!(VectorComplexF32::new(0).is_none());
}

#[test]
fn complex_vector_set_get_round_trip() {
    let mut v = VectorComplexF64::new(3).unwrap();
    v.set(1, &c64(5.0, 7.0));
    let z = v.get(1);
    assert_eq!(f64::from_bits(z.re), 5.0);
    assert_eq!(f64::from_bits(z.im), 7.0);
    let zero = v.get(0);
    assert_eq!(f64::from_bits(zero.re), 0.0);
    assert_eq!(f64::from_bits(zero.im), 0.0);
}

#[test]
fn complex_vector_set_get_round_trip_f32() {
    let mut v = VectorComplexF32::new(2).unwrap();
    let z = ComplexF32::rect((1.0f32).to_bits(), (2.0f32).to_bits());
    v.set(0, &z);
    assert_eq!(v.get(0), z);
}

#[test]
fn complex_vector_basis_and_set_all() {
    let mut v = VectorComplexF64::new(2).unwrap();
    v.set_all(&c64(2.0, 3.0));
    assert_eq!(v.get(1), c64(2.0, 3.0));
    v.set_basis(0);
    assert_eq!(f64::from_bits(v.get(0).re), 1.0);
    assert_eq!(f64::from_bits(v.get(0).im), 0.0);
    assert_eq!(v.get(1), c64(0.0, 0.0));
}

#[test]
fn complex_vector_clone_is_deep() {
    let mut v = VectorComplexF64::new(2).unwrap();
    v.set(0, &c64(1.0, 1.0));
    let mut copy = v.clone().unwrap();
    copy.set(0, &c64(9.0, 9.0));
    assert_eq!(v.get(0), c64(1.0, 1.0));
    assert_eq!(copy.get(0), c64(9.0, 9.0));
}

#[test]
fn complex_vector_clone_is_deep_f32() {
    let mut v = VectorComplexF32::new(1).unwrap();
    let a = ComplexF32::rect((1.0f32).to_bits(), 0);
    let b = ComplexF32::rect((2.0f32).to_bits(), 0);
    v.set(0, &a);
    let mut copy = v.clone().unwrap();
    copy.set(0, &b);
    assert_eq!(v.get(0), a);
}

#[test]
fn complex_vector_add_then_sub_restores() {
    let mut a = VectorComplexF64::new(2).unwrap();
    let b0 = c64(1.0, 2.0);
    let b1 = c64(-3.0, 4.0);
    a.set(0, &b0);
    a.set(1, &b1);
    let mut b = VectorComplexF64::new(2).unwrap();
    b.set(0, &c64(10.0, 20.0));
    b.set(1, &c64(30.0, 40.0));

    let add = |x: ComplexF64, y: ComplexF64| {
        ComplexF64::rect(
            (f64::from_bits(x.re) + f64::from_bits(y.re)).to_bits(),
            (f64::from_bits(x.im) + f64::from_bits(y.im)).to_bits(),
        )
    };
    let sub = |x: ComplexF64, y: ComplexF64| {
        ComplexF64::rect(
            (f64::from_bits(x.re) - f64::from_bits(y.re)).to_bits(),
            (f64::from_bits(x.im) - f64::from_bits(y.im)).to_bits(),
        )
    };

    assert_eq!(a.combine_with(&b, add), Value::Success);
    assert_eq!(a.get(0), c64(11.0, 22.0));
    assert_eq!(a.get(1), c64(27.0, 44.0));
    assert_eq!(a.combine_with(&b, sub), Value::Success);
    assert_eq!(a.get(0), b0);
    assert_eq!(a.get(1), b1);
}

#[test]
fn complex_vector_mismatch_is_invalid_argument() {
    let mut a = VectorComplexF64::new(2).unwrap();
    let b = VectorComplexF64::new(3).unwrap();
    let add = |x: ComplexF64, _y: ComplexF64| x;
    let st = a.combine_with(&b, add);
    assert_eq!(st, Value::BadLen);
    assert_eq!(st.kind(), rgsl::ErrorKind::InvalidArgument);
}

#[test]
fn complex_vector_swap_and_reverse() {
    let mut v = VectorComplexF64::new(3).unwrap();
    v.set(0, &c64(1.0, 0.0));
    v.set(1, &c64(2.0, 0.0));
    v.set(2, &c64(3.0, 0.0));
    assert_eq!(v.swap_elements(0, 2), Value::Success);
    assert_eq!(v.get(0), c64(3.0, 0.0));
    assert_eq!(v.reverse(), Value::Success);
    assert_eq!(v.get(0), c64(1.0, 0.0));
    assert_eq!(v.get(2), c64(3.0, 0.0));
}
