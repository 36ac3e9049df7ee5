use rgsl::{Value, VectorF32, VectorF64};

#[test]
fn vector_new_rejects_zero_dimension() {
    assert!(VectorF64::new(0).is_none());
    assert!(VectorF32::new(0).is_none());
}

#[test]
fn vector_new_is_zero_filled() {
    let v = VectorF64::new(4).unwrap();
    assert_eq!(v.len(), 4);
    for i in 0..4 {
        assert_eq!(f64::from_bits(v.get(i)), 0.0);
    }
}

#[test]
fn vector_allocate_then_drop() {
    for n in 1..64 {
        let v = VectorF64::new(n).unwrap();
        assert_eq!(v.len(), n);
        drop(v);
        let w = VectorF32::new(n).unwrap();
        assert_eq!(w.len(), n);
    }
}

#[test]
fn vector_set_get_round_trip_f64() {
    let mut v = VectorF64::new(5).unwrap();
    v.set(2, (3.5f64).to_bits());
    assert_eq!(v.get(2), (3.5f64).to_bits());
    assert_eq!(f64::from_bits(v.get(2)), 3.5);
    v.set(0, (-0.25f64).to_bits());
    assert_eq!(f64::from_bits(v.get(0)), -0.25);
    assert_eq!(f64::from_bits(v.get(1)), 0.0);
}

#[test]
fn vector_set_get_round_trip_f32() {
    let mut v = VectorF32::new(3).unwrap();
    v.set(1, (1.5f32).to_bits());
    assert_eq!(v.get(1), (1.5f32).to_bits());
    assert_eq!(f32::from_bits(v.get(1)), 1.5);
}

#[test]
fn vector_out_of_range_reads_zero_and_ignores_writes() {
    let mut v = VectorF64::new(2).unwrap();
    v.set(0, (7.0f64).to_bits());
    assert_eq!(v.get(5), 0u64);
    v.set(5, (9.0f64).to_bits());
    assert_eq!(f64::from_bits(v.get(0)), 7.0);
    assert_eq!(f64::from_bits(v.get(1)), 0.0);
}

#[test]
fn vector_from_slice() {
    let data = [(1.0f64).to_bits(), (2.0f64).to_bits(), (3.0f64).to_bits()];
    let v = VectorF64::from_slice(&data).unwrap();
    assert_eq!(v.len(), 3);
    assert_eq!(f64::from_bits(v.get(0)), 1.0);
    assert_eq!(f64::from_bits(v.get(2)), 3.0);
    let empty: [u64; 0] = [];
    assert!(VectorF64::from_slice(&empty).is_none());
}

#[test]
fn vector_set_all_and_zero_and_basis() {
    let mut v = VectorF64::new(3).unwrap();
    v.set_all((2.5f64).to_bits());
    for i in 0..3 {
        assert_eq!(f64::from_bits(v.get(i)), 2.5);
    }
    v.set_zero();
    for i in 0..3 {
        assert_eq!(f64::from_bits(v.get(i)), 0.0);
    }
    v.set_basis(1);
    assert_eq!(f64::from_bits(v.get(0)), 0.0);
    assert_eq!(f64::from_bits(v.get(1)), 1.0);
    assert_eq!(f64::from_bits(v.get(2)), 0.0);
}

#[test]
fn vector_basis_out_of_range_leaves_unchanged() {
    let mut v = VectorF64::new(2).unwrap();
    v.set_all((3.0f64).to_bits());
    v.set_basis(5);
    assert_eq!(f64::from_bits(v.get(0)), 3.0);
    assert_eq!(f64::from_bits(v.get(1)), 3.0);
}

#[test]
fn vector_basis_f32_stores_one() {
    let mut v = VectorF32::new(2).unwrap();
    v.set_basis(0);
    assert_eq!(f32::from_bits(v.get(0)), 1.0);
    assert_eq!(f32::from_bits(v.get(1)), 0.0);
}

#[test]
fn vector_copy_and_mismatch() {
    let mut a = VectorF64::new(3).unwrap();
    let mut b = VectorF64::new(3).unwrap();
    b.set_all((4.0f64).to_bits());
    assert_eq!(a.copy_from(&b), Value::Success);
    assert_eq!(f64::from_bits(a.get(2)), 4.0);

    let c = VectorF64::new(2).unwrap();
    assert_eq!(a.copy_from(&c), Value::BadLen);
    assert_eq!(f64::from_bits(a.get(2)), 4.0);

    let mut d = VectorF64::new(3).unwrap();
    assert_eq!(b.copy_to(&mut d), Value::Success);
    assert_eq!(f64::from_bits(d.get(0)), 4.0);
}

#[test]
fn vector_mismatch_reports_invalid_argument_kind() {
    let mut a = VectorF64::new(3).unwrap();
    let b = VectorF64::new(4).unwrap();
    let st = a.copy_from(&b);
    assert_eq!(st, Value::BadLen);
    assert_eq!(st.kind(), rgsl::ErrorKind::InvalidArgument);
}

#[test]
fn vector_swap_and_elements_and_reverse() {
    let mut a = VectorF64::new(2).unwrap();
    let mut b = VectorF64::new(2).unwrap();
    a.set_all((1.0f64).to_bits());
    b.set_all((2.0f64).to_bits());
    assert_eq!(a.swap(&mut b), Value::Success);
    assert_eq!(f64::from_bits(a.get(0)), 2.0);
    assert_eq!(f64::from_bits(b.get(0)), 1.0);

    let mut c = VectorF64::new(3).unwrap();
    assert_eq!(a.swap(&mut c), Value::BadLen);

    let data = [(1.0f64).to_bits(), (2.0f64).to_bits(), (3.0f64).to_bits()];
    let mut v = VectorF64::from_slice(&data).unwrap();
    assert_eq!(v.swap_elements(0, 2), Value::Success);
    assert_eq!(f64::from_bits(v.get(0)), 3.0);
    assert_eq!(f64::from_bits(v.get(2)), 1.0);
    assert_eq!(v.swap_elements(0, 7), Value::Inval);
    assert_eq!(f64::from_bits(v.get(0)), 3.0);

    assert_eq!(v.reverse(), Value::Success);
    assert_eq!(f64::from_bits(v.get(0)), 1.0);
    assert_eq!(f64::from_bits(v.get(1)), 2.0);
    assert_eq!(f64::from_bits(v.get(2)), 3.0);
}

#[test]
fn vector_clone_is_deep() {
    let data = [(1.0f64).to_bits(), (2.0f64).to_bits()];
    let original = VectorF64::from_slice(&data).unwrap();
    let mut copy = original.clone().unwrap();
    copy.set(0, (9.0f64).to_bits());
    assert_eq!(f64::from_bits(original.get(0)), 1.0);
    assert_eq!(f64::from_bits(copy.get(0)), 9.0);
}

#[test]
fn vector_clone_is_deep_f32() {
    let data = [(1.0f32).to_bits(), (2.0f32).to_bits()];
    let original = VectorF32::from_slice(&data).unwrap();
    let mut copy = original.clone().unwrap();
    copy.set(1, (8.0f32).to_bits());
    assert_eq!(f32::from_bits(original.get(1)), 2.0);
    assert_eq!(f32::from_bits(copy.get(1)), 8.0);
}

#[test]
fn vector_elementwise_add_then_sub_restores() {
    let a0 = [(1.0f64).to_bits(), (2.0f64).to_bits(), (-3.0f64).to_bits()];
    let b0 = [(10.0f64).to_bits(), (20.0f64).to_bits(), (30.0f64).to_bits()];
    let mut a = VectorF64::from_slice(&a0).unwrap();
    let b = VectorF64::from_slice(&b0).unwrap();

    let add = |x: u64, y: u64| (f64::from_bits(x) + f64::from_bits(y)).to_bits();
    let sub = |x: u64, y: u64| (f64::from_bits(x) - f64::from_bits(y)).to_bits();

    assert_eq!(a.combine_with(&b, add), Value::Success);
    assert_eq!(f64::from_bits(a.get(0)), 11.0);
    assert_eq!(f64::from_bits(a.get(1)), 22.0);
    assert_eq!(f64::from_bits(a.get(2)), 27.0);

    assert_eq!(a.combine_with(&b, sub), Value::Success);
    for i in 0..3 {
        assert_eq!(a.get(i), a0[i]);
    }
}

#[test]
fn vector_elementwise_mul_then_div_restores() {
    let a0 = [(3.0f64).to_bits(), (-5.0f64).to_bits()];
    let b0 = [(2.0f64).to_bits(), (4.0f64).to_bits()];
    let mut a = VectorF64::from_slice(&a0).unwrap();
    let b = VectorF64::from_slice(&b0).unwrap();

    let mul = |x: u64, y: u64| (f64::from_bits(x) * f64::from_bits(y)).to_bits();
    let div = |x: u64, y: u64| (f64::from_bits(x) / f64::from_bits(y)).to_bits();

    assert_eq!(a.combine_with(&b, mul), Value::Success);
    assert_eq!(f64::from_bits(a.get(0)), 6.0);
    assert_eq!(f64::from_bits(a.get(1)), -20.0);

    assert_eq!(a.combine_with(&b, div), Value::Success);
    for i in 0..2 {
        assert_eq!(a.get(i), a0[i]);
    }
}

#[test]
fn vector_elementwise_mismatch_leaves_operand_unchanged() {
    let a0 = [(1.0f64).to_bits(), (2.0f64).to_bits()];
    let mut a = VectorF64::from_slice(&a0).unwrap();
    let b = VectorF64::new(3).unwrap();
    let add = |x: u64, y: u64| (f64::from_bits(x) + f64::from_bits(y)).to_bits();
    let st = a.combine_with(&b, add);
    assert_eq!(st, Value::BadLen);
    assert_eq!(st.kind(), rgsl::ErrorKind::InvalidArgument);
    for i in 0..2 {
        assert_eq!(a.get(i), a0[i]);
    }
}

#[test]
fn vector_scale_by_mapping() {
    let a0 = [(1.5f64).to_bits(), (-2.0f64).to_bits()];
    let mut a = VectorF64::from_slice(&a0).unwrap();
    let scale = |x: u64| (f64::from_bits(x) * 2.0).to_bits();
    assert_eq!(a.map_with(scale), Value::Success);
    assert_eq!(f64::from_bits(a.get(0)), 3.0);
    assert_eq!(f64::from_bits(a.get(1)), -4.0);
}

#[test]
fn vector_get_ffi_exposes_storage() {
    let data = [(5.0f64).to_bits(), (6.0f64).to_bits()];
    let v = VectorF64::from_slice(&data).unwrap();
    let raw = v.get_ffi();
    assert_eq!(raw.len(), 2);
    assert_eq!(raw.get(0), data[0]);
    assert_eq!(raw.get(1), data[1]);
}
