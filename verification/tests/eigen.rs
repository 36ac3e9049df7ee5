use rgsl::{
    EigenGenSymmWorkspace, EigenGenVWorkspace, EigenGenWorkspace, EigenHermitianVWorkspace,
    EigenHermitianWorkspace, EigenNonSymmetricVWorkspace, EigenNonSymmetricWorkspace,
    EigenSymmetricVWorkspace, EigenSymmetricWorkspace, ErrorKind, MatrixComplexF64, MatrixF64,
    Value, VectorComplexF64, VectorF64,
};

#[test]
fn workspace_new_rejects_zero_dimension() {
    assert!(EigenSymmetricWorkspace::new(0).is_none());
    assert!(EigenSymmetricVWorkspace::new(0).is_none());
    assert!(EigenHermitianWorkspace::new(0).is_none());
    assert!(EigenHermitianVWorkspace::new(0).is_none());
    assert!(EigenNonSymmetricWorkspace::new(0).is_none());
    assert!(EigenGenSymmWorkspace::new(0).is_none());
    assert!(EigenGenWorkspace::new(0).is_none());
    assert!(EigenGenVWorkspace::new(0).is_none());
}

#[test]
fn workspace_allocate_then_drop() {
    for n in 1..32 {
        let w = EigenSymmetricWorkspace::new(n).unwrap();
        assert_eq!(w.size(), n);
        drop(w);
    }
}

#[test]
fn symm_accepts_conforming_arguments() {
    let w = EigenSymmetricWorkspace::new(2).unwrap();
    let a = MatrixF64::new(2, 2).unwrap();
    let eval = VectorF64::new(2).unwrap();
    assert_eq!(w.symm_status(&a, &eval), Value::Success);
}

#[test]
fn symm_rejects_non_square_matrix() {
    let w = EigenSymmetricWorkspace::new(2).unwrap();
    let a = MatrixF64::new(2, 3).unwrap();
    let eval = VectorF64::new(2).unwrap();
    let st = w.symm_status(&a, &eval);
    assert_eq!(st, Value::NotSqr);
    assert_eq!(st.kind(), ErrorKind::InvalidArgument);
}

#[test]
fn symm_rejects_wrong_eigenvalue_length() {
    let w = EigenSymmetricWorkspace::new(2).unwrap();
    let a = MatrixF64::new(2, 2).unwrap();
    let eval = VectorF64::new(3).unwrap();
    assert_eq!(w.symm_status(&a, &eval), Value::BadLen);
}

#[test]
fn symm_rejects_workspace_smaller_than_matrix() {
    let w = EigenSymmetricWorkspace::new(1).unwrap();
    let a = MatrixF64::new(2, 2).unwrap();
    let eval = VectorF64::new(2).unwrap();
    let st = w.symm_status(&a, &eval);
    assert_eq!(st, Value::BadLen);
    assert_eq!(st.kind(), ErrorKind::InvalidArgument);
}

#[test]
fn symm_accepts_larger_workspace() {
    // The engine computes with any workspace at least as large as the
    // matrix; a size-3 workspace on a 2-by-2 problem is accepted.
    let w = EigenSymmetricWorkspace::new(3).unwrap();
    let a = MatrixF64::new(2, 2).unwrap();
    let eval = VectorF64::new(2).unwrap();
    assert_eq!(w.symm_status(&a, &eval), Value::Success);
}

#[test]
fn symmv_checks_the_eigenvector_matrix() {
    let w = EigenSymmetricVWorkspace::new(2).unwrap();
    let a = MatrixF64::new(2, 2).unwrap();
    let eval = VectorF64::new(2).unwrap();
    let evec = MatrixF64::new(2, 2).unwrap();
    assert_eq!(w.symmv_status(&a, &eval, &evec), Value::Success);
    let bad = MatrixF64::new(2, 3).unwrap();
    assert_eq!(w.symmv_status(&a, &eval, &bad), Value::BadLen);
}

#[test]
fn herm_checks_mirror_the_real_case() {
    let w = EigenHermitianWorkspace::new(2).unwrap();
    let a = MatrixComplexF64::new(2, 2).unwrap();
    let eval = VectorF64::new(2).unwrap();
    assert_eq!(w.herm_status(&a, &eval), Value::Success);
    let rect = MatrixComplexF64::new(2, 3).unwrap();
    assert_eq!(w.herm_status(&rect, &eval), Value::NotSqr);
}

#[test]
fn hermv_accepts_conforming_arguments() {
    let w = EigenHermitianVWorkspace::new(2).unwrap();
    let a = MatrixComplexF64::new(2, 2).unwrap();
    let eval = VectorF64::new(2).unwrap();
    let evec = MatrixComplexF64::new(2, 2).unwrap();
    assert_eq!(w.hermv_status(&a, &eval, &evec), Value::Success);
}

#[test]
fn nonsymm_params_are_recorded() {
    let mut w = EigenNonSymmetricWorkspace::new(2).unwrap();
    w.params(1, 1);
    let a = MatrixF64::new(2, 2).unwrap();
    let eval = VectorComplexF64::new(2).unwrap();
    assert_eq!(w.nonsymm_status(&a, &eval), Value::Success);
    let z = MatrixF64::new(2, 2).unwrap();
    assert_eq!(w.nonsymm_z_status(&a, &eval, &z), Value::Success);
    let bad_z = MatrixF64::new(3, 3).unwrap();
    assert_eq!(w.nonsymm_z_status(&a, &eval, &bad_z), Value::BadLen);
}

#[test]
fn nonsymmv_checks_all_outputs() {
    let mut w = EigenNonSymmetricVWorkspace::new(2).unwrap();
    w.params(0);
    let a = MatrixF64::new(2, 2).unwrap();
    let eval = VectorComplexF64::new(2).unwrap();
    let evec = MatrixComplexF64::new(2, 2).unwrap();
    assert_eq!(w.nonsymmv_status(&a, &eval, &evec), Value::Success);
    let short = VectorComplexF64::new(1).unwrap();
    assert_eq!(w.nonsymmv_status(&a, &short, &evec), Value::BadLen);
}

#[test]
fn gensymm_checks_the_pair() {
    let w = EigenGenSymmWorkspace::new(2).unwrap();
    let a = MatrixF64::new(2, 2).unwrap();
    let b = MatrixF64::new(2, 2).unwrap();
    let eval = VectorF64::new(2).unwrap();
    assert_eq!(w.gensymm_status(&a, &b, &eval), Value::Success);
    let small = MatrixF64::new(1, 1).unwrap();
    assert_eq!(w.gensymm_status(&a, &small, &eval), Value::BadLen);
    let rect = MatrixF64::new(2, 3).unwrap();
    assert_eq!(w.gensymm_status(&a, &rect, &eval), Value::NotSqr);
}

#[test]
fn gen_checks_alpha_and_beta() {
    let mut w = EigenGenWorkspace::new(2).unwrap();
    w.params(0, 0, 0);
    let a = MatrixF64::new(2, 2).unwrap();
    let b = MatrixF64::new(2, 2).unwrap();
    let alpha = VectorComplexF64::new(2).unwrap();
    let beta = VectorF64::new(2).unwrap();
    assert_eq!(w.gen_status(&a, &b, &alpha, &beta), Value::Success);
    let short_beta = VectorF64::new(1).unwrap();
    assert_eq!(w.gen_status(&a, &b, &alpha, &short_beta), Value::BadLen);
    let q = MatrixF64::new(2, 2).unwrap();
    let z = MatrixF64::new(2, 2).unwrap();
    assert_eq!(w.gen_qz_status(&a, &b, &alpha, &beta, &q, &z), Value::Success);
}

#[test]
fn genv_checks_the_eigenvector_matrix() {
    let w = EigenGenVWorkspace::new(2).unwrap();
    let a = MatrixF64::new(2, 2).unwrap();
    let b = MatrixF64::new(2, 2).unwrap();
    let alpha = VectorComplexF64::new(2).unwrap();
    let beta = VectorF64::new(2).unwrap();
    let evec = MatrixComplexF64::new(2, 2).unwrap();
    assert_eq!(w.genv_status(&a, &b, &alpha, &beta, &evec), Value::Success);
    let bad = MatrixComplexF64::new(1, 2).unwrap();
    assert_eq!(w.genv_status(&a, &b, &alpha, &beta, &bad), Value::BadLen);
}

#[test]
fn symm_scenario_setup_is_accepted() {
    // The 2-by-2 real symmetric problem with rows [5, 5] and [1, 6]: the
    // workspace accepts the arguments, and the matrix holds the data
    // exactly.  The decomposition itself is the native engine's work.
    let w = EigenSymmetricWorkspace::new(2).unwrap();
    let mut m = MatrixF64::new(2, 2).unwrap();
    m.set(0, 0, (5.0f64).to_bits());
    m.set(0, 1, (5.0f64).to_bits());
    m.set(1, 0, (1.0f64).to_bits());
    m.set(1, 1, (6.0f64).to_bits());
    let eval = VectorF64::new(2).unwrap();
    assert_eq!(w.symm_status(&m, &eval), Value::Success);
    assert_eq!(f64::from_bits(m.get(0, 0)), 5.0);
    assert_eq!(f64::from_bits(m.get(1, 0)), 1.0);
    assert_eq!(f64::from_bits(m.get(1, 1)), 6.0);

    let wv = EigenSymmetricVWorkspace::new(3).unwrap();
    let evec = MatrixF64::new(2, 2).unwrap();
    assert_eq!(wv.symmv_status(&m, &eval, &evec), Value::Success);
}

#[test]
fn herm_scenario_setup_is_accepted() {
    // The 2-by-2 complex hermitian problem with entries (5,5), (1,4) over
    // (2,3), (5,7): the workspace accepts the arguments, and the matrix
    // holds the data exactly.
    let w = EigenHermitianWorkspace::new(3).unwrap();
    let mut m = MatrixComplexF64::new(2, 2).unwrap();
    let z = |re: f64, im: f64| rgsl::ComplexF64::rect(re.to_bits(), im.to_bits());
    m.set(0, 0, &z(5.0, 5.0));
    m.set(0, 1, &z(1.0, 4.0));
    m.set(1, 0, &z(2.0, 3.0));
    m.set(1, 1, &z(5.0, 7.0));
    let eval = VectorF64::new(2).unwrap();
    assert_eq!(w.herm_status(&m, &eval), Value::Success);
    assert_eq!(m.get(1, 0), z(2.0, 3.0));

    let wv = EigenHermitianVWorkspace::new(3).unwrap();
    let evec = MatrixComplexF64::new(2, 2).unwrap();
    assert_eq!(wv.hermv_status(&m, &eval, &evec), Value::Success);
}
