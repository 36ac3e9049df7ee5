use rgsl::{ErrorKind, Value};

#[test]
fn from_code_zero_is_success() {
    assert_eq!(Value::from_code(0), Value::Success);
    assert!(Value::from_code(0).is_success());
}

#[test]
fn from_code_documented_codes() {
    assert_eq!(Value::from_code(-2), Value::Continue);
    assert_eq!(Value::from_code(-1), Value::Failure);
    assert_eq!(Value::from_code(1), Value::Dom);
    assert_eq!(Value::from_code(2), Value::Range);
    assert_eq!(Value::from_code(3), Value::Fault);
    assert_eq!(Value::from_code(4), Value::Inval);
    assert_eq!(Value::from_code(8), Value::NoMem);
    assert_eq!(Value::from_code(11), Value::MaxIter);
    assert_eq!(Value::from_code(12), Value::ZeroDiv);
    assert_eq!(Value::from_code(15), Value::UndrFlw);
    assert_eq!(Value::from_code(16), Value::OvrFlw);
    assert_eq!(Value::from_code(19), Value::BadLen);
    assert_eq!(Value::from_code(20), Value::NotSqr);
    assert_eq!(Value::from_code(27), Value::NoProg);
    assert_eq!(Value::from_code(28), Value::NoProgJ);
    assert_eq!(Value::from_code(32), Value::Eof);
}

#[test]
fn from_code_is_total_with_catch_all() {
    assert_eq!(Value::from_code(33), Value::Failure);
    assert_eq!(Value::from_code(-3), Value::Failure);
    assert_eq!(Value::from_code(12345), Value::Failure);
    assert_eq!(Value::from_code(i32::MIN), Value::Failure);
    assert_eq!(Value::from_code(i32::MAX), Value::Failure);
}

#[test]
fn code_round_trip_on_documented_range() {
    let mut code: i32 = -2;
    while code <= 32 {
        let v = Value::from_code(code);
        assert_eq!(v.to_code(), code);
        code += 1;
    }
}

#[test]
fn value_round_trip_through_codes() {
    let all = [
        Value::Success,
        Value::Failure,
        Value::Continue,
        Value::Dom,
        Value::Range,
        Value::Fault,
        Value::Inval,
        Value::Failed,
        Value::Factor,
        Value::Sanity,
        Value::NoMem,
        Value::BadFunc,
        Value::RunAway,
        Value::MaxIter,
        Value::ZeroDiv,
        Value::BadTol,
        Value::Tol,
        Value::UndrFlw,
        Value::OvrFlw,
        Value::Loss,
        Value::Round,
        Value::BadLen,
        Value::NotSqr,
        Value::Sing,
        Value::Diverge,
        Value::Unsup,
        Value::Unimpl,
        Value::Cache,
        Value::Table,
        Value::NoProg,
        Value::NoProgJ,
        Value::TolF,
        Value::TolX,
        Value::TolG,
        Value::Eof,
    ];
    for v in all {
        assert_eq!(Value::from_code(v.to_code()), v);
    }
}

#[test]
fn from_trait_matches_from_code() {
    assert_eq!(Value::from(0), Value::Success);
    assert_eq!(Value::from(19), Value::BadLen);
    assert_eq!(Value::from(99), Value::Failure);
}

#[test]
fn kinds_cover_the_taxonomy() {
    assert_eq!(Value::Success.kind(), ErrorKind::Success);
    assert_eq!(Value::Dom.kind(), ErrorKind::Domain);
    assert_eq!(Value::ZeroDiv.kind(), ErrorKind::Domain);
    assert_eq!(Value::Range.kind(), ErrorKind::Range);
    assert_eq!(Value::Inval.kind(), ErrorKind::InvalidArgument);
    assert_eq!(Value::BadLen.kind(), ErrorKind::InvalidArgument);
    assert_eq!(Value::NotSqr.kind(), ErrorKind::InvalidArgument);
    assert_eq!(Value::NoMem.kind(), ErrorKind::OutOfMemory);
    assert_eq!(Value::MaxIter.kind(), ErrorKind::NoConvergence);
    assert_eq!(Value::NoProg.kind(), ErrorKind::NoConvergence);
    assert_eq!(Value::NoProgJ.kind(), ErrorKind::NoConvergence);
    assert_eq!(Value::Continue.kind(), ErrorKind::NoConvergence);
    assert_eq!(Value::OvrFlw.kind(), ErrorKind::Overflow);
    assert_eq!(Value::UndrFlw.kind(), ErrorKind::Underflow);
    assert_eq!(Value::Failure.kind(), ErrorKind::Failure);
    assert_eq!(Value::Fault.kind(), ErrorKind::Failure);
    assert_eq!(Value::Sing.kind(), ErrorKind::Failure);
}

#[test]
fn undocumented_codes_classify_as_failure() {
    assert_eq!(Value::from_code(1000).kind(), ErrorKind::Failure);
    assert_eq!(Value::from_code(-100).kind(), ErrorKind::Failure);
}
