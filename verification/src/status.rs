//! Status codes and their classification.
//!
//! Every operation of the native engine reports a small integer: zero for
//! success, a documented nonzero code for each failure condition.  `Value`
//! enumerates the documented codes, `value_of_code` maps every integer to a
//! `Value` totally (undocumented integers fall into the generic `Failure`
//! catch-all), and `ErrorKind` classifies the codes into the closed taxonomy
//! that callers are expected to match on.

use vstd::prelude::*;

verus! {

/// One status code of the native engine.
///
/// `Success` is the zero code; the remaining variants are the documented
/// failure codes, in the engine's numbering (`Dom` is 1, `Range` is 2, and
/// so on up to `Eof` at 32, with `Failure` at -1 and `Continue` at -2).
/// `Failure` doubles as the catch-all for integers outside the documented
/// set.
#[derive(Clone, Copy, Debug, PartialEq, Eq, Structural)]
pub enum Value {
    /// The operation completed.
    Success,
    /// Generic failure, and the catch-all for undocumented codes.
    Failure,
    /// An iteration has not converged yet; iterate again.
    Continue,
    /// Input domain error.
    Dom,
    /// Output range error.
    Range,
    /// Invalid pointer.
    Fault,
    /// Invalid argument.
    Inval,
    /// Generic failure reported by a lower layer.
    Failed,
    /// Factorization failed.
    Factor,
    /// Sanity check failed.
    Sanity,
    /// Memory allocation failed.
    NoMem,
    /// Problem with a user-supplied function.
    BadFunc,
    /// Iterative process is out of control.
    RunAway,
    /// Exceeded the maximum number of iterations.
    MaxIter,
    /// Tried to divide by zero.
    ZeroDiv,
    /// Specified tolerance is invalid.
    BadTol,
    /// Failed to reach the specified tolerance.
    Tol,
    /// Underflow.
    UndrFlw,
    /// Overflow.
    OvrFlw,
    /// Loss of accuracy.
    Loss,
    /// Failed because of roundoff error.
    Round,
    /// Matrix or vector lengths are not conformant.
    BadLen,
    /// Matrix is not square.
    NotSqr,
    /// Apparent singularity detected.
    Sing,
    /// Integral or series is divergent.
    Diverge,
    /// The required feature is not supported by this hardware platform.
    Unsup,
    /// The requested feature is not (yet) implemented.
    Unimpl,
    /// Cache limit exceeded.
    Cache,
    /// Table limit exceeded.
    Table,
    /// Iteration is not making progress towards solution.
    NoProg,
    /// Jacobian evaluations are not improving the solution.
    NoProgJ,
    /// Cannot reach the specified tolerance in the function value.
    TolF,
    /// Cannot reach the specified tolerance in the solution.
    TolX,
    /// Cannot reach the specified tolerance in the gradient.
    TolG,
    /// End of file.
    Eof,
}

/// The classification of status codes that callers match on: success, the
/// documented error families, and a generic failure for everything else.
#[derive(Clone, Copy, Debug, PartialEq, Eq, Structural)]
pub enum ErrorKind {
    /// No error.
    Success,
    /// The input lay outside the domain of the requested computation.
    Domain,
    /// The result lay outside the representable output range.
    Range,
    /// An argument was invalid, including non-conformant dimensions.
    InvalidArgument,
    /// A native allocation failed.
    OutOfMemory,
    /// An iterative method stopped before converging.
    NoConvergence,
    /// Numeric overflow.
    Overflow,
    /// Numeric underflow.
    Underflow,
    /// Any other failure.
    Failure,
}

/// The integer that the engine uses for status `v`.
pub open spec fn code_of(v: Value) -> int {
    match v {
        Value::Success => 0,
        Value::Failure => -1,
        Value::Continue => -2,
        Value::Dom => 1,
        Value::Range => 2,
        Value::Fault => 3,
        Value::Inval => 4,
        Value::Failed => 5,
        Value::Factor => 6,
        Value::Sanity => 7,
        Value::NoMem => 8,
        Value::BadFunc => 9,
        Value::RunAway => 10,
        Value::MaxIter => 11,
        Value::ZeroDiv => 12,
        Value::BadTol => 13,
        Value::Tol => 14,
        Value::UndrFlw => 15,
        Value::OvrFlw => 16,
        Value::Loss => 17,
        Value::Round => 18,
        Value::BadLen => 19,
        Value::NotSqr => 20,
        Value::Sing => 21,
        Value::Diverge => 22,
        Value::Unsup => 23,
        Value::Unimpl => 24,
        Value::Cache => 25,
        Value::Table => 26,
        Value::NoProg => 27,
        Value::NoProgJ => 28,
        Value::TolF => 29,
        Value::TolX => 30,
        Value::TolG => 31,
        Value::Eof => 32,
    }
}

/// Whether `c` is one of the documented status codes.
pub open spec fn is_known_code(c: int) -> bool {
    -2 <= c <= 32
}

/// The status that integer `c` denotes; total, with `Failure` as the
/// catch-all for integers outside the documented set.
pub open spec fn value_of_code(c: int) -> Value {
    if c == 0 {
        Value::Success
    } else if c == -2 {
        Value::Continue
    } else if c == 1 {
        Value::Dom
    } else if c == 2 {
        Value::Range
    } else if c == 3 {
        Value::Fault
    } else if c == 4 {
        Value::Inval
    } else if c == 5 {
        Value::Failed
    } else if c == 6 {
        Value::Factor
    } else if c == 7 {
        Value::Sanity
    } else if c == 8 {
        Value::NoMem
    } else if c == 9 {
        Value::BadFunc
    } else if c == 10 {
        Value::RunAway
    } else if c == 11 {
        Value::MaxIter
    } else if c == 12 {
        Value::ZeroDiv
    } else if c == 13 {
        Value::BadTol
    } else if c == 14 {
        Value::Tol
    } else if c == 15 {
        Value::UndrFlw
    } else if c == 16 {
        Value::OvrFlw
    } else if c == 17 {
        Value::Loss
    } else if c == 18 {
        Value::Round
    } else if c == 19 {
        Value::BadLen
    } else if c == 20 {
        Value::NotSqr
    } else if c == 21 {
        Value::Sing
    } else if c == 22 {
        Value::Diverge
    } else if c == 23 {
        Value::Unsup
    } else if c == 24 {
        Value::Unimpl
    } else if c == 25 {
        Value::Cache
    } else if c == 26 {
        Value::Table
    } else if c == 27 {
        Value::NoProg
    } else if c == 28 {
        Value::NoProgJ
    } else if c == 29 {
        Value::TolF
    } else if c == 30 {
        Value::TolX
    } else if c == 31 {
        Value::TolG
    } else if c == 32 {
        Value::Eof
    } else {
        Value::Failure
    }
}

/// The error family of status `v`.
///
/// Domain and division-by-zero troubles classify as `Domain`; the three
/// argument-validation codes (invalid argument, non-conformant lengths,
/// non-square matrix) classify as `InvalidArgument`; the codes reporting a
/// stalled or unfinished iteration classify as `NoConvergence`; the
/// remaining documented codes keep the generic `Failure` kind.
pub open spec fn kind_of(v: Value) -> ErrorKind {
    match v {
        Value::Success => ErrorKind::Success,
        Value::Dom => ErrorKind::Domain,
        Value::ZeroDiv => ErrorKind::Domain,
        Value::Range => ErrorKind::Range,
        Value::Inval => ErrorKind::InvalidArgument,
        Value::BadLen => ErrorKind::InvalidArgument,
        Value::NotSqr => ErrorKind::InvalidArgument,
        Value::NoMem => ErrorKind::OutOfMemory,
        Value::MaxIter => ErrorKind::NoConvergence,
        Value::NoProg => ErrorKind::NoConvergence,
        Value::NoProgJ => ErrorKind::NoConvergence,
        Value::Continue => ErrorKind::NoConvergence,
        Value::OvrFlw => ErrorKind::Overflow,
        Value::UndrFlw => ErrorKind::Underflow,
        _ => ErrorKind::Failure,
    }
}

/// The status that every length-checked binary operation reports: `Success`
/// when the operand lengths agree, the non-conformant-lengths code otherwise.
pub open spec fn conformance_status(n1: nat, n2: nat) -> Value {
    if n1 == n2 {
        Value::Success
    } else {
        Value::BadLen
    }
}

impl Value {
    /// The status denoted by the engine's integer `code`; total.
    pub fn from_code(code: i32) -> (r: Value)
        ensures
            r == value_of_code(code as int),
    {
        match code {
            0 => Value::Success,
            -2 => Value::Continue,
            1 => Value::Dom,
            2 => Value::Range,
            3 => Value::Fault,
            4 => Value::Inval,
            5 => Value::Failed,
            6 => Value::Factor,
            7 => Value::Sanity,
            8 => Value::NoMem,
            9 => Value::BadFunc,
            10 => Value::RunAway,
            11 => Value::MaxIter,
            12 => Value::ZeroDiv,
            13 => Value::BadTol,
            14 => Value::Tol,
            15 => Value::UndrFlw,
            16 => Value::OvrFlw,
            17 => Value::Loss,
            18 => Value::Round,
            19 => Value::BadLen,
            20 => Value::NotSqr,
            21 => Value::Sing,
            22 => Value::Diverge,
            23 => Value::Unsup,
            24 => Value::Unimpl,
            25 => Value::Cache,
            26 => Value::Table,
            27 => Value::NoProg,
            28 => Value::NoProgJ,
            29 => Value::TolF,
            30 => Value::TolX,
            31 => Value::TolG,
            32 => Value::Eof,
            _ => Value::Failure,
        }
    }

    /// The integer that the engine uses for this status.
    pub fn to_code(&self) -> (r: i32)
        ensures
            r as int == code_of(*self),
    {
        match self {
            Value::Success => 0,
            Value::Failure => -1,
            Value::Continue => -2,
            Value::Dom => 1,
            Value::Range => 2,
            Value::Fault => 3,
            Value::Inval => 4,
            Value::Failed => 5,
            Value::Factor => 6,
            Value::Sanity => 7,
            Value::NoMem => 8,
            Value::BadFunc => 9,
            Value::RunAway => 10,
            Value::MaxIter => 11,
            Value::ZeroDiv => 12,
            Value::BadTol => 13,
            Value::Tol => 14,
            Value::UndrFlw => 15,
            Value::OvrFlw => 16,
            Value::Loss => 17,
            Value::Round => 18,
            Value::BadLen => 19,
            Value::NotSqr => 20,
            Value::Sing => 21,
            Value::Diverge => 22,
            Value::Unsup => 23,
            Value::Unimpl => 24,
            Value::Cache => 25,
            Value::Table => 26,
            Value::NoProg => 27,
            Value::NoProgJ => 28,
            Value::TolF => 29,
            Value::TolX => 30,
            Value::TolG => 31,
            Value::Eof => 32,
        }
    }

    /// Whether this status is the success code.
    pub fn is_success(&self) -> (r: bool)
        ensures
            r == (*self == Value::Success),
    {
        matches!(self, Value::Success)
    }

    /// The error family of this status.
    pub fn kind(&self) -> (r: ErrorKind)
        ensures
            r == kind_of(*self),
    {
        match self {
            Value::Success => ErrorKind::Success,
            Value::Dom => ErrorKind::Domain,
            Value::ZeroDiv => ErrorKind::Domain,
            Value::Range => ErrorKind::Range,
            Value::Inval => ErrorKind::InvalidArgument,
            Value::BadLen => ErrorKind::InvalidArgument,
            Value::NotSqr => ErrorKind::InvalidArgument,
            Value::NoMem => ErrorKind::OutOfMemory,
            Value::MaxIter => ErrorKind::NoConvergence,
            Value::NoProg => ErrorKind::NoConvergence,
            Value::NoProgJ => ErrorKind::NoConvergence,
            Value::Continue => ErrorKind::NoConvergence,
            Value::OvrFlw => ErrorKind::Overflow,
            Value::UndrFlw => ErrorKind::Underflow,
            _ => ErrorKind::Failure,
        }
    }
}

impl From<i32> for Value {
    /// The status denoted by the engine's integer, as `value_of_code`
    /// maps it; total, with the generic-failure catch-all.
    fn from(code: i32) -> (r: Value) {
        Value::from_code(code)
    }
}

impl vstd::std_specs::convert::FromSpecImpl<i32> for Value {
    open spec fn obeys_from_spec() -> bool {
        true
    }

    open spec fn from_spec(code: i32) -> Value {
        value_of_code(code as int)
    }
}

/// Decoding the integer of a status yields that status back: the numbering
/// is injective and the decoder inverts it on every documented status,
/// including the catch-all itself.
pub proof fn lemma_code_round_trip(v: Value)
    ensures
        value_of_code(code_of(v)) == v,
{
}

/// Encoding the status denoted by a documented integer yields that integer
/// back: on the documented range the decoder loses nothing.
pub proof fn lemma_known_code_round_trip(c: int)
    requires
        is_known_code(c),
    ensures
        code_of(value_of_code(c)) == c,
{
}

/// The decoding is total: every integer outside the documented set maps to
/// the generic-failure catch-all, never to nothing.
pub proof fn lemma_unknown_code_is_failure(c: int)
    requires
        !is_known_code(c),
    ensures
        value_of_code(c) == Value::Failure,
{
}

/// A length mismatch between operands always classifies as an
/// invalid-argument error, never as success or a crash.
pub proof fn lemma_mismatch_is_invalid_argument(n1: nat, n2: nat)
    requires
        n1 != n2,
    ensures
        conformance_status(n1, n2) == Value::BadLen,
        kind_of(conformance_status(n1, n2)) == ErrorKind::InvalidArgument,
{
}

} // verus!
