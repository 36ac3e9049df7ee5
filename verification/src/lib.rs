//! A verified model of a numerical binding layer.
//!
//! The library captures the bookkeeping that a safe wrapper around a native
//! numerical engine must get right: owning handles with fixed dimensions,
//! bounds-respecting element access, deep copies, and a total mapping from
//! the engine's small-integer status codes to a closed set of error kinds.
//! Scalars are carried as opaque bit patterns (`u32`/`u64`), so every data
//! movement the library performs is specified and proved exactly; the
//! numeric interpretation of those patterns, and all arithmetic on them,
//! is supplied by callers (through closures or outside the library).
//!
//! Out-of-range element reads and writes follow the convention of an engine
//! whose error handler has been configured to report instead of abort: a read
//! outside the valid range yields the zero pattern, a write outside it is
//! ignored, and operations on mismatched dimensions report a status code and
//! leave their operands unchanged.

use vstd::prelude::*;

pub mod complex;
pub mod eigen;
pub mod grid;
pub mod matrix;
pub mod matrix_complex;
pub mod pow;
pub mod status;
pub mod storage;
pub mod vector;
pub mod vector_complex;

pub use complex::{ComplexF32, ComplexF64};
pub use eigen::{
    EigenGenHermVWorkspace, EigenGenHermWorkspace, EigenGenSymmVWorkspace, EigenGenSymmWorkspace,
    EigenGenVWorkspace, EigenGenWorkspace, EigenHermitianVWorkspace, EigenHermitianWorkspace,
    EigenNonSymmetricVWorkspace, EigenNonSymmetricWorkspace, EigenSymmetricVWorkspace,
    EigenSymmetricWorkspace,
};
pub use matrix::{MatrixF32, MatrixF64};
pub use matrix_complex::{MatrixComplexF32, MatrixComplexF64};
pub use pow::Pow;
pub use status::{ErrorKind, Value};
pub use vector::{VectorF32, VectorF64};
pub use vector_complex::{VectorComplexF32, VectorComplexF64};

verus! {

/// Index as reported by the basic-linear-algebra routines of the engine.
pub struct CblasIndex(pub u32);

} // verus!
