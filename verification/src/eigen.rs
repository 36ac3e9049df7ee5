//! Algorithm workspaces for the eigensystem family.
//!
//! A workspace is scratch state sized for one problem dimension, allocated
//! once and reused across repeated invocations of one algorithm on inputs
//! of that dimension.  The library models what is checkable about this
//! family without running the engine: the dimension recorded at
//! allocation, the solver parameters that later invocations read, and the
//! argument validation that the engine performs before touching any data —
//! a non-square matrix, an output of the wrong length, or a workspace
//! smaller than the matrix is rejected with the exact status code the
//! engine reports, while a larger workspace is accepted and reused.  The decompositions themselves are the engine's work
//! and happen outside the library.

use vstd::prelude::*;

use crate::matrix::MatrixF64;
use crate::matrix_complex::MatrixComplexF64;
use crate::status::Value;
use crate::vector::VectorF64;
use crate::vector_complex::VectorComplexF64;

verus! {

/// The status with which the engine accepts or rejects the arguments of an
/// eigenvalue computation on one matrix: the matrix must be square, the
/// eigenvalue vector must match its size, and the workspace must have been
/// allocated for at least that dimension — the engine computes with any
/// workspace at least as large as the matrix.
pub open spec fn eigen_status(n: nat, a_rows: nat, a_cols: nat, eval_len: nat) -> Value {
    if a_rows != a_cols {
        Value::NotSqr
    } else if eval_len != a_rows {
        Value::BadLen
    } else if n < a_rows {
        Value::BadLen
    } else {
        Value::Success
    }
}

/// As `eigen_status`, with an eigenvector matrix that must be square of
/// the same dimension.
pub open spec fn eigen_v_status(
    n: nat,
    a_rows: nat,
    a_cols: nat,
    eval_len: nat,
    evec_rows: nat,
    evec_cols: nat,
) -> Value {
    if a_rows != a_cols {
        Value::NotSqr
    } else if eval_len != a_rows {
        Value::BadLen
    } else if evec_rows != a_rows || evec_cols != a_rows {
        Value::BadLen
    } else if n < a_rows {
        Value::BadLen
    } else {
        Value::Success
    }
}

/// The status with which the engine accepts or rejects the arguments of a
/// generalized eigenvalue computation on a matrix pair: both matrices must
/// be square and of one size, the eigenvalue vector must match it, and the
/// workspace must have been allocated for at least that dimension.
pub open spec fn eigen_gen_status(
    n: nat,
    a_rows: nat,
    a_cols: nat,
    b_rows: nat,
    b_cols: nat,
    eval_len: nat,
) -> Value {
    if a_rows != a_cols {
        Value::NotSqr
    } else if b_rows != b_cols {
        Value::NotSqr
    } else if b_rows != a_rows {
        Value::BadLen
    } else if eval_len != a_rows {
        Value::BadLen
    } else if n < a_rows {
        Value::BadLen
    } else {
        Value::Success
    }
}

/// As `eigen_gen_status`, with an eigenvector matrix that must be square
/// of the same dimension.
pub open spec fn eigen_gen_v_status(
    n: nat,
    a_rows: nat,
    a_cols: nat,
    b_rows: nat,
    b_cols: nat,
    eval_len: nat,
    evec_rows: nat,
    evec_cols: nat,
) -> Value {
    if eigen_gen_status(n, a_rows, a_cols, b_rows, b_cols, eval_len) != Value::Success {
        eigen_gen_status(n, a_rows, a_cols, b_rows, b_cols, eval_len)
    } else if evec_rows != a_rows || evec_cols != a_rows {
        Value::BadLen
    } else {
        Value::Success
    }
}

/// The status that a further square output of dimension `n` adds to an
/// already-accepted argument list: a Schur-vector matrix of the wrong
/// shape is rejected with the length-mismatch code.
pub open spec fn extra_square_status(base: Value, rows: nat, cols: nat, n: nat) -> Value {
    if base != Value::Success {
        base
    } else if rows != n || cols != n {
        Value::BadLen
    } else {
        Value::Success
    }
}

/// As `eigen_gen_status`, for the solvers that report eigenvalue pairs:
/// the `alpha` and `beta` outputs must each match the matrix size.
pub open spec fn eigen_gen_pair_status(
    n: nat,
    a_rows: nat,
    a_cols: nat,
    b_rows: nat,
    b_cols: nat,
    alpha_len: nat,
    beta_len: nat,
) -> Value {
    if a_rows != a_cols {
        Value::NotSqr
    } else if b_rows != b_cols {
        Value::NotSqr
    } else if b_rows != a_rows {
        Value::BadLen
    } else if alpha_len != a_rows {
        Value::BadLen
    } else if beta_len != a_rows {
        Value::BadLen
    } else if n < a_rows {
        Value::BadLen
    } else {
        Value::Success
    }
}

/// Workspace for computing eigenvalues of real symmetric matrices;
/// its scratch grows linearly with the dimension.
pub struct EigenSymmetricWorkspace {
    n: usize,
}

impl EigenSymmetricWorkspace {
    /// The problem dimension this workspace was allocated for.
    pub closed spec fn dim(&self) -> nat {
        self.n as nat
    }

    /// A workspace for computing eigenvalues of `n`-by-`n` real symmetric matrices, or
    /// nothing when the dimension is not a positive integer.
    pub fn new(n: usize) -> (r: Option<EigenSymmetricWorkspace>)
        ensures
            r is Some <==> n > 0,
            r is Some ==> r.unwrap().dim() == n,
    {
        if n == 0 {
            None
        } else {
            Some(EigenSymmetricWorkspace { n })
        }
    }

    /// The dimension recorded at allocation.
    pub fn size(&self) -> (r: usize)
        ensures
            r == self.dim(),
    {
        self.n
    }

    /// The status with which the engine would accept or reject these
    /// arguments for the eigenvalues of a real symmetric matrix.
    /// A workspace smaller than the matrix, like any other mismatch, is
    /// rejected before any data is touched.
    pub fn symm_status(&self, a: &MatrixF64, eval: &VectorF64) -> (r: Value)
        ensures
            r == eigen_status(self.dim(), a.nrows(), a.ncols(), eval@.len()),
    {
        if a.size1() != a.size2() {
            return Value::NotSqr;
        }
        if eval.len() != a.size1() {
            return Value::BadLen;
        }
        if self.n < a.size1() {
            return Value::BadLen;
        }
        Value::Success
    }

}

/// Workspace for computing eigenvalues and eigenvectors of real
/// symmetric matrices.
pub struct EigenSymmetricVWorkspace {
    n: usize,
}

impl EigenSymmetricVWorkspace {
    /// The problem dimension this workspace was allocated for.
    pub closed spec fn dim(&self) -> nat {
        self.n as nat
    }

    /// A workspace for computing eigenvalues and eigenvectors of `n`-by-`n` real symmetric matrices, or
    /// nothing when the dimension is not a positive integer.
    pub fn new(n: usize) -> (r: Option<EigenSymmetricVWorkspace>)
        ensures
            r is Some <==> n > 0,
            r is Some ==> r.unwrap().dim() == n,
    {
        if n == 0 {
            None
        } else {
            Some(EigenSymmetricVWorkspace { n })
        }
    }

    /// The dimension recorded at allocation.
    pub fn size(&self) -> (r: usize)
        ensures
            r == self.dim(),
    {
        self.n
    }

    /// The status with which the engine would accept or reject these
    /// arguments for the eigenvalues and eigenvectors of a real symmetric matrix.
    /// A workspace smaller than the matrix, like any other mismatch, is
    /// rejected before any data is touched.
    pub fn symmv_status(&self, a: &MatrixF64, eval: &VectorF64, evec: &MatrixF64) -> (r: Value)
        ensures
            r == eigen_v_status(self.dim(), a.nrows(), a.ncols(), eval@.len(), evec.nrows(), evec.ncols()),
    {
        if a.size1() != a.size2() {
            return Value::NotSqr;
        }
        if eval.len() != a.size1() {
            return Value::BadLen;
        }
        if evec.size1() != a.size1() || evec.size2() != a.size1() {
            return Value::BadLen;
        }
        if self.n < a.size1() {
            return Value::BadLen;
        }
        Value::Success
    }

}

/// Workspace for computing eigenvalues of complex hermitian matrices.
pub struct EigenHermitianWorkspace {
    n: usize,
}

impl EigenHermitianWorkspace {
    /// The problem dimension this workspace was allocated for.
    pub closed spec fn dim(&self) -> nat {
        self.n as nat
    }

    /// A workspace for computing eigenvalues of `n`-by-`n` complex hermitian matrices, or
    /// nothing when the dimension is not a positive integer.
    pub fn new(n: usize) -> (r: Option<EigenHermitianWorkspace>)
        ensures
            r is Some <==> n > 0,
            r is Some ==> r.unwrap().dim() == n,
    {
        if n == 0 {
            None
        } else {
            Some(EigenHermitianWorkspace { n })
        }
    }

    /// The dimension recorded at allocation.
    pub fn size(&self) -> (r: usize)
        ensures
            r == self.dim(),
    {
        self.n
    }

    /// The status with which the engine would accept or reject these
    /// arguments for the eigenvalues of a complex hermitian matrix.
    /// A workspace smaller than the matrix, like any other mismatch, is
    /// rejected before any data is touched.
    pub fn herm_status(&self, a: &MatrixComplexF64, eval: &VectorF64) -> (r: Value)
        ensures
            r == eigen_status(self.dim(), a.nrows(), a.ncols(), eval@.len()),
    {
        if a.size1() != a.size2() {
            return Value::NotSqr;
        }
        if eval.len() != a.size1() {
            return Value::BadLen;
        }
        if self.n < a.size1() {
            return Value::BadLen;
        }
        Value::Success
    }

}

/// Workspace for computing eigenvalues and eigenvectors of complex
/// hermitian matrices.
pub struct EigenHermitianVWorkspace {
    n: usize,
}

impl EigenHermitianVWorkspace {
    /// The problem dimension this workspace was allocated for.
    pub closed spec fn dim(&self) -> nat {
        self.n as nat
    }

    /// A workspace for computing eigenvalues and eigenvectors of `n`-by-`n` complex hermitian matrices, or
    /// nothing when the dimension is not a positive integer.
    pub fn new(n: usize) -> (r: Option<EigenHermitianVWorkspace>)
        ensures
            r is Some <==> n > 0,
            r is Some ==> r.unwrap().dim() == n,
    {
        if n == 0 {
            None
        } else {
            Some(EigenHermitianVWorkspace { n })
        }
    }

    /// The dimension recorded at allocation.
    pub fn size(&self) -> (r: usize)
        ensures
            r == self.dim(),
    {
        self.n
    }

    /// The status with which the engine would accept or reject these
    /// arguments for the eigenvalues and eigenvectors of a complex hermitian matrix.
    /// A workspace smaller than the matrix, like any other mismatch, is
    /// rejected before any data is touched.
    pub fn hermv_status(&self, a: &MatrixComplexF64, eval: &VectorF64, evec: &MatrixComplexF64) -> (r: Value)
        ensures
            r == eigen_v_status(self.dim(), a.nrows(), a.ncols(), eval@.len(), evec.nrows(), evec.ncols()),
    {
        if a.size1() != a.size2() {
            return Value::NotSqr;
        }
        if eval.len() != a.size1() {
            return Value::BadLen;
        }
        if evec.size1() != a.size1() || evec.size2() != a.size1() {
            return Value::BadLen;
        }
        if self.n < a.size1() {
            return Value::BadLen;
        }
        Value::Success
    }

}

/// Workspace for computing eigenvalues of real nonsymmetric matrices,
/// with the solver parameters that later invocations read.
pub struct EigenNonSymmetricWorkspace {
    n: usize,
    compute_t: i32,
    balance: i32,
}

impl EigenNonSymmetricWorkspace {
    /// The problem dimension this workspace was allocated for.
    pub closed spec fn dim(&self) -> nat {
        self.n as nat
    }

    /// A workspace for computing eigenvalues of `n`-by-`n` real nonsymmetric matrices, or
    /// nothing when the dimension is not a positive integer.
    pub fn new(n: usize) -> (r: Option<EigenNonSymmetricWorkspace>)
        ensures
            r is Some <==> n > 0,
            r is Some ==> r.unwrap().dim() == n,
            r is Some ==> r.unwrap().compute_t_flag() == 0 && r.unwrap().balance_flag() == 0,
    {
        if n == 0 {
            None
        } else {
            Some(EigenNonSymmetricWorkspace { n, compute_t: 0i32, balance: 0i32 })
        }
    }

    /// The dimension recorded at allocation.
    pub fn size(&self) -> (r: usize)
        ensures
            r == self.dim(),
    {
        self.n
    }

    /// Whether subsequent invocations compute the full Schur form.
    pub closed spec fn compute_t_flag(&self) -> int {
        self.compute_t as int
    }

    /// Whether a balancing transformation is applied first.
    pub closed spec fn balance_flag(&self) -> int {
        self.balance as int
    }

    /// Sets the parameters that subsequent invocations read: whether the
    /// full Schur form is wanted, and whether the matrix is balanced
    /// before the computation.  Both default to off at allocation.
    pub fn params(&mut self, compute_t: i32, balance: i32)
        ensures
            final(self).dim() == old(self).dim(),
            final(self).compute_t_flag() == compute_t as int,
            final(self).balance_flag() == balance as int,
    {
        self.compute_t = compute_t;
        self.balance = balance;
    }

    /// The status with which the engine would accept or reject these
    /// arguments for the eigenvalues of a real nonsymmetric matrix.
    /// A workspace smaller than the matrix, like any other mismatch, is
    /// rejected before any data is touched.
    pub fn nonsymm_status(&self, a: &MatrixF64, eval: &VectorComplexF64) -> (r: Value)
        ensures
            r == eigen_status(self.dim(), a.nrows(), a.ncols(), eval@.len()),
    {
        if a.size1() != a.size2() {
            return Value::NotSqr;
        }
        if eval.len() != a.size1() {
            return Value::BadLen;
        }
        if self.n < a.size1() {
            return Value::BadLen;
        }
        Value::Success
    }

    /// The status with which the engine would accept or reject these
    /// arguments for the eigenvalues of a real nonsymmetric matrix with its Schur vectors.
    /// A workspace smaller than the matrix, like any other mismatch, is
    /// rejected before any data is touched.
    pub fn nonsymm_z_status(&self, a: &MatrixF64, eval: &VectorComplexF64, z: &MatrixF64) -> (r: Value)
        ensures
            r == extra_square_status(eigen_status(self.dim(), a.nrows(), a.ncols(), eval@.len()), z.nrows(), z.ncols(), a.nrows()),
    {
        if a.size1() != a.size2() {
            return Value::NotSqr;
        }
        if eval.len() != a.size1() {
            return Value::BadLen;
        }
        if self.n < a.size1() {
            return Value::BadLen;
        }
        if z.size1() != a.size1() || z.size2() != a.size1() {
            return Value::BadLen;
        }
        Value::Success
    }

}

/// Workspace for computing eigenvalues and right eigenvectors of real
/// nonsymmetric matrices, with the solver parameter that later
/// invocations read.
pub struct EigenNonSymmetricVWorkspace {
    n: usize,
    balance: i32,
}

impl EigenNonSymmetricVWorkspace {
    /// The problem dimension this workspace was allocated for.
    pub closed spec fn dim(&self) -> nat {
        self.n as nat
    }

    /// A workspace for computing eigenvalues and eigenvectors of `n`-by-`n` real nonsymmetric matrices, or
    /// nothing when the dimension is not a positive integer.
    pub fn new(n: usize) -> (r: Option<EigenNonSymmetricVWorkspace>)
        ensures
            r is Some <==> n > 0,
            r is Some ==> r.unwrap().dim() == n,
            r is Some ==> r.unwrap().balance_flag() == 0,
    {
        if n == 0 {
            None
        } else {
            Some(EigenNonSymmetricVWorkspace { n, balance: 0i32 })
        }
    }

    /// The dimension recorded at allocation.
    pub fn size(&self) -> (r: usize)
        ensures
            r == self.dim(),
    {
        self.n
    }

    /// Whether a balancing transformation is applied first.
    pub closed spec fn balance_flag(&self) -> int {
        self.balance as int
    }

    /// Sets the parameter that subsequent invocations read: whether the
    /// matrix is balanced before the computation.  Off by default, since
    /// balancing does not preserve the orthogonality of the Schur vectors.
    pub fn params(&mut self, balance: i32)
        ensures
            final(self).dim() == old(self).dim(),
            final(self).balance_flag() == balance as int,
    {
        self.balance = balance;
    }

    /// The status with which the engine would accept or reject these
    /// arguments for the eigenvalues and right eigenvectors of a real nonsymmetric matrix.
    /// A workspace smaller than the matrix, like any other mismatch, is
    /// rejected before any data is touched.
    pub fn nonsymmv_status(&self, a: &MatrixF64, eval: &VectorComplexF64, evec: &MatrixComplexF64) -> (r: Value)
        ensures
            r == eigen_v_status(self.dim(), a.nrows(), a.ncols(), eval@.len(), evec.nrows(), evec.ncols()),
    {
        if a.size1() != a.size2() {
            return Value::NotSqr;
        }
        if eval.len() != a.size1() {
            return Value::BadLen;
        }
        if evec.size1() != a.size1() || evec.size2() != a.size1() {
            return Value::BadLen;
        }
        if self.n < a.size1() {
            return Value::BadLen;
        }
        Value::Success
    }

    /// The status with which the engine would accept or reject these
    /// arguments for the eigenvalues and right eigenvectors of a real nonsymmetric matrix with its Schur vectors.
    /// A workspace smaller than the matrix, like any other mismatch, is
    /// rejected before any data is touched.
    pub fn nonsymmv_z_status(&self, a: &MatrixF64, eval: &VectorComplexF64, evec: &MatrixComplexF64, z: &MatrixF64) -> (r: Value)
        ensures
            r == extra_square_status(eigen_v_status(self.dim(), a.nrows(), a.ncols(), eval@.len(), evec.nrows(), evec.ncols()), z.nrows(), z.ncols(), a.nrows()),
    {
        if a.size1() != a.size2() {
            return Value::NotSqr;
        }
        if eval.len() != a.size1() {
            return Value::BadLen;
        }
        if evec.size1() != a.size1() || evec.size2() != a.size1() {
            return Value::BadLen;
        }
        if self.n < a.size1() {
            return Value::BadLen;
        }
        if z.size1() != a.size1() || z.size2() != a.size1() {
            return Value::BadLen;
        }
        Value::Success
    }

}

/// Workspace for computing eigenvalues of real generalized symmetric-definite eigensystems.
pub struct EigenGenSymmWorkspace {
    n: usize,
}

impl EigenGenSymmWorkspace {
    /// The problem dimension this workspace was allocated for.
    pub closed spec fn dim(&self) -> nat {
        self.n as nat
    }

    /// A workspace for computing eigenvalues of `n`-by-`n` real generalized symmetric-definite eigensystems, or
    /// nothing when the dimension is not a positive integer.
    pub fn new(n: usize) -> (r: Option<EigenGenSymmWorkspace>)
        ensures
            r is Some <==> n > 0,
            r is Some ==> r.unwrap().dim() == n,
    {
        if n == 0 {
            None
        } else {
            Some(EigenGenSymmWorkspace { n })
        }
    }

    /// The dimension recorded at allocation.
    pub fn size(&self) -> (r: usize)
        ensures
            r == self.dim(),
    {
        self.n
    }

    /// The status with which the engine would accept or reject these
    /// arguments for the eigenvalues of a generalized definite matrix pair.
    /// A workspace smaller than the matrix, like any other mismatch, is
    /// rejected before any data is touched.
    pub fn gensymm_status(&self, a: &MatrixF64, b: &MatrixF64, eval: &VectorF64) -> (r: Value)
        ensures
            r == eigen_gen_status(self.dim(), a.nrows(), a.ncols(), b.nrows(), b.ncols(), eval@.len()),
    {
        if a.size1() != a.size2() {
            return Value::NotSqr;
        }
        if b.size1() != b.size2() {
            return Value::NotSqr;
        }
        if b.size1() != a.size1() {
            return Value::BadLen;
        }
        if eval.len() != a.size1() {
            return Value::BadLen;
        }
        if self.n < a.size1() {
            return Value::BadLen;
        }
        Value::Success
    }

}

/// Workspace for computing eigenvalues and eigenvectors of real generalized symmetric-definite eigensystems.
pub struct EigenGenSymmVWorkspace {
    n: usize,
}

impl EigenGenSymmVWorkspace {
    /// The problem dimension this workspace was allocated for.
    pub closed spec fn dim(&self) -> nat {
        self.n as nat
    }

    /// A workspace for computing eigenvalues and eigenvectors of `n`-by-`n` real generalized symmetric-definite eigensystems, or
    /// nothing when the dimension is not a positive integer.
    pub fn new(n: usize) -> (r: Option<EigenGenSymmVWorkspace>)
        ensures
            r is Some <==> n > 0,
            r is Some ==> r.unwrap().dim() == n,
    {
        if n == 0 {
            None
        } else {
            Some(EigenGenSymmVWorkspace { n })
        }
    }

    /// The dimension recorded at allocation.
    pub fn size(&self) -> (r: usize)
        ensures
            r == self.dim(),
    {
        self.n
    }

    /// The status with which the engine would accept or reject these
    /// arguments for the eigenvalues and eigenvectors of a generalized definite matrix pair.
    /// A workspace smaller than the matrix, like any other mismatch, is
    /// rejected before any data is touched.
    pub fn gensymmv_status(&self, a: &MatrixF64, b: &MatrixF64, eval: &VectorF64, evec: &MatrixF64) -> (r: Value)
        ensures
            r == eigen_gen_v_status(self.dim(), a.nrows(), a.ncols(), b.nrows(), b.ncols(), eval@.len(), evec.nrows(), evec.ncols()),
    {
        if a.size1() != a.size2() {
            return Value::NotSqr;
        }
        if b.size1() != b.size2() {
            return Value::NotSqr;
        }
        if b.size1() != a.size1() {
            return Value::BadLen;
        }
        if eval.len() != a.size1() {
            return Value::BadLen;
        }
        if evec.size1() != a.size1() || evec.size2() != a.size1() {
            return Value::BadLen;
        }
        if self.n < a.size1() {
            return Value::BadLen;
        }
        Value::Success
    }

}

/// Workspace for computing eigenvalues of complex generalized hermitian-definite eigensystems.
pub struct EigenGenHermWorkspace {
    n: usize,
}

impl EigenGenHermWorkspace {
    /// The problem dimension this workspace was allocated for.
    pub closed spec fn dim(&self) -> nat {
        self.n as nat
    }

    /// A workspace for computing eigenvalues of `n`-by-`n` complex generalized hermitian-definite eigensystems, or
    /// nothing when the dimension is not a positive integer.
    pub fn new(n: usize) -> (r: Option<EigenGenHermWorkspace>)
        ensures
            r is Some <==> n > 0,
            r is Some ==> r.unwrap().dim() == n,
    {
        if n == 0 {
            None
        } else {
            Some(EigenGenHermWorkspace { n })
        }
    }

    /// The dimension recorded at allocation.
    pub fn size(&self) -> (r: usize)
        ensures
            r == self.dim(),
    {
        self.n
    }

    /// The status with which the engine would accept or reject these
    /// arguments for the eigenvalues of a generalized definite matrix pair.
    /// A workspace smaller than the matrix, like any other mismatch, is
    /// rejected before any data is touched.
    pub fn genherm_status(&self, a: &MatrixComplexF64, b: &MatrixComplexF64, eval: &VectorF64) -> (r: Value)
        ensures
            r == eigen_gen_status(self.dim(), a.nrows(), a.ncols(), b.nrows(), b.ncols(), eval@.len()),
    {
        if a.size1() != a.size2() {
            return Value::NotSqr;
        }
        if b.size1() != b.size2() {
            return Value::NotSqr;
        }
        if b.size1() != a.size1() {
            return Value::BadLen;
        }
        if eval.len() != a.size1() {
            return Value::BadLen;
        }
        if self.n < a.size1() {
            return Value::BadLen;
        }
        Value::Success
    }

}

/// Workspace for computing eigenvalues and eigenvectors of complex generalized hermitian-definite eigensystems.
pub struct EigenGenHermVWorkspace {
    n: usize,
}

impl EigenGenHermVWorkspace {
    /// The problem dimension this workspace was allocated for.
    pub closed spec fn dim(&self) -> nat {
        self.n as nat
    }

    /// A workspace for computing eigenvalues and eigenvectors of `n`-by-`n` complex generalized hermitian-definite eigensystems, or
    /// nothing when the dimension is not a positive integer.
    pub fn new(n: usize) -> (r: Option<EigenGenHermVWorkspace>)
        ensures
            r is Some <==> n > 0,
            r is Some ==> r.unwrap().dim() == n,
    {
        if n == 0 {
            None
        } else {
            Some(EigenGenHermVWorkspace { n })
        }
    }

    /// The dimension recorded at allocation.
    pub fn size(&self) -> (r: usize)
        ensures
            r == self.dim(),
    {
        self.n
    }

    /// The status with which the engine would accept or reject these
    /// arguments for the eigenvalues and eigenvectors of a generalized definite matrix pair.
    /// A workspace smaller than the matrix, like any other mismatch, is
    /// rejected before any data is touched.
    pub fn genhermv_status(&self, a: &MatrixComplexF64, b: &MatrixComplexF64, eval: &VectorF64, evec: &MatrixComplexF64) -> (r: Value)
        ensures
            r == eigen_gen_v_status(self.dim(), a.nrows(), a.ncols(), b.nrows(), b.ncols(), eval@.len(), evec.nrows(), evec.ncols()),
    {
        if a.size1() != a.size2() {
            return Value::NotSqr;
        }
        if b.size1() != b.size2() {
            return Value::NotSqr;
        }
        if b.size1() != a.size1() {
            return Value::BadLen;
        }
        if eval.len() != a.size1() {
            return Value::BadLen;
        }
        if evec.size1() != a.size1() || evec.size2() != a.size1() {
            return Value::BadLen;
        }
        if self.n < a.size1() {
            return Value::BadLen;
        }
        Value::Success
    }

}

/// Workspace for computing eigenvalue pairs of real generalized
/// nonsymmetric eigensystems, with the solver parameters that later
/// invocations read.
pub struct EigenGenWorkspace {
    n: usize,
    compute_s: i32,
    compute_t: i32,
    balance: i32,
}

impl EigenGenWorkspace {
    /// The problem dimension this workspace was allocated for.
    pub closed spec fn dim(&self) -> nat {
        self.n as nat
    }

    /// A workspace for computing eigenvalue pairs of `n`-by-`n` real generalized nonsymmetric eigensystems, or
    /// nothing when the dimension is not a positive integer.
    pub fn new(n: usize) -> (r: Option<EigenGenWorkspace>)
        ensures
            r is Some <==> n > 0,
            r is Some ==> r.unwrap().dim() == n,
            r is Some ==> r.unwrap().compute_s_flag() == 0 && r.unwrap().compute_t_flag() == 0
                && r.unwrap().balance_flag() == 0,
    {
        if n == 0 {
            None
        } else {
            Some(EigenGenWorkspace { n, compute_s: 0i32, compute_t: 0i32, balance: 0i32 })
        }
    }

    /// The dimension recorded at allocation.
    pub fn size(&self) -> (r: usize)
        ensures
            r == self.dim(),
    {
        self.n
    }

    /// Whether subsequent invocations compute the full Schur form S.
    pub closed spec fn compute_s_flag(&self) -> int {
        self.compute_s as int
    }

    /// Whether subsequent invocations compute the full Schur form T.
    pub closed spec fn compute_t_flag(&self) -> int {
        self.compute_t as int
    }

    /// The balancing parameter, recorded although generalized balancing is
    /// not performed.
    pub closed spec fn balance_flag(&self) -> int {
        self.balance as int
    }

    /// Sets the parameters that subsequent invocations read: whether the
    /// full Schur forms S and T are wanted, and the balancing parameter.
    /// All default to off at allocation.
    pub fn params(&mut self, compute_s: i32, compute_t: i32, balance: i32)
        ensures
            final(self).dim() == old(self).dim(),
            final(self).compute_s_flag() == compute_s as int,
            final(self).compute_t_flag() == compute_t as int,
            final(self).balance_flag() == balance as int,
    {
        self.compute_s = compute_s;
        self.compute_t = compute_t;
        self.balance = balance;
    }

    /// The status with which the engine would accept or reject these
    /// arguments for the eigenvalue pairs of a real generalized nonsymmetric matrix pair.
    /// A workspace smaller than the matrix, like any other mismatch, is
    /// rejected before any data is touched.
    pub fn gen_status(&self, a: &MatrixF64, b: &MatrixF64, alpha: &VectorComplexF64, beta: &VectorF64) -> (r: Value)
        ensures
            r == eigen_gen_pair_status(self.dim(), a.nrows(), a.ncols(), b.nrows(), b.ncols(), alpha@.len(), beta@.len()),
    {
        if a.size1() != a.size2() {
            return Value::NotSqr;
        }
        if b.size1() != b.size2() {
            return Value::NotSqr;
        }
        if b.size1() != a.size1() {
            return Value::BadLen;
        }
        if alpha.len() != a.size1() {
            return Value::BadLen;
        }
        if beta.len() != a.size1() {
            return Value::BadLen;
        }
        if self.n < a.size1() {
            return Value::BadLen;
        }
        Value::Success
    }

    /// The status with which the engine would accept or reject these
    /// arguments for the eigenvalue pairs of a real generalized nonsymmetric matrix pair with its left and right Schur vectors.
    /// A workspace smaller than the matrix, like any other mismatch, is
    /// rejected before any data is touched.
    pub fn gen_qz_status(&self, a: &MatrixF64, b: &MatrixF64, alpha: &VectorComplexF64, beta: &VectorF64, q: &MatrixF64, z: &MatrixF64) -> (r: Value)
        ensures
            r == extra_square_status(extra_square_status(eigen_gen_pair_status(self.dim(), a.nrows(), a.ncols(), b.nrows(), b.ncols(), alpha@.len(), beta@.len()), q.nrows(), q.ncols(), a.nrows()), z.nrows(), z.ncols(), a.nrows()),
    {
        if a.size1() != a.size2() {
            return Value::NotSqr;
        }
        if b.size1() != b.size2() {
            return Value::NotSqr;
        }
        if b.size1() != a.size1() {
            return Value::BadLen;
        }
        if alpha.len() != a.size1() {
            return Value::BadLen;
        }
        if beta.len() != a.size1() {
            return Value::BadLen;
        }
        if self.n < a.size1() {
            return Value::BadLen;
        }
        if q.size1() != a.size1() || q.size2() != a.size1() {
            return Value::BadLen;
        }
        if z.size1() != a.size1() || z.size2() != a.size1() {
            return Value::BadLen;
        }
        Value::Success
    }

}

/// Workspace for computing eigenvalue pairs and right eigenvectors of
/// real generalized nonsymmetric eigensystems.
pub struct EigenGenVWorkspace {
    n: usize,
}

impl EigenGenVWorkspace {
    /// The problem dimension this workspace was allocated for.
    pub closed spec fn dim(&self) -> nat {
        self.n as nat
    }

    /// A workspace for computing eigenvalue pairs and eigenvectors of `n`-by-`n` real generalized nonsymmetric eigensystems, or
    /// nothing when the dimension is not a positive integer.
    pub fn new(n: usize) -> (r: Option<EigenGenVWorkspace>)
        ensures
            r is Some <==> n > 0,
            r is Some ==> r.unwrap().dim() == n,
    {
        if n == 0 {
            None
        } else {
            Some(EigenGenVWorkspace { n })
        }
    }

    /// The dimension recorded at allocation.
    pub fn size(&self) -> (r: usize)
        ensures
            r == self.dim(),
    {
        self.n
    }

    /// The status with which the engine would accept or reject these
    /// arguments for the eigenvalue pairs and right eigenvectors of a real generalized nonsymmetric matrix pair.
    /// A workspace smaller than the matrix, like any other mismatch, is
    /// rejected before any data is touched.
    pub fn genv_status(&self, a: &MatrixF64, b: &MatrixF64, alpha: &VectorComplexF64, beta: &VectorF64, evec: &MatrixComplexF64) -> (r: Value)
        ensures
            r == extra_square_status(eigen_gen_pair_status(self.dim(), a.nrows(), a.ncols(), b.nrows(), b.ncols(), alpha@.len(), beta@.len()), evec.nrows(), evec.ncols(), a.nrows()),
    {
        if a.size1() != a.size2() {
            return Value::NotSqr;
        }
        if b.size1() != b.size2() {
            return Value::NotSqr;
        }
        if b.size1() != a.size1() {
            return Value::BadLen;
        }
        if alpha.len() != a.size1() {
            return Value::BadLen;
        }
        if beta.len() != a.size1() {
            return Value::BadLen;
        }
        if self.n < a.size1() {
            return Value::BadLen;
        }
        if evec.size1() != a.size1() || evec.size2() != a.size1() {
            return Value::BadLen;
        }
        Value::Success
    }

    /// The status with which the engine would accept or reject these
    /// arguments for the eigenvalue pairs and right eigenvectors of a real generalized nonsymmetric matrix pair with its left and right Schur vectors.
    /// A workspace smaller than the matrix, like any other mismatch, is
    /// rejected before any data is touched.
    pub fn genv_qz_status(&self, a: &MatrixF64, b: &MatrixF64, alpha: &VectorComplexF64, beta: &VectorF64, evec: &MatrixComplexF64, q: &MatrixF64, z: &MatrixF64) -> (r: Value)
        ensures
            r == extra_square_status(extra_square_status(extra_square_status(eigen_gen_pair_status(self.dim(), a.nrows(), a.ncols(), b.nrows(), b.ncols(), alpha@.len(), beta@.len()), evec.nrows(), evec.ncols(), a.nrows()), q.nrows(), q.ncols(), a.nrows()), z.nrows(), z.ncols(), a.nrows()),
    {
        if a.size1() != a.size2() {
            return Value::NotSqr;
        }
        if b.size1() != b.size2() {
            return Value::NotSqr;
        }
        if b.size1() != a.size1() {
            return Value::BadLen;
        }
        if alpha.len() != a.size1() {
            return Value::BadLen;
        }
        if beta.len() != a.size1() {
            return Value::BadLen;
        }
        if self.n < a.size1() {
            return Value::BadLen;
        }
        if evec.size1() != a.size1() || evec.size2() != a.size1() {
            return Value::BadLen;
        }
        if q.size1() != a.size1() || q.size2() != a.size1() {
            return Value::BadLen;
        }
        if z.size1() != a.size1() || z.size2() != a.size1() {
            return Value::BadLen;
        }
        Value::Success
    }

}

/// Every rejection of an eigensystem argument list — a non-square
/// matrix, an output of the wrong length, a workspace smaller than the
/// matrix — classifies as an invalid-argument error, never as success or
/// a crash.
pub proof fn lemma_eigen_rejection_is_invalid_argument(
    n: nat,
    a_rows: nat,
    a_cols: nat,
    eval_len: nat,
)
    requires
        eigen_status(n, a_rows, a_cols, eval_len) != Value::Success,
    ensures
        crate::status::kind_of(eigen_status(n, a_rows, a_cols, eval_len))
            == crate::status::ErrorKind::InvalidArgument,
{
}

} // verus!
