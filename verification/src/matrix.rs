//! Real matrices: owning handles of scalar payloads with a fixed shape.
//!
//! `MatrixF64` and `MatrixF32` follow the library's handle conventions: a
//! constructor that validates its dimensions and reports allocation of a
//! zero-filled table, bounds-respecting element access, deep copies, and
//! shape-checked bulk operations — row and column extraction, in-place and
//! copying transposition, row and column exchange — that report a status
//! code instead of touching mismatched operands.  Entrywise arithmetic is
//! obtained by passing the scalar operation in as a closure.

use vstd::prelude::*;

use crate::grid::Grid;
use crate::status::Value;
use crate::storage::Buffer;
use crate::vector::{VectorF32, VectorF64, UNIT_F32, UNIT_F64};

verus! {

broadcast use crate::grid::lemma_grid_view_len, crate::grid::lemma_grid_row_len;

/// An owning handle on a fixed-shape, row-major table of double-precision
/// scalar payloads.
pub struct MatrixF64 {
    g: Grid<u64>,
}

impl View for MatrixF64 {
    type V = Seq<Seq<u64>>;

    closed spec fn view(&self) -> Seq<Seq<u64>> {
        self.g@
    }
}

impl MatrixF64 {
    /// The fixed number of rows.
    pub closed spec fn nrows(&self) -> nat {
        self.g.nrows()
    }

    /// The fixed number of columns.
    pub closed spec fn ncols(&self) -> nat {
        self.g.ncols()
    }

    /// Borrow of the underlying storage, the analogue of the native handle
    /// that the wrapped routines operate on.
    pub fn get_ffi(&self) -> (r: &Grid<u64>)
        ensures
            r@ == self@,
            r.nrows() == self.nrows(),
            r.ncols() == self.ncols(),
    {
        &self.g
    }

    /// A matrix of `n1` rows by `n2` columns of zero elements, or nothing
    /// when either dimension is not a positive integer or the shape exceeds
    /// the address space.
    pub fn new(n1: usize, n2: usize) -> (r: Option<MatrixF64>)
        ensures
            r is Some <==> 0 < n1 && 0 < n2 && n1 * n2 <= usize::MAX,
            r is Some ==> {
                let m = r.unwrap();
                &&& m.nrows() == n1
                &&& m.ncols() == n2
                &&& m@ == Seq::new(n1 as nat, |i: int| Seq::new(n2 as nat, |j: int| 0u64))
            },
    {
        match Grid::filled(n1, n2, 0u64) {
            Some(g) => Some(MatrixF64 { g }),
            None => None,
        }
    }

    /// The number of rows.
    pub fn size1(&self) -> (r: usize)
        ensures
            r == self.nrows(),
    {
        self.g.row_count()
    }

    /// The number of columns.
    pub fn size2(&self) -> (r: usize)
        ensures
            r == self.ncols(),
    {
        self.g.col_count()
    }

    /// The element at row `y`, column `x`; outside the valid range the zero
    /// pattern is returned, as the engine's reporting error handler would
    /// arrange.
    pub fn get(&self, y: usize, x: usize) -> (r: u64)
        ensures
            y < self.nrows() && x < self.ncols() ==> r == self@[y as int][x as int],
            !(y < self.nrows() && x < self.ncols()) ==> r == 0u64,
    {
        if y < self.g.row_count() && x < self.g.col_count() {
            self.g.get(y, x)
        } else {
            0u64
        }
    }

    /// Stores `value` at row `y`, column `x`; outside the valid range the
    /// write is ignored, as the engine's reporting error handler would
    /// arrange.
    pub fn set(&mut self, y: usize, x: usize, value: u64)
        ensures
            final(self).nrows() == old(self).nrows(),
            final(self).ncols() == old(self).ncols(),
            y < old(self).nrows() && x < old(self).ncols() ==> final(self)@ == old(
                self,
            )@.update(y as int, old(self)@[y as int].update(x as int, value)),
            !(y < old(self).nrows() && x < old(self).ncols()) ==> final(self)@ == old(self)@,
    {
        if y < self.g.row_count() && x < self.g.col_count() {
            self.g.put(y, x, value);
        }
    }

    /// Sets every element to `x`.
    pub fn set_all(&mut self, x: u64)
        ensures
            final(self).nrows() == old(self).nrows(),
            final(self).ncols() == old(self).ncols(),
            forall|i: int, j: int|
                0 <= i < final(self).nrows() && 0 <= j < final(self).ncols()
                    ==> final(self)@[i][j] == x,
    {
        self.g.fill(x);
    }

    /// Sets every element to zero.
    pub fn set_zero(&mut self)
        ensures
            final(self).nrows() == old(self).nrows(),
            final(self).ncols() == old(self).ncols(),
            forall|i: int, j: int|
                0 <= i < final(self).nrows() && 0 <= j < final(self).ncols()
                    ==> final(self)@[i][j] == 0u64,
    {
        self.g.fill(0u64);
    }

    /// Makes the identity pattern: one on the diagonal, zero off it; this
    /// applies to square and rectangular matrices alike.
    pub fn set_identity(&mut self)
        ensures
            final(self).nrows() == old(self).nrows(),
            final(self).ncols() == old(self).ncols(),
            forall|i: int, j: int|
                0 <= i < final(self).nrows() && 0 <= j < final(self).ncols()
                    ==> final(self)@[i][j] == (if i == j {
                    UNIT_F64
                } else {
                    0u64
                }),
    {
        self.g.fill(0u64);
        let rows = self.g.row_count();
        let cols = self.g.col_count();
        let stop = if rows < cols {
            rows
        } else {
            cols
        };
        let mut k: usize = 0;
        while k < stop
            invariant
                self.nrows() == old(self).nrows(),
                self.ncols() == old(self).ncols(),
                rows == self.nrows(),
                cols == self.ncols(),
                stop <= rows,
                stop <= cols,
                k <= stop,
                forall|i: int, j: int|
                    0 <= i < rows && 0 <= j < cols ==> self@[i][j] == (if i == j && i < k {
                        UNIT_F64
                    } else {
                        0u64
                    }),
            decreases stop - k,
        {
            let ghost prev = self@;
            self.g.put(k, k, UNIT_F64);
            proof {
                assert forall|i: int, j: int|
                    0 <= i < rows && 0 <= j < cols implies self@[i][j] == (if i == j && i < k
                    + 1 {
                    UNIT_F64
                } else {
                    0u64
                }) by {
                    assert(prev[i][j] == (if i == j && i < k {
                        UNIT_F64
                    } else {
                        0u64
                    }));
                    assert(self@ == prev.update(
                        k as int,
                        prev[k as int].update(k as int, UNIT_F64),
                    ));
                }
            }
            k = k + 1;
        }
    }

    /// Overwrites this matrix with the elements of `other`; the two
    /// matrices must have the same shape, else the operands are left
    /// unchanged and the length-mismatch status is reported.
    pub fn copy_from(&mut self, other: &MatrixF64) -> (r: Value)
        ensures
            r == (if old(self).nrows() == other.nrows() && old(self).ncols() == other.ncols() {
                Value::Success
            } else {
                Value::BadLen
            }),
            final(self).nrows() == old(self).nrows(),
            final(self).ncols() == old(self).ncols(),
            r == Value::Success ==> final(self)@ == other@,
            r != Value::Success ==> final(self)@ == old(self)@,
    {
        if self.g.row_count() == other.g.row_count() && self.g.col_count()
            == other.g.col_count() {
            self.g.copy_cells_from(&other.g);
            Value::Success
        } else {
            Value::BadLen
        }
    }

    /// Copies the elements of this matrix into `other`; the two matrices
    /// must have the same shape, else the operands are left unchanged and
    /// the length-mismatch status is reported.
    pub fn copy_to(&self, other: &mut MatrixF64) -> (r: Value)
        ensures
            r == (if self.nrows() == old(other).nrows() && self.ncols() == old(other).ncols() {
                Value::Success
            } else {
                Value::BadLen
            }),
            final(other).nrows() == old(other).nrows(),
            final(other).ncols() == old(other).ncols(),
            r == Value::Success ==> final(other)@ == self@,
            r != Value::Success ==> final(other)@ == old(other)@,
    {
        if self.g.row_count() == other.g.row_count() && self.g.col_count()
            == other.g.col_count() {
            other.g.copy_cells_from(&self.g);
            Value::Success
        } else {
            Value::BadLen
        }
    }

    /// Exchanges the elements of the two matrices; they must have the same
    /// shape, else both are left unchanged and the length-mismatch status
    /// is reported.
    pub fn swap(&mut self, other: &mut MatrixF64) -> (r: Value)
        ensures
            r == (if old(self).nrows() == old(other).nrows() && old(self).ncols() == old(
                other,
            ).ncols() {
                Value::Success
            } else {
                Value::BadLen
            }),
            final(self).nrows() == old(self).nrows(),
            final(self).ncols() == old(self).ncols(),
            final(other).nrows() == old(other).nrows(),
            final(other).ncols() == old(other).ncols(),
            r == Value::Success ==> final(self)@ == old(other)@ && final(other)@ == old(self)@,
            r != Value::Success ==> final(self)@ == old(self)@ && final(other)@ == old(other)@,
    {
        if self.g.row_count() == other.g.row_count() && self.g.col_count()
            == other.g.col_count() {
            self.g.swap_cells(&mut other.g);
            Value::Success
        } else {
            Value::BadLen
        }
    }

    /// A fresh vector holding row `y`, along with the status of the copy:
    /// a row index outside the valid range reports the invalid-argument
    /// status and leaves the fresh vector zero-filled.
    pub fn get_row(&self, y: usize) -> (r: Option<(VectorF64, Value)>)
        ensures
            r is Some,
            ({
                let (v, st) = r.unwrap();
                &&& st == (if y < self.nrows() {
                    Value::Success
                } else {
                    Value::Inval
                })
                &&& v@.len() == self.ncols()
                &&& (st == Value::Success ==> v@ == self@[y as int])
                &&& (st != Value::Success ==> forall|j: int| 0 <= j < v@.len() ==> v@[j] == 0u64)
            }),
    {
        if y < self.g.row_count() {
            let buf = self.g.extract_row(y);
            Some((VectorF64::from_buffer(buf), Value::Success))
        } else {
            let buf = Buffer::filled(self.g.col_count(), 0u64);
            Some((VectorF64::from_buffer(buf), Value::Inval))
        }
    }

    /// A fresh vector holding column `x`, along with the status of the
    /// copy: a column index outside the valid range reports the
    /// invalid-argument status and leaves the fresh vector zero-filled.
    pub fn get_col(&self, x: usize) -> (r: Option<(VectorF64, Value)>)
        ensures
            r is Some,
            ({
                let (v, st) = r.unwrap();
                &&& st == (if x < self.ncols() {
                    Value::Success
                } else {
                    Value::Inval
                })
                &&& v@.len() == self.nrows()
                &&& (st == Value::Success ==> forall|i: int|
                    0 <= i < v@.len() ==> v@[i] == self@[i][x as int])
                &&& (st != Value::Success ==> forall|i: int| 0 <= i < v@.len() ==> v@[i] == 0u64)
            }),
    {
        if x < self.g.col_count() {
            let buf = self.g.extract_col(x);
            Some((VectorF64::from_buffer(buf), Value::Success))
        } else {
            let buf = Buffer::filled(self.g.row_count(), 0u64);
            Some((VectorF64::from_buffer(buf), Value::Inval))
        }
    }

    /// Overwrites row `y` with the elements of `v`; a row index outside the
    /// valid range reports the invalid-argument status, a vector whose
    /// length is not the column count the length-mismatch status, and
    /// either leaves the matrix unchanged.
    pub fn set_row(&mut self, y: usize, v: &VectorF64) -> (r: Value)
        ensures
            r == (if y >= old(self).nrows() {
                Value::Inval
            } else if v@.len() != old(self).ncols() {
                Value::BadLen
            } else {
                Value::Success
            }),
            final(self).nrows() == old(self).nrows(),
            final(self).ncols() == old(self).ncols(),
            r == Value::Success ==> final(self)@ == old(self)@.update(y as int, v@),
            r != Value::Success ==> final(self)@ == old(self)@,
    {
        if y >= self.g.row_count() {
            Value::Inval
        } else if v.len() != self.g.col_count() {
            Value::BadLen
        } else {
            self.g.write_row(y, v.get_ffi());
            Value::Success
        }
    }

    /// Overwrites column `x` with the elements of `v`; a column index
    /// outside the valid range reports the invalid-argument status, a
    /// vector whose length is not the row count the length-mismatch status,
    /// and either leaves the matrix unchanged.
    pub fn set_col(&mut self, x: usize, v: &VectorF64) -> (r: Value)
        ensures
            r == (if x >= old(self).ncols() {
                Value::Inval
            } else if v@.len() != old(self).nrows() {
                Value::BadLen
            } else {
                Value::Success
            }),
            final(self).nrows() == old(self).nrows(),
            final(self).ncols() == old(self).ncols(),
            final(self)@.len() == old(self)@.len(),
            r == Value::Success ==> forall|a: int, b: int|
                0 <= a < final(self).nrows() && 0 <= b < final(self).ncols()
                    ==> final(self)@[a][b] == (if b == x as int {
                    v@[a]
                } else {
                    old(self)@[a][b]
                }),
            r != Value::Success ==> final(self)@ == old(self)@,
    {
        if x >= self.g.col_count() {
            Value::Inval
        } else if v.len() != self.g.row_count() {
            Value::BadLen
        } else {
            self.g.write_col(x, v.get_ffi());
            Value::Success
        }
    }

    /// Exchanges rows `y1` and `y2` in place; an index outside the valid
    /// range leaves the matrix unchanged and reports the invalid-argument
    /// status.
    pub fn swap_rows(&mut self, y1: usize, y2: usize) -> (r: Value)
        ensures
            r == (if y1 < old(self).nrows() && y2 < old(self).nrows() {
                Value::Success
            } else {
                Value::Inval
            }),
            final(self).nrows() == old(self).nrows(),
            final(self).ncols() == old(self).ncols(),
            r == Value::Success ==> final(self)@ == old(self)@.update(
                y1 as int,
                old(self)@[y2 as int],
            ).update(y2 as int, old(self)@[y1 as int]),
            r != Value::Success ==> final(self)@ == old(self)@,
    {
        if y1 < self.g.row_count() && y2 < self.g.row_count() {
            self.g.exchange_rows(y1, y2);
            Value::Success
        } else {
            Value::Inval
        }
    }

    /// Exchanges columns `x1` and `x2` in place; an index outside the valid
    /// range leaves the matrix unchanged and reports the invalid-argument
    /// status.
    pub fn swap_columns(&mut self, x1: usize, x2: usize) -> (r: Value)
        ensures
            r == (if x1 < old(self).ncols() && x2 < old(self).ncols() {
                Value::Success
            } else {
                Value::Inval
            }),
            final(self).nrows() == old(self).nrows(),
            final(self).ncols() == old(self).ncols(),
            final(self)@.len() == old(self)@.len(),
            r == Value::Success ==> forall|a: int, b: int|
                0 <= a < final(self).nrows() && 0 <= b < final(self).ncols()
                    ==> final(self)@[a][b] == (if b == x1 as int {
                    old(self)@[a][x2 as int]
                } else if b == x2 as int {
                    old(self)@[a][x1 as int]
                } else {
                    old(self)@[a][b]
                }),
            r != Value::Success ==> final(self)@ == old(self)@,
    {
        if x1 < self.g.col_count() && x2 < self.g.col_count() {
            self.g.exchange_cols(x1, x2);
            Value::Success
        } else {
            Value::Inval
        }
    }

    /// Exchanges row `i` and column `j` in place, by successive entry
    /// swaps; the matrix must be square, else the not-square status is
    /// reported, and an index outside the valid range reports the
    /// invalid-argument status, either leaving the matrix unchanged.
    pub fn swap_row_col(&mut self, i: usize, j: usize) -> (r: Value)
        ensures
            r == (if old(self).nrows() != old(self).ncols() {
                Value::NotSqr
            } else if i >= old(self).nrows() || j >= old(self).ncols() {
                Value::Inval
            } else {
                Value::Success
            }),
            final(self).nrows() == old(self).nrows(),
            final(self).ncols() == old(self).ncols(),
            r == Value::Success ==> final(self)@ == crate::grid::rowcol_swapped(
                old(self)@,
                i as int,
                j as int,
                old(self).nrows(),
            ),
            r != Value::Success ==> final(self)@ == old(self)@,
    {
        if self.g.row_count() != self.g.col_count() {
            Value::NotSqr
        } else if i >= self.g.row_count() || j >= self.g.col_count() {
            Value::Inval
        } else {
            self.g.swap_rowcol(i, j);
            Value::Success
        }
    }

    /// A fresh matrix of the transposed shape holding the transpose,
    /// along with the status of the copy; this applies to square and
    /// rectangular matrices alike, and this matrix is left unchanged.
    pub fn transpose_memcpy(&self) -> (r: Option<(MatrixF64, Value)>)
        ensures
            r is Some,
            ({
                let (m, st) = r.unwrap();
                &&& st == Value::Success
                &&& m.nrows() == self.ncols()
                &&& m.ncols() == self.nrows()
                &&& forall|a: int, b: int|
                    0 <= a < m.nrows() && 0 <= b < m.ncols() ==> m@[a][b] == self@[b][a]
            }),
    {
        let g = self.g.transposed_copy();
        Some((MatrixF64 { g }, Value::Success))
    }

    /// Transposes the matrix in place; the matrix must be square, else it
    /// is left unchanged and the not-square status is reported.
    pub fn transpose(&mut self) -> (r: Value)
        ensures
            r == (if old(self).nrows() == old(self).ncols() {
                Value::Success
            } else {
                Value::NotSqr
            }),
            final(self).nrows() == old(self).nrows(),
            final(self).ncols() == old(self).ncols(),
            final(self)@.len() == old(self)@.len(),
            r == Value::Success ==> forall|a: int, b: int|
                0 <= a < final(self).nrows() && 0 <= b < final(self).ncols()
                    ==> final(self)@[a][b] == old(self)@[b][a],
            r != Value::Success ==> final(self)@ == old(self)@,
    {
        if self.g.row_count() == self.g.col_count() {
            self.g.transpose_square();
            Value::Success
        } else {
            Value::NotSqr
        }
    }

    /// Combines this matrix entrywise with `other` through the scalar
    /// operation `f`, storing at each position a value that `f` may return
    /// for the pair of old elements there.  The two matrices must have the
    /// same shape, else the operands are left unchanged and the
    /// length-mismatch status is reported.
    pub fn combine_with<F: Fn(u64, u64) -> u64>(&mut self, other: &MatrixF64, f: F) -> (r: Value)
        requires
            forall|x: u64, y: u64| call_requires(f, (x, y)),
        ensures
            r == (if old(self).nrows() == other.nrows() && old(self).ncols() == other.ncols() {
                Value::Success
            } else {
                Value::BadLen
            }),
            final(self).nrows() == old(self).nrows(),
            final(self).ncols() == old(self).ncols(),
            r == Value::Success ==> forall|a: int, b: int|
                0 <= a < final(self).nrows() && 0 <= b < final(self).ncols() ==> call_ensures(
                    f,
                    (old(self)@[a][b], other@[a][b]),
                    #[trigger] final(self)@[a][b],
                ),
            r != Value::Success ==> final(self)@ == old(self)@,
    {
        if self.g.row_count() == other.g.row_count() && self.g.col_count()
            == other.g.col_count() {
            self.g.zip_cells(&other.g, f);
            Value::Success
        } else {
            Value::BadLen
        }
    }

    /// Rewrites each element through the scalar operation `f`, storing at
    /// each position a value that `f` may return for the old element there.
    pub fn map_with<F: Fn(u64) -> u64>(&mut self, f: F) -> (r: Value)
        requires
            forall|x: u64| call_requires(f, (x,)),
        ensures
            r == Value::Success,
            final(self).nrows() == old(self).nrows(),
            final(self).ncols() == old(self).ncols(),
            forall|a: int, b: int|
                0 <= a < final(self).nrows() && 0 <= b < final(self).ncols() ==> call_ensures(
                    f,
                    (old(self)@[a][b],),
                    #[trigger] final(self)@[a][b],
                ),
    {
        self.g.map_cells(f);
        Value::Success
    }

    /// A deep copy: a freshly allocated matrix holding the same elements.
    pub fn clone(&self) -> (r: Option<MatrixF64>)
        ensures
            r is Some,
            r.unwrap().nrows() == self.nrows(),
            r.unwrap().ncols() == self.ncols(),
            r.unwrap()@ == self@,
    {
        let mut g = self.g.blank_like(0u64);
        g.copy_cells_from(&self.g);
        Some(MatrixF64 { g })
    }
}


/// An owning handle on a fixed-shape, row-major table of single-precision
/// scalar payloads.
pub struct MatrixF32 {
    g: Grid<u32>,
}

impl View for MatrixF32 {
    type V = Seq<Seq<u32>>;

    closed spec fn view(&self) -> Seq<Seq<u32>> {
        self.g@
    }
}

impl MatrixF32 {
    /// The fixed number of rows.
    pub closed spec fn nrows(&self) -> nat {
        self.g.nrows()
    }

    /// The fixed number of columns.
    pub closed spec fn ncols(&self) -> nat {
        self.g.ncols()
    }

    /// Borrow of the underlying storage, the analogue of the native handle
    /// that the wrapped routines operate on.
    pub fn get_ffi(&self) -> (r: &Grid<u32>)
        ensures
            r@ == self@,
            r.nrows() == self.nrows(),
            r.ncols() == self.ncols(),
    {
        &self.g
    }

    /// A matrix of `n1` rows by `n2` columns of zero elements, or nothing
    /// when either dimension is not a positive integer or the shape exceeds
    /// the address space.
    pub fn new(n1: usize, n2: usize) -> (r: Option<MatrixF32>)
        ensures
            r is Some <==> 0 < n1 && 0 < n2 && n1 * n2 <= usize::MAX,
            r is Some ==> {
                let m = r.unwrap();
                &&& m.nrows() == n1
                &&& m.ncols() == n2
                &&& m@ == Seq::new(n1 as nat, |i: int| Seq::new(n2 as nat, |j: int| 0u32))
            },
    {
        match Grid::filled(n1, n2, 0u32) {
            Some(g) => Some(MatrixF32 { g }),
            None => None,
        }
    }

    /// The number of rows.
    pub fn size1(&self) -> (r: usize)
        ensures
            r == self.nrows(),
    {
        self.g.row_count()
    }

    /// The number of columns.
    pub fn size2(&self) -> (r: usize)
        ensures
            r == self.ncols(),
    {
        self.g.col_count()
    }

    /// The element at row `y`, column `x`; outside the valid range the zero
    /// pattern is returned, as the engine's reporting error handler would
    /// arrange.
    pub fn get(&self, y: usize, x: usize) -> (r: u32)
        ensures
            y < self.nrows() && x < self.ncols() ==> r == self@[y as int][x as int],
            !(y < self.nrows() && x < self.ncols()) ==> r == 0u32,
    {
        if y < self.g.row_count() && x < self.g.col_count() {
            self.g.get(y, x)
        } else {
            0u32
        }
    }

    /// Stores `value` at row `y`, column `x`; outside the valid range the
    /// write is ignored, as the engine's reporting error handler would
    /// arrange.
    pub fn set(&mut self, y: usize, x: usize, value: u32)
        ensures
            final(self).nrows() == old(self).nrows(),
            final(self).ncols() == old(self).ncols(),
            y < old(self).nrows() && x < old(self).ncols() ==> final(self)@ == old(
                self,
            )@.update(y as int, old(self)@[y as int].update(x as int, value)),
            !(y < old(self).nrows() && x < old(self).ncols()) ==> final(self)@ == old(self)@,
    {
        if y < self.g.row_count() && x < self.g.col_count() {
            self.g.put(y, x, value);
        }
    }

    /// Sets every element to `x`.
    pub fn set_all(&mut self, x: u32)
        ensures
            final(self).nrows() == old(self).nrows(),
            final(self).ncols() == old(self).ncols(),
            forall|i: int, j: int|
                0 <= i < final(self).nrows() && 0 <= j < final(self).ncols()
                    ==> final(self)@[i][j] == x,
    {
        self.g.fill(x);
    }

    /// Sets every element to zero.
    pub fn set_zero(&mut self)
        ensures
            final(self).nrows() == old(self).nrows(),
            final(self).ncols() == old(self).ncols(),
            forall|i: int, j: int|
                0 <= i < final(self).nrows() && 0 <= j < final(self).ncols()
                    ==> final(self)@[i][j] == 0u32,
    {
        self.g.fill(0u32);
    }

    /// Makes the identity pattern: one on the diagonal, zero off it; this
    /// applies to square and rectangular matrices alike.
    pub fn set_identity(&mut self)
        ensures
            final(self).nrows() == old(self).nrows(),
            final(self).ncols() == old(self).ncols(),
            forall|i: int, j: int|
                0 <= i < final(self).nrows() && 0 <= j < final(self).ncols()
                    ==> final(self)@[i][j] == (if i == j {
                    UNIT_F32
                } else {
                    0u32
                }),
    {
        self.g.fill(0u32);
        let rows = self.g.row_count();
        let cols = self.g.col_count();
        let stop = if rows < cols {
            rows
        } else {
            cols
        };
        let mut k: usize = 0;
        while k < stop
            invariant
                self.nrows() == old(self).nrows(),
                self.ncols() == old(self).ncols(),
                rows == self.nrows(),
                cols == self.ncols(),
                stop <= rows,
                stop <= cols,
                k <= stop,
                forall|i: int, j: int|
                    0 <= i < rows && 0 <= j < cols ==> self@[i][j] == (if i == j && i < k {
                        UNIT_F32
                    } else {
                        0u32
                    }),
            decreases stop - k,
        {
            let ghost prev = self@;
            self.g.put(k, k, UNIT_F32);
            proof {
                assert forall|i: int, j: int|
                    0 <= i < rows && 0 <= j < cols implies self@[i][j] == (if i == j && i < k
                    + 1 {
                    UNIT_F32
                } else {
                    0u32
                }) by {
                    assert(prev[i][j] == (if i == j && i < k {
                        UNIT_F32
                    } else {
                        0u32
                    }));
                    assert(self@ == prev.update(
                        k as int,
                        prev[k as int].update(k as int, UNIT_F32),
                    ));
                }
            }
            k = k + 1;
        }
    }

    /// Overwrites this matrix with the elements of `other`; the two
    /// matrices must have the same shape, else the operands are left
    /// unchanged and the length-mismatch status is reported.
    pub fn copy_from(&mut self, other: &MatrixF32) -> (r: Value)
        ensures
            r == (if old(self).nrows() == other.nrows() && old(self).ncols() == other.ncols() {
                Value::Success
            } else {
                Value::BadLen
            }),
            final(self).nrows() == old(self).nrows(),
            final(self).ncols() == old(self).ncols(),
            r == Value::Success ==> final(self)@ == other@,
            r != Value::Success ==> final(self)@ == old(self)@,
    {
        if self.g.row_count() == other.g.row_count() && self.g.col_count()
            == other.g.col_count() {
            self.g.copy_cells_from(&other.g);
            Value::Success
        } else {
            Value::BadLen
        }
    }

    /// Copies the elements of this matrix into `other`; the two matrices
    /// must have the same shape, else the operands are left unchanged and
    /// the length-mismatch status is reported.
    pub fn copy_to(&self, other: &mut MatrixF32) -> (r: Value)
        ensures
            r == (if self.nrows() == old(other).nrows() && self.ncols() == old(other).ncols() {
                Value::Success
            } else {
                Value::BadLen
            }),
            final(other).nrows() == old(other).nrows(),
            final(other).ncols() == old(other).ncols(),
            r == Value::Success ==> final(other)@ == self@,
            r != Value::Success ==> final(other)@ == old(other)@,
    {
        if self.g.row_count() == other.g.row_count() && self.g.col_count()
            == other.g.col_count() {
            other.g.copy_cells_from(&self.g);
            Value::Success
        } else {
            Value::BadLen
        }
    }

    /// Exchanges the elements of the two matrices; they must have the same
    /// shape, else both are left unchanged and the length-mismatch status
    /// is reported.
    pub fn swap(&mut self, other: &mut MatrixF32) -> (r: Value)
        ensures
            r == (if old(self).nrows() == old(other).nrows() && old(self).ncols() == old(
                other,
            ).ncols() {
                Value::Success
            } else {
                Value::BadLen
            }),
            final(self).nrows() == old(self).nrows(),
            final(self).ncols() == old(self).ncols(),
            final(other).nrows() == old(other).nrows(),
            final(other).ncols() == old(other).ncols(),
            r == Value::Success ==> final(self)@ == old(other)@ && final(other)@ == old(self)@,
            r != Value::Success ==> final(self)@ == old(self)@ && final(other)@ == old(other)@,
    {
        if self.g.row_count() == other.g.row_count() && self.g.col_count()
            == other.g.col_count() {
            self.g.swap_cells(&mut other.g);
            Value::Success
        } else {
            Value::BadLen
        }
    }

    /// A fresh vector holding row `y`, along with the status of the copy:
    /// a row index outside the valid range reports the invalid-argument
    /// status and leaves the fresh vector zero-filled.
    pub fn get_row(&self, y: usize) -> (r: Option<(VectorF32, Value)>)
        ensures
            r is Some,
            ({
                let (v, st) = r.unwrap();
                &&& st == (if y < self.nrows() {
                    Value::Success
                } else {
                    Value::Inval
                })
                &&& v@.len() == self.ncols()
                &&& (st == Value::Success ==> v@ == self@[y as int])
                &&& (st != Value::Success ==> forall|j: int| 0 <= j < v@.len() ==> v@[j] == 0u32)
            }),
    {
        if y < self.g.row_count() {
            let buf = self.g.extract_row(y);
            Some((VectorF32::from_buffer(buf), Value::Success))
        } else {
            let buf = Buffer::filled(self.g.col_count(), 0u32);
            Some((VectorF32::from_buffer(buf), Value::Inval))
        }
    }

    /// A fresh vector holding column `x`, along with the status of the
    /// copy: a column index outside the valid range reports the
    /// invalid-argument status and leaves the fresh vector zero-filled.
    pub fn get_col(&self, x: usize) -> (r: Option<(VectorF32, Value)>)
        ensures
            r is Some,
            ({
                let (v, st) = r.unwrap();
                &&& st == (if x < self.ncols() {
                    Value::Success
                } else {
                    Value::Inval
                })
                &&& v@.len() == self.nrows()
                &&& (st == Value::Success ==> forall|i: int|
                    0 <= i < v@.len() ==> v@[i] == self@[i][x as int])
                &&& (st != Value::Success ==> forall|i: int| 0 <= i < v@.len() ==> v@[i] == 0u32)
            }),
    {
        if x < self.g.col_count() {
            let buf = self.g.extract_col(x);
            Some((VectorF32::from_buffer(buf), Value::Success))
        } else {
            let buf = Buffer::filled(self.g.row_count(), 0u32);
            Some((VectorF32::from_buffer(buf), Value::Inval))
        }
    }

    /// Overwrites row `y` with the elements of `v`; a row index outside the
    /// valid range reports the invalid-argument status, a vector whose
    /// length is not the column count the length-mismatch status, and
    /// either leaves the matrix unchanged.
    pub fn set_row(&mut self, y: usize, v: &VectorF32) -> (r: Value)
        ensures
            r == (if y >= old(self).nrows() {
                Value::Inval
            } else if v@.len() != old(self).ncols() {
                Value::BadLen
            } else {
                Value::Success
            }),
            final(self).nrows() == old(self).nrows(),
            final(self).ncols() == old(self).ncols(),
            r == Value::Success ==> final(self)@ == old(self)@.update(y as int, v@),
            r != Value::Success ==> final(self)@ == old(self)@,
    {
        if y >= self.g.row_count() {
            Value::Inval
        } else if v.len() != self.g.col_count() {
            Value::BadLen
        } else {
            self.g.write_row(y, v.get_ffi());
            Value::Success
        }
    }

    /// Overwrites column `x` with the elements of `v`; a column index
    /// outside the valid range reports the invalid-argument status, a
    /// vector whose length is not the row count the length-mismatch status,
    /// and either leaves the matrix unchanged.
    pub fn set_col(&mut self, x: usize, v: &VectorF32) -> (r: Value)
        ensures
            r == (if x >= old(self).ncols() {
                Value::Inval
            } else if v@.len() != old(self).nrows() {
                Value::BadLen
            } else {
                Value::Success
            }),
            final(self).nrows() == old(self).nrows(),
            final(self).ncols() == old(self).ncols(),
            final(self)@.len() == old(self)@.len(),
            r == Value::Success ==> forall|a: int, b: int|
                0 <= a < final(self).nrows() && 0 <= b < final(self).ncols()
                    ==> final(self)@[a][b] == (if b == x as int {
                    v@[a]
                } else {
                    old(self)@[a][b]
                }),
            r != Value::Success ==> final(self)@ == old(self)@,
    {
        if x >= self.g.col_count() {
            Value::Inval
        } else if v.len() != self.g.row_count() {
            Value::BadLen
        } else {
            self.g.write_col(x, v.get_ffi());
            Value::Success
        }
    }

    /// Exchanges rows `y1` and `y2` in place; an index outside the valid
    /// range leaves the matrix unchanged and reports the invalid-argument
    /// status.
    pub fn swap_rows(&mut self, y1: usize, y2: usize) -> (r: Value)
        ensures
            r == (if y1 < old(self).nrows() && y2 < old(self).nrows() {
                Value::Success
            } else {
                Value::Inval
            }),
            final(self).nrows() == old(self).nrows(),
            final(self).ncols() == old(self).ncols(),
            r == Value::Success ==> final(self)@ == old(self)@.update(
                y1 as int,
                old(self)@[y2 as int],
            ).update(y2 as int, old(self)@[y1 as int]),
            r != Value::Success ==> final(self)@ == old(self)@,
    {
        if y1 < self.g.row_count() && y2 < self.g.row_count() {
            self.g.exchange_rows(y1, y2);
            Value::Success
        } else {
            Value::Inval
        }
    }

    /// Exchanges columns `x1` and `x2` in place; an index outside the valid
    /// range leaves the matrix unchanged and reports the invalid-argument
    /// status.
    pub fn swap_columns(&mut self, x1: usize, x2: usize) -> (r: Value)
        ensures
            r == (if x1 < old(self).ncols() && x2 < old(self).ncols() {
                Value::Success
            } else {
                Value::Inval
            }),
            final(self).nrows() == old(self).nrows(),
            final(self).ncols() == old(self).ncols(),
            final(self)@.len() == old(self)@.len(),
            r == Value::Success ==> forall|a: int, b: int|
                0 <= a < final(self).nrows() && 0 <= b < final(self).ncols()
                    ==> final(self)@[a][b] == (if b == x1 as int {
                    old(self)@[a][x2 as int]
                } else if b == x2 as int {
                    old(self)@[a][x1 as int]
                } else {
                    old(self)@[a][b]
                }),
            r != Value::Success ==> final(self)@ == old(self)@,
    {
        if x1 < self.g.col_count() && x2 < self.g.col_count() {
            self.g.exchange_cols(x1, x2);
            Value::Success
        } else {
            Value::Inval
        }
    }

    /// Exchanges row `i` and column `j` in place, by successive entry
    /// swaps; the matrix must be square, else the not-square status is
    /// reported, and an index outside the valid range reports the
    /// invalid-argument status, either leaving the matrix unchanged.
    pub fn swap_row_col(&mut self, i: usize, j: usize) -> (r: Value)
        ensures
            r == (if old(self).nrows() != old(self).ncols() {
                Value::NotSqr
            } else if i >= old(self).nrows() || j >= old(self).ncols() {
                Value::Inval
            } else {
                Value::Success
            }),
            final(self).nrows() == old(self).nrows(),
            final(self).ncols() == old(self).ncols(),
            r == Value::Success ==> final(self)@ == crate::grid::rowcol_swapped(
                old(self)@,
                i as int,
                j as int,
                old(self).nrows(),
            ),
            r != Value::Success ==> final(self)@ == old(self)@,
    {
        if self.g.row_count() != self.g.col_count() {
            Value::NotSqr
        } else if i >= self.g.row_count() || j >= self.g.col_count() {
            Value::Inval
        } else {
            self.g.swap_rowcol(i, j);
            Value::Success
        }
    }

    /// A fresh matrix of the transposed shape holding the transpose,
    /// along with the status of the copy; this applies to square and
    /// rectangular matrices alike, and this matrix is left unchanged.
    pub fn transpose_memcpy(&self) -> (r: Option<(MatrixF32, Value)>)
        ensures
            r is Some,
            ({
                let (m, st) = r.unwrap();
                &&& st == Value::Success
                &&& m.nrows() == self.ncols()
                &&& m.ncols() == self.nrows()
                &&& forall|a: int, b: int|
                    0 <= a < m.nrows() && 0 <= b < m.ncols() ==> m@[a][b] == self@[b][a]
            }),
    {
        let g = self.g.transposed_copy();
        Some((MatrixF32 { g }, Value::Success))
    }

    /// Transposes the matrix in place; the matrix must be square, else it
    /// is left unchanged and the not-square status is reported.
    pub fn transpose(&mut self) -> (r: Value)
        ensures
            r == (if old(self).nrows() == old(self).ncols() {
                Value::Success
            } else {
                Value::NotSqr
            }),
            final(self).nrows() == old(self).nrows(),
            final(self).ncols() == old(self).ncols(),
            final(self)@.len() == old(self)@.len(),
            r == Value::Success ==> forall|a: int, b: int|
                0 <= a < final(self).nrows() && 0 <= b < final(self).ncols()
                    ==> final(self)@[a][b] == old(self)@[b][a],
            r != Value::Success ==> final(self)@ == old(self)@,
    {
        if self.g.row_count() == self.g.col_count() {
            self.g.transpose_square();
            Value::Success
        } else {
            Value::NotSqr
        }
    }

    /// Combines this matrix entrywise with `other` through the scalar
    /// operation `f`, storing at each position a value that `f` may return
    /// for the pair of old elements there.  The two matrices must have the
    /// same shape, else the operands are left unchanged and the
    /// length-mismatch status is reported.
    pub fn combine_with<F: Fn(u32, u32) -> u32>(&mut self, other: &MatrixF32, f: F) -> (r: Value)
        requires
            forall|x: u32, y: u32| call_requires(f, (x, y)),
        ensures
            r == (if old(self).nrows() == other.nrows() && old(self).ncols() == other.ncols() {
                Value::Success
            } else {
                Value::BadLen
            }),
            final(self).nrows() == old(self).nrows(),
            final(self).ncols() == old(self).ncols(),
            r == Value::Success ==> forall|a: int, b: int|
                0 <= a < final(self).nrows() && 0 <= b < final(self).ncols() ==> call_ensures(
                    f,
                    (old(self)@[a][b], other@[a][b]),
                    #[trigger] final(self)@[a][b],
                ),
            r != Value::Success ==> final(self)@ == old(self)@,
    {
        if self.g.row_count() == other.g.row_count() && self.g.col_count()
            == other.g.col_count() {
            self.g.zip_cells(&other.g, f);
            Value::Success
        } else {
            Value::BadLen
        }
    }

    /// Rewrites each element through the scalar operation `f`, storing at
    /// each position a value that `f` may return for the old element there.
    pub fn map_with<F: Fn(u32) -> u32>(&mut self, f: F) -> (r: Value)
        requires
            forall|x: u32| call_requires(f, (x,)),
        ensures
            r == Value::Success,
            final(self).nrows() == old(self).nrows(),
            final(self).ncols() == old(self).ncols(),
            forall|a: int, b: int|
                0 <= a < final(self).nrows() && 0 <= b < final(self).ncols() ==> call_ensures(
                    f,
                    (old(self)@[a][b],),
                    #[trigger] final(self)@[a][b],
                ),
    {
        self.g.map_cells(f);
        Value::Success
    }

    /// A deep copy: a freshly allocated matrix holding the same elements.
    pub fn clone(&self) -> (r: Option<MatrixF32>)
        ensures
            r is Some,
            r.unwrap().nrows() == self.nrows(),
            r.unwrap().ncols() == self.ncols(),
            r.unwrap()@ == self@,
    {
        let mut g = self.g.blank_like(0u32);
        g.copy_cells_from(&self.g);
        Some(MatrixF32 { g })
    }
}

} // verus!
