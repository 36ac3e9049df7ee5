//! Fixed-shape two-dimensional storage for opaque scalar payloads.
//!
//! `Grid` is the mechanism behind every matrix of the library: a row-major
//! run of scalar payloads together with the row and column counts fixed at
//! construction.  Its invariant — positive dimensions whose product is the
//! exact length of the underlying run — is established by the constructor
//! and maintained by every operation, so the bounds arithmetic of the
//! row-major layout is proved once, here, and every matrix operation is
//! specified against the mathematical view: a sequence of rows.

use vstd::prelude::*;

use crate::storage::Buffer;

verus! {

/// The sequence of rows that a row-major run of `rows * cols` elements
/// denotes.
pub open spec fn grid_view<E>(cells: Seq<E>, rows: nat, cols: nat) -> Seq<Seq<E>> {
    Seq::new(rows, |i: int| Seq::new(cols, |j: int| cells[i * cols + j]))
}

/// Within one row, distinct row-major positions come from distinct index
/// pairs, and conversely.
pub proof fn lemma_flat_injective(cols: int, i1: int, j1: int, i2: int, j2: int)
    by (nonlinear_arith)
    requires
        0 < cols,
        0 <= j1 < cols,
        0 <= j2 < cols,
    ensures
        (i1 * cols + j1 == i2 * cols + j2) <==> (i1 == i2 && j1 == j2),
{
}

/// A row-major position of an in-range index pair lies inside the run.
pub proof fn lemma_flat_bound(rows: int, cols: int, i: int, j: int)
    by (nonlinear_arith)
    requires
        0 <= i < rows,
        0 <= j < cols,
    ensures
        0 <= i * cols + j,
        i * cols + j < rows * cols,
{
}

/// Updating one cell of the run updates exactly one entry of the view.
pub proof fn lemma_grid_view_update<E>(cells: Seq<E>, rows: nat, cols: nat, i: int, j: int, x: E)
    requires
        cells.len() == rows * cols,
        0 <= i < rows,
        0 <= j < cols,
    ensures
        grid_view(cells.update(i * cols + j, x), rows, cols) == grid_view(
            cells,
            rows,
            cols,
        ).update(i, grid_view(cells, rows, cols)[i].update(j, x)),
{
    let a = grid_view(cells.update(i * cols + j, x), rows, cols);
    let b = grid_view(cells, rows, cols).update(
        i,
        grid_view(cells, rows, cols)[i].update(j, x),
    );
    lemma_flat_bound(rows as int, cols as int, i, j);
    assert forall|i2: int, j2: int|
        0 <= i2 < rows && 0 <= j2 < cols implies a[i2][j2] == b[i2][j2] by {
        lemma_flat_bound(rows as int, cols as int, i2, j2);
        lemma_flat_injective(cols as int, i, j, i2, j2);
    }
    assert(a =~~= b);
}

/// Storing an element and reading the same row and column yields exactly
/// the element stored, and no other entry changes: the accessor contracts
/// of every matrix compose to this round trip.
pub proof fn lemma_put_get_round_trip<E>(m: Seq<Seq<E>>, i: int, j: int, x: E)
    requires
        0 <= i < m.len(),
        0 <= j < m[i].len(),
    ensures
        m.update(i, m[i].update(j, x))[i][j] == x,
        forall|a: int, b: int|
            0 <= a < m.len() && 0 <= b < m[a].len() && !(a == i && b == j) ==> m.update(
                i,
                m[i].update(j, x),
            )[a][b] == m[a][b],
{
}

/// The view of a grid has one entry per row.
pub broadcast proof fn lemma_grid_view_len<E>(g: &Grid<E>)
    ensures
        (#[trigger] g.view()).len() == g.nrows(),
{
}

/// Every row of a grid's view has the column count for its length.
pub broadcast proof fn lemma_grid_row_len<E>(g: &Grid<E>, i: int)
    ensures
        0 <= i < g.nrows() ==> (#[trigger] g.view()[i]).len() == g.ncols(),
{
}

/// One entry of a table of rows replaced: row `r` with its `c`-th element
/// now `v`.
pub open spec fn entry_put<E>(m: Seq<Seq<E>>, r: int, c: int, v: E) -> Seq<Seq<E>> {
    m.update(r, m[r].update(c, v))
}

/// The table after the first `k` steps of exchanging row `i` with column
/// `j`: step `t` swaps the entries at `(i, t)` and `(t, j)`, in order, so
/// the entries where the row and the column cross are exchanged twice.
/// This iteration is the exchange's definition.
pub open spec fn rowcol_swapped<E>(m: Seq<Seq<E>>, i: int, j: int, k: nat) -> Seq<Seq<E>>
    decreases k,
{
    if k == 0 {
        m
    } else {
        let prev = rowcol_swapped(m, i, j, (k - 1) as nat);
        let t = k - 1;
        entry_put(entry_put(prev, i, t, prev[t][j]), t, j, prev[i][t])
    }
}

/// An owning, fixed-shape, row-major table of scalar payloads.
pub struct Grid<E> {
    rows: usize,
    cols: usize,
    cells: Buffer<E>,
}

impl<E> View for Grid<E> {
    type V = Seq<Seq<E>>;

    closed spec fn view(&self) -> Seq<Seq<E>> {
        grid_view(self.cells@, self.rows as nat, self.cols as nat)
    }
}

impl<E> Grid<E> {
    #[verifier::type_invariant]
    spec fn shape_inv(&self) -> bool {
        0 < self.rows && 0 < self.cols && self.cells@.len() == self.rows * self.cols
    }

    /// The fixed number of rows.
    pub closed spec fn nrows(&self) -> nat {
        self.rows as nat
    }

    /// The fixed number of columns.
    pub closed spec fn ncols(&self) -> nat {
        self.cols as nat
    }
}

impl<E: Copy> Grid<E> {
    /// A grid of `rows` by `cols` copies of `x`, or nothing when either
    /// dimension is not a positive integer or the shape exceeds the address
    /// space.
    pub fn filled(rows: usize, cols: usize, x: E) -> (r: Option<Grid<E>>)
        ensures
            r is Some <==> 0 < rows && 0 < cols && rows * cols <= usize::MAX,
            r is Some ==> {
                let g = r.unwrap();
                &&& g.nrows() == rows
                &&& g.ncols() == cols
                &&& g@ == Seq::new(rows as nat, |i: int| Seq::new(cols as nat, |j: int| x))
            },
    {
        if rows == 0 || cols == 0 {
            return None;
        }
        match rows.checked_mul(cols) {
            None => None,
            Some(n) => {
                let g = Grid { rows, cols, cells: Buffer::filled(n, x) };
                proof {
                    assert(g@ =~~= Seq::new(
                        rows as nat,
                        |i: int| Seq::new(cols as nat, |j: int| x),
                    )) by {
                        assert forall|i: int, j: int|
                            0 <= i < rows && 0 <= j < cols implies g@[i][j] == x by {
                            lemma_flat_bound(rows as int, cols as int, i, j);
                        }
                    }
                }
                Some(g)
            },
        }
    }

    /// The number of rows, as the engine reports it.
    pub fn row_count(&self) -> (r: usize)
        ensures
            r == self.nrows(),
    {
        self.rows
    }

    /// The number of columns, as the engine reports it.
    pub fn col_count(&self) -> (r: usize)
        ensures
            r == self.ncols(),
    {
        self.cols
    }

    /// A fresh grid of this grid's shape, every entry `x`.
    pub fn blank_like(&self, x: E) -> (r: Grid<E>)
        ensures
            r.nrows() == self.nrows(),
            r.ncols() == self.ncols(),
            forall|i: int, j: int|
                0 <= i < r.nrows() && 0 <= j < r.ncols() ==> r@[i][j] == x,
    {
        proof {
            use_type_invariant(&*self);
            self.cells.lemma_len_bound();
        }
        match Grid::filled(self.rows, self.cols, x) {
            Some(g) => g,
            None => unreached(),
        }
    }

    /// The element at row `i`, column `j`.
    pub fn get(&self, i: usize, j: usize) -> (r: E)
        requires
            i < self.nrows(),
            j < self.ncols(),
        ensures
            r == self@[i as int][j as int],
    {
        proof {
            use_type_invariant(&*self);
            self.cells.lemma_len_bound();
            lemma_flat_bound(self.rows as int, self.cols as int, i as int, j as int);
        }
        self.cells.get(i * self.cols + j)
    }

    /// Stores `x` at row `i`, column `j`; every other entry keeps its value.
    pub fn put(&mut self, i: usize, j: usize, x: E)
        requires
            i < old(self).nrows(),
            j < old(self).ncols(),
        ensures
            final(self).nrows() == old(self).nrows(),
            final(self).ncols() == old(self).ncols(),
            final(self)@ == old(self)@.update(
                i as int,
                old(self)@[i as int].update(j as int, x),
            ),
    {
        proof {
            use_type_invariant(&*self);
            self.cells.lemma_len_bound();
            lemma_flat_bound(self.rows as int, self.cols as int, i as int, j as int);
            lemma_grid_view_update(
                self.cells@,
                self.rows as nat,
                self.cols as nat,
                i as int,
                j as int,
                x,
            );
        }
        self.cells.set(i * self.cols + j, x);
    }

    /// Sets every entry to `x`.
    pub fn fill(&mut self, x: E)
        ensures
            final(self).nrows() == old(self).nrows(),
            final(self).ncols() == old(self).ncols(),
            forall|i: int, j: int|
                0 <= i < final(self).nrows() && 0 <= j < final(self).ncols()
                    ==> final(self)@[i][j] == x,
    {
        proof {
            use_type_invariant(&*self);
        }
        self.cells.fill(x);
        proof {
            assert forall|i: int, j: int|
                0 <= i < self.nrows() && 0 <= j < self.ncols() implies self@[i][j] == x by {
                lemma_flat_bound(self.rows as int, self.cols as int, i, j);
            }
        }
    }

    /// Overwrites this grid with the entries of `other`, which must have
    /// the same shape.
    pub fn copy_cells_from(&mut self, other: &Grid<E>)
        requires
            old(self).nrows() == other.nrows(),
            old(self).ncols() == other.ncols(),
        ensures
            final(self).nrows() == old(self).nrows(),
            final(self).ncols() == old(self).ncols(),
            final(self)@ == other@,
    {
        proof {
            use_type_invariant(&*self);
            use_type_invariant(other);
        }
        self.cells.copy_from(&other.cells);
    }

    /// Exchanges the whole contents of the two grids, which must have the
    /// same shape.
    pub fn swap_cells(&mut self, other: &mut Grid<E>)
        requires
            old(self).nrows() == old(other).nrows(),
            old(self).ncols() == old(other).ncols(),
        ensures
            final(self).nrows() == old(self).nrows(),
            final(self).ncols() == old(self).ncols(),
            final(other).nrows() == old(other).nrows(),
            final(other).ncols() == old(other).ncols(),
            final(self)@ == old(other)@,
            final(other)@ == old(self)@,
    {
        proof {
            use_type_invariant(&*self);
            use_type_invariant(&*other);
        }
        self.cells.swap_content(&mut other.cells);
    }

    /// A fresh buffer holding row `i`.
    pub fn extract_row(&self, i: usize) -> (r: Buffer<E>)
        requires
            i < self.nrows(),
        ensures
            r@ == self@[i as int],
    {
        proof {
            use_type_invariant(&*self);
        }
        let cols = self.cols;
        let first = self.get(i, 0);
        let mut out = Buffer::filled(cols, first);
        let mut k: usize = 0;
        while k < cols
            invariant
                i < self.nrows(),
                cols == self.ncols(),
                out@.len() == cols,
                k <= cols,
                forall|j: int| 0 <= j < k ==> out@[j] == self@[i as int][j],
            decreases cols - k,
        {
            let x = self.get(i, k);
            out.set(k, x);
            k = k + 1;
        }
        proof {
            assert(out@ =~= self@[i as int]);
        }
        out
    }

    /// A fresh buffer holding column `j`.
    pub fn extract_col(&self, j: usize) -> (r: Buffer<E>)
        requires
            j < self.ncols(),
        ensures
            r@.len() == self.nrows(),
            forall|i: int| 0 <= i < self.nrows() ==> r@[i] == self@[i][j as int],
    {
        proof {
            use_type_invariant(&*self);
        }
        let rows = self.rows;
        let first = self.get(0, j);
        let mut out = Buffer::filled(rows, first);
        let mut k: usize = 0;
        while k < rows
            invariant
                j < self.ncols(),
                rows == self.nrows(),
                out@.len() == rows,
                k <= rows,
                forall|i: int| 0 <= i < k ==> out@[i] == self@[i][j as int],
            decreases rows - k,
        {
            let x = self.get(k, j);
            out.set(k, x);
            k = k + 1;
        }
        out
    }

    /// Overwrites row `i` with the elements of `src`, whose length must be
    /// the column count.
    pub fn write_row(&mut self, i: usize, src: &Buffer<E>)
        requires
            i < old(self).nrows(),
            src@.len() == old(self).ncols(),
        ensures
            final(self).nrows() == old(self).nrows(),
            final(self).ncols() == old(self).ncols(),
            final(self)@ == old(self)@.update(i as int, src@),
    {
        proof {
            use_type_invariant(&*self);
        }
        let cols = self.cols;
        let mut k: usize = 0;
        while k < cols
            invariant
                i < self.nrows(),
                cols == self.ncols(),
                src@.len() == cols,
                self.nrows() == old(self).nrows(),
                self.ncols() == old(self).ncols(),
                k <= cols,
                forall|a: int| 0 <= a < self.nrows() && a != i ==> self@[a] == old(self)@[a],
                self@[i as int].len() == cols,
                forall|j: int| 0 <= j < k ==> self@[i as int][j] == src@[j],
                forall|j: int| k <= j < cols ==> self@[i as int][j] == old(self)@[i as int][j],
            decreases cols - k,
        {
            let x = src.get(k);
            self.put(i, k, x);
            k = k + 1;
        }
        proof {
            assert(self@[i as int] =~= src@);
            assert(self@ =~~= old(self)@.update(i as int, src@));
        }
    }

    /// Overwrites column `j` with the elements of `src`, whose length must
    /// be the row count.
    pub fn write_col(&mut self, j: usize, src: &Buffer<E>)
        requires
            j < old(self).ncols(),
            src@.len() == old(self).nrows(),
        ensures
            final(self).nrows() == old(self).nrows(),
            final(self).ncols() == old(self).ncols(),
            final(self)@.len() == old(self)@.len(),
            forall|a: int, b: int|
                0 <= a < final(self).nrows() && 0 <= b < final(self).ncols()
                    ==> final(self)@[a][b] == (if b == j as int {
                    src@[a]
                } else {
                    old(self)@[a][b]
                }),
    {
        proof {
            use_type_invariant(&*self);
        }
        let rows = self.rows;
        let mut k: usize = 0;
        while k < rows
            invariant
                j < self.ncols(),
                rows == self.nrows(),
                src@.len() == rows,
                self.nrows() == old(self).nrows(),
                self.ncols() == old(self).ncols(),
                k <= rows,
                forall|a: int, b: int|
                    0 <= a < self.nrows() && 0 <= b < self.ncols() ==> self@[a][b] == (if b
                        == j as int && a < k {
                        src@[a]
                    } else {
                        old(self)@[a][b]
                    }),
            decreases rows - k,
        {
            let x = src.get(k);
            self.put(k, j, x);
            k = k + 1;
        }
    }

    /// Exchanges rows `i1` and `i2` in place.
    pub fn exchange_rows(&mut self, i1: usize, i2: usize)
        requires
            i1 < old(self).nrows(),
            i2 < old(self).nrows(),
        ensures
            final(self).nrows() == old(self).nrows(),
            final(self).ncols() == old(self).ncols(),
            final(self)@ == old(self)@.update(i1 as int, old(self)@[i2 as int]).update(
                i2 as int,
                old(self)@[i1 as int],
            ),
    {
        let row1 = self.extract_row(i1);
        let row2 = self.extract_row(i2);
        self.write_row(i1, &row2);
        self.write_row(i2, &row1);
        proof {
            assert(self@ =~~= old(self)@.update(i1 as int, old(self)@[i2 as int]).update(
                i2 as int,
                old(self)@[i1 as int],
            ));
        }
    }

    /// Exchanges columns `j1` and `j2` in place.
    pub fn exchange_cols(&mut self, j1: usize, j2: usize)
        requires
            j1 < old(self).ncols(),
            j2 < old(self).ncols(),
        ensures
            final(self).nrows() == old(self).nrows(),
            final(self).ncols() == old(self).ncols(),
            final(self)@.len() == old(self)@.len(),
            forall|a: int, b: int|
                0 <= a < final(self).nrows() && 0 <= b < final(self).ncols()
                    ==> final(self)@[a][b] == (if b == j1 as int {
                    old(self)@[a][j2 as int]
                } else if b == j2 as int {
                    old(self)@[a][j1 as int]
                } else {
                    old(self)@[a][b]
                }),
    {
        let col1 = self.extract_col(j1);
        let col2 = self.extract_col(j2);
        self.write_col(j1, &col2);
        self.write_col(j2, &col1);
    }

    /// Exchanges row `i` and column `j` of a square grid in place, by the
    /// stepwise exchange that `rowcol_swapped` defines.
    pub fn swap_rowcol(&mut self, i: usize, j: usize)
        requires
            old(self).nrows() == old(self).ncols(),
            i < old(self).nrows(),
            j < old(self).ncols(),
        ensures
            final(self).nrows() == old(self).nrows(),
            final(self).ncols() == old(self).ncols(),
            final(self)@ == rowcol_swapped(old(self)@, i as int, j as int, old(self).nrows()),
    {
        proof {
            use_type_invariant(&*self);
        }
        let n = self.rows;
        let mut k: usize = 0;
        while k < n
            invariant
                n == self.nrows(),
                n == self.ncols(),
                self.nrows() == old(self).nrows(),
                self.ncols() == old(self).ncols(),
                i < n,
                j < n,
                k <= n,
                self@ == rowcol_swapped(old(self)@, i as int, j as int, k as nat),
            decreases n - k,
        {
            let a = self.get(i, k);
            let b = self.get(k, j);
            self.put(i, k, b);
            self.put(k, j, a);
            k = k + 1;
        }
    }

    /// Transposes a square grid in place.
    pub fn transpose_square(&mut self)
        requires
            old(self).nrows() == old(self).ncols(),
        ensures
            final(self).nrows() == old(self).nrows(),
            final(self).ncols() == old(self).ncols(),
            final(self)@.len() == old(self)@.len(),
            forall|a: int, b: int|
                0 <= a < final(self).nrows() && 0 <= b < final(self).ncols()
                    ==> final(self)@[a][b] == old(self)@[b][a],
    {
        proof {
            use_type_invariant(&*self);
        }
        let n = self.rows;
        let mut i: usize = 0;
        while i < n
            invariant
                n == self.nrows(),
                n == self.ncols(),
                self.nrows() == old(self).nrows(),
                self.ncols() == old(self).ncols(),
                i <= n,
                forall|a: int, b: int|
                    0 <= a < n && 0 <= b < n ==> self@[a][b] == (if a < i && b < a {
                        old(self)@[b][a]
                    } else if b < i && a < b {
                        old(self)@[b][a]
                    } else {
                        old(self)@[a][b]
                    }),
            decreases n - i,
        {
            let mut j: usize = 0;
            while j < i
                invariant
                    n == self.nrows(),
                    n == self.ncols(),
                    self.nrows() == old(self).nrows(),
                    self.ncols() == old(self).ncols(),
                    i < n,
                    j <= i,
                    forall|a: int, b: int|
                        0 <= a < n && 0 <= b < n ==> self@[a][b] == (if a < i && b < a {
                            old(self)@[b][a]
                        } else if b < i && a < b {
                            old(self)@[b][a]
                        } else if a == i && b < j {
                            old(self)@[b][a]
                        } else if b == i && a < j {
                            old(self)@[b][a]
                        } else {
                            old(self)@[a][b]
                        }),
                decreases i - j,
            {
                let x = self.get(i, j);
                let y = self.get(j, i);
                self.put(i, j, y);
                self.put(j, i, x);
                j = j + 1;
            }
            i = i + 1;
        }
    }

    /// A fresh grid of the transposed shape holding the transpose; this
    /// applies to square and rectangular grids alike.
    pub fn transposed_copy(&self) -> (r: Grid<E>)
        ensures
            r.nrows() == self.ncols(),
            r.ncols() == self.nrows(),
            forall|a: int, b: int|
                0 <= a < r.nrows() && 0 <= b < r.ncols() ==> r@[a][b] == self@[b][a],
    {
        proof {
            use_type_invariant(&*self);
            self.cells.lemma_len_bound();
            assert(self.cols * self.rows == self.rows * self.cols) by (nonlinear_arith);
        }
        let rows = self.rows;
        let cols = self.cols;
        let first = self.get(0, 0);
        let mut out = match Grid::filled(cols, rows, first) {
            Some(g) => g,
            None => unreached(),
        };
        let mut i: usize = 0;
        while i < cols
            invariant
                rows == self.nrows(),
                cols == self.ncols(),
                out.nrows() == cols,
                out.ncols() == rows,
                i <= cols,
                forall|a: int, b: int|
                    0 <= a < cols && 0 <= b < rows && a < i ==> out@[a][b] == self@[b][a],
            decreases cols - i,
        {
            let mut j: usize = 0;
            while j < rows
                invariant
                    rows == self.nrows(),
                    cols == self.ncols(),
                    out.nrows() == cols,
                    out.ncols() == rows,
                    i < cols,
                    j <= rows,
                    forall|a: int, b: int|
                        0 <= a < cols && 0 <= b < rows && a < i ==> out@[a][b] == self@[b][a],
                    forall|b: int| 0 <= b < j ==> out@[i as int][b] == self@[b][i as int],
                decreases rows - j,
            {
                let x = self.get(j, i);
                out.put(i, j, x);
                j = j + 1;
            }
            i = i + 1;
        }
        out
    }

    /// Combines this grid entrywise with `other`, which must have the same
    /// shape, storing at each position a value that the scalar operation
    /// `f` may return for the pair of old entries at that position.
    pub fn zip_cells<F: Fn(E, E) -> E>(&mut self, other: &Grid<E>, f: F)
        requires
            old(self).nrows() == other.nrows(),
            old(self).ncols() == other.ncols(),
            forall|x: E, y: E| call_requires(f, (x, y)),
        ensures
            final(self).nrows() == old(self).nrows(),
            final(self).ncols() == old(self).ncols(),
            forall|a: int, b: int|
                0 <= a < final(self).nrows() && 0 <= b < final(self).ncols() ==> call_ensures(
                    f,
                    (old(self)@[a][b], other@[a][b]),
                    #[trigger] final(self)@[a][b],
                ),
    {
        let rows = self.row_count();
        let cols = self.col_count();
        let mut i: usize = 0;
        while i < rows
            invariant
                rows == self.nrows(),
                cols == self.ncols(),
                self.nrows() == old(self).nrows(),
                self.ncols() == old(self).ncols(),
                other.nrows() == rows,
                other.ncols() == cols,
                forall|x: E, y: E| call_requires(f, (x, y)),
                i <= rows,
                forall|a: int, b: int|
                    0 <= a < i && 0 <= b < cols ==> call_ensures(
                        f,
                        (old(self)@[a][b], other@[a][b]),
                        #[trigger] self@[a][b],
                    ),
                forall|a: int, b: int|
                    i <= a < rows && 0 <= b < cols ==> #[trigger] self@[a][b] == old(
                        self,
                    )@[a][b],
            decreases rows - i,
        {
            let mut j: usize = 0;
            while j < cols
                invariant
                    rows == self.nrows(),
                    cols == self.ncols(),
                    self.nrows() == old(self).nrows(),
                    self.ncols() == old(self).ncols(),
                    other.nrows() == rows,
                    other.ncols() == cols,
                    forall|x: E, y: E| call_requires(f, (x, y)),
                    i < rows,
                    j <= cols,
                    forall|a: int, b: int|
                        0 <= a < i && 0 <= b < cols ==> call_ensures(
                            f,
                            (old(self)@[a][b], other@[a][b]),
                            #[trigger] self@[a][b],
                        ),
                    forall|b: int|
                        0 <= b < j ==> call_ensures(
                            f,
                            (old(self)@[i as int][b], other@[i as int][b]),
                            #[trigger] self@[i as int][b],
                        ),
                    forall|b: int|
                        j <= b < cols ==> #[trigger] self@[i as int][b] == old(
                            self,
                        )@[i as int][b],
                    forall|a: int, b: int|
                        i < a < rows && 0 <= b < cols ==> #[trigger] self@[a][b] == old(
                            self,
                        )@[a][b],
                decreases cols - j,
            {
                let x = self.get(i, j);
                let y = other.get(i, j);
                let v = f(x, y);
                self.put(i, j, v);
                j = j + 1;
            }
            i = i + 1;
        }
    }

    /// Rewrites each entry with a value that the scalar operation `f` may
    /// return for the old entry at that position.
    pub fn map_cells<F: Fn(E) -> E>(&mut self, f: F)
        requires
            forall|x: E| call_requires(f, (x,)),
        ensures
            final(self).nrows() == old(self).nrows(),
            final(self).ncols() == old(self).ncols(),
            forall|a: int, b: int|
                0 <= a < final(self).nrows() && 0 <= b < final(self).ncols() ==> call_ensures(
                    f,
                    (old(self)@[a][b],),
                    #[trigger] final(self)@[a][b],
                ),
    {
        let rows = self.row_count();
        let cols = self.col_count();
        let mut i: usize = 0;
        while i < rows
            invariant
                rows == self.nrows(),
                cols == self.ncols(),
                self.nrows() == old(self).nrows(),
                self.ncols() == old(self).ncols(),
                forall|x: E| call_requires(f, (x,)),
                i <= rows,
                forall|a: int, b: int|
                    0 <= a < i && 0 <= b < cols ==> call_ensures(
                        f,
                        (old(self)@[a][b],),
                        #[trigger] self@[a][b],
                    ),
                forall|a: int, b: int|
                    i <= a < rows && 0 <= b < cols ==> #[trigger] self@[a][b] == old(
                        self,
                    )@[a][b],
            decreases rows - i,
        {
            let mut j: usize = 0;
            while j < cols
                invariant
                    rows == self.nrows(),
                    cols == self.ncols(),
                    self.nrows() == old(self).nrows(),
                    self.ncols() == old(self).ncols(),
                    forall|x: E| call_requires(f, (x,)),
                    i < rows,
                    j <= cols,
                    forall|a: int, b: int|
                        0 <= a < i && 0 <= b < cols ==> call_ensures(
                            f,
                            (old(self)@[a][b],),
                            #[trigger] self@[a][b],
                        ),
                    forall|b: int|
                        0 <= b < j ==> call_ensures(
                            f,
                            (old(self)@[i as int][b],),
                            #[trigger] self@[i as int][b],
                        ),
                    forall|b: int|
                        j <= b < cols ==> #[trigger] self@[i as int][b] == old(
                            self,
                        )@[i as int][b],
                    forall|a: int, b: int|
                        i < a < rows && 0 <= b < cols ==> #[trigger] self@[a][b] == old(
                            self,
                        )@[a][b],
                decreases cols - j,
            {
                let x = self.get(i, j);
                let v = f(x);
                self.put(i, j, v);
                j = j + 1;
            }
            i = i + 1;
        }
    }
}

} // verus!
