//! A dense matrix of double-precision scalars, each held as its IEEE-754 bit
//! pattern (see `fp`). The entries are stored row by row in one flat vector;
//! the view of a matrix is the sequence of its rows, each a sequence of
//! entries.

use vstd::prelude::*;

verus! {

pub struct Matrix {
    /// Number of rows. Treat as read-only; use `new`, `get` and `set`.
    pub nrow: usize,
    /// Number of columns. Treat as read-only.
    pub ncol: usize,
    /// The entries, row by row, as IEEE-754 bit patterns. Treat as read-only.
    pub data: Vec<u64>,
}

impl View for Matrix {
    type V = Seq<Seq<u64>>;

    open spec fn view(&self) -> Seq<Seq<u64>> {
        Seq::new(
            self.nrow as nat,
            |i: int| Seq::new(self.ncol as nat, |j: int| self.data@[i * (self.ncol as int) + j]),
        )
    }
}

/// In a row-major layout, every in-range position has its flat index below
/// `nrow * ncol`.
proof fn lemma_flat_index(nrow: int, ncol: int, i: int, j: int)
    requires
        0 <= i < nrow,
        0 <= j < ncol,
    ensures
        0 <= i * ncol + j < nrow * ncol,
{
    assert(0 <= i * ncol + j < nrow * ncol) by (nonlinear_arith)
        requires
            0 <= i < nrow,
            0 <= j < ncol,
    ;
}

/// In a row-major layout, distinct in-range positions have distinct flat
/// indices.
proof fn lemma_flat_index_injective(ncol: int, i: int, j: int, r: int, c: int)
    requires
        0 <= j < ncol,
        0 <= c < ncol,
        0 <= i,
        0 <= r,
        r * ncol + c == i * ncol + j,
    ensures
        r == i && c == j,
{
    assert(r == i && c == j) by (nonlinear_arith)
        requires
            0 <= j < ncol,
            0 <= c < ncol,
            0 <= i,
            0 <= r,
            r * ncol + c == i * ncol + j,
    ;
}

impl Matrix {
    /// The representation invariant: the flat storage holds exactly
    /// `nrow * ncol` entries.
    pub open spec fn wf(&self) -> bool {
        self.data@.len() == self.nrow * self.ncol
    }

    /// Creates a new matrix with the given dimensions, filled with zeros.
    pub fn new(nrow: usize, ncol: usize) -> (a: Matrix)
        requires
            nrow * ncol <= usize::MAX,
        ensures
            a.wf(),
            a@.len() == nrow,
            a.ncols() == ncol as int,
            forall|i: int| 0 <= i < nrow ==> a@[i].len() == ncol,
            forall|i: int, j: int| 0 <= i < nrow && 0 <= j < ncol ==> a@[i][j] == 0u64,
    {
        proof {
            assert(nrow * ncol <= usize::MAX) by (nonlinear_arith)
                requires
                    nrow * ncol <= usize::MAX,
            ;
        }
        let total: usize = nrow * ncol;
        let mut data: Vec<u64> = Vec::new();
        for k in 0..total
            invariant
                data@.len() == k,
                forall|i: int| 0 <= i < k ==> data@[i] == 0u64,
        {
            data.push(0);
        }
        let a = Matrix { nrow, ncol, data };
        proof {
            assert forall|i: int, j: int| 0 <= i < nrow && 0 <= j < ncol implies a@[i][j] == 0u64 by {
                lemma_flat_index(nrow as int, ncol as int, i, j);
            }
        }
        a
    }

    /// The pair (number of rows, number of columns).
    pub fn dims(&self) -> (r: (usize, usize))
        ensures
            r.0 == self@.len(),
            r.1 as int == self.ncols(),
    {
        (self.nrow, self.ncol)
    }

    /// The number of rows.
    pub fn nrow(&self) -> (r: usize)
        ensures
            r == self@.len(),
    {
        self.nrow
    }

    /// The number of columns.
    pub fn ncol(&self) -> (r: usize)
        ensures
            r as int == self.ncols(),
    {
        self.ncol
    }

    /// The number of columns, as every row's length in the view.
    pub open spec fn ncols(&self) -> int {
        self.ncol as int
    }

    /// The entry at row `i`, column `j`.
    pub fn get(&self, i: usize, j: usize) -> (r: u64)
        requires
            self.wf(),
            i < self@.len(),
            j < self.ncols(),
        ensures
            r == self@[i as int][j as int],
    {
        let n_entries = self.data.len();
        proof {
            lemma_flat_index(self.nrow as int, self.ncol as int, i as int, j as int);
            assert((i as int) * (self.ncol as int) + (j as int) < n_entries as int);
        }
        self.data[i * self.ncol + j]
    }

    /// Replaces the entry at row `i`, column `j`.
    pub fn set(&mut self, i: usize, j: usize, value: u64)
        requires
            old(self).wf(),
            i < old(self)@.len(),
            j < old(self).ncols(),
        ensures
            final(self).wf(),
            final(self)@ == old(self)@.update(
                i as int,
                old(self)@[i as int].update(j as int, value),
            ),
            final(self).ncols() == old(self).ncols(),
    {
        let n_entries = self.data.len();
        proof {
            lemma_flat_index(self.nrow as int, self.ncol as int, i as int, j as int);
            assert((i as int) * (self.ncol as int) + (j as int) < n_entries as int);
        }
        let k: usize = i * self.ncol + j;
        self.data[k] = value;
        proof {
            let nrow = self.nrow as int;
            let ncol = self.ncol as int;
            let target = old(self)@.update(i as int, old(self)@[i as int].update(j as int, value));
            assert forall|r: int| 0 <= r < nrow implies self@[r] =~= target[r] by {
                assert forall|c: int| 0 <= c < ncol implies self@[r][c] == target[r][c] by {
                    lemma_flat_index(nrow, ncol, r, c);
                    if r * ncol + c == i * ncol + j {
                        lemma_flat_index_injective(ncol, i as int, j as int, r, c);
                    }
                }
            }
            assert(self@ =~= target);
        }
    }
}

} // verus!
