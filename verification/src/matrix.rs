//! A dense, rectangular matrix of binary64 encodings.
//!
//! Rows are feature vectors; the column count is carried explicitly so that a
//! matrix with no rows still has a definite width, as the predictor's
//! dimension checks need.

use vstd::prelude::*;

verus! {

/// A rectangular matrix of binary64 encodings. Its view is the sequence of
/// its rows, each row a sequence of encodings of length [`Matrix::cols`].
#[derive(Clone, Debug)]
pub struct Matrix {
    rows: Vec<Vec<u64>>,
    cols: usize,
}

impl View for Matrix {
    type V = Seq<Seq<u64>>;

    closed spec fn view(&self) -> Seq<Seq<u64>> {
        self.rows@.map(|_i: int, r: Vec<u64>| r@)
    }
}

impl Matrix {
    /// The number of columns, as a specification value.
    pub closed spec fn spec_cols(&self) -> int {
        self.cols as int
    }

    /// Well-formedness: every row has exactly `cols` entries.
    pub open spec fn wf(&self) -> bool {
        forall|i: int| 0 <= i < self@.len() ==> (#[trigger] self@[i]).len() == self.spec_cols()
    }

    /// An empty matrix of the given width.
    pub fn new(cols: usize) -> (m: Matrix)
        ensures
            m@.len() == 0,
            m.spec_cols() == cols,
            m.wf(),
    {
        Matrix { rows: Vec::new(), cols }
    }

    /// Appends one row; the row must match the matrix's width.
    pub fn push_row(&mut self, row: Vec<u64>)
        requires
            row@.len() == old(self).spec_cols(),
        ensures
            final(self)@ == old(self)@.push(row@),
            final(self).spec_cols() == old(self).spec_cols(),
            old(self).wf() ==> final(self).wf(),
    {
        self.rows.push(row);
        proof {
            assert(final(self)@ =~= old(self)@.push(row@));
        }
    }

    /// The number of rows.
    pub fn nrows(&self) -> (n: usize)
        ensures
            n == self@.len(),
    {
        self.rows.len()
    }

    /// The number of columns.
    pub fn ncols(&self) -> (n: usize)
        ensures
            n == self.spec_cols(),
    {
        self.cols
    }

    /// A reference to row `i`.
    pub fn row(&self, i: usize) -> (r: &Vec<u64>)
        requires
            i < self@.len(),
        ensures
            r@ == self@[i as int],
    {
        &self.rows[i]
    }

    /// The entry in row `i`, column `j`.
    pub fn get(&self, i: usize, j: usize) -> (v: u64)
        requires
            self.wf(),
            i < self@.len(),
            j < self.spec_cols(),
        ensures
            v == self@[i as int][j as int],
    {
        proof {
            assert(self@[i as int] == self.rows@[i as int]@);
        }
        self.rows[i][j]
    }
}

} // verus!
