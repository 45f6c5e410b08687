//! Dense row-major matrices of binary64 bit patterns.
//!
//! A `Matrix` is the crate's data model for the feature matrix `X`, the label
//! vector `Y`, activations, predictions, and the weight vector `W`. Entries
//! are `u64` bit patterns of binary64 values (see `bits`). The shape is part
//! of the value: every row has the same length, and the contracts of every
//! operation speak about the matrix as a sequence of rows.

use vstd::prelude::*;

use crate::bits::is_label_bits;
use crate::bits::F_ONE;
use crate::bits::F_ZERO;
use crate::model::ModelError;

verus! {

/// A dense matrix of binary64 bit patterns with a fixed rectangular shape.
pub struct Matrix {
    rows: usize,
    cols: usize,
    data: Vec<Vec<u64>>,
}

impl View for Matrix {
    type V = Seq<Seq<u64>>;

    closed spec fn view(&self) -> Seq<Seq<u64>> {
        self.data@.map_values(|r: Vec<u64>| r@)
    }
}

/// Every entry of the single column of `y` is a class label.
pub open spec fn labels_ok(y: Seq<Seq<u64>>) -> bool {
    forall|i: int| 0 <= i < y.len() ==> is_label_bits(#[trigger] y[i][0])
}

impl Matrix {
    /// The number of rows.
    pub closed spec fn nrows(&self) -> int {
        self.rows as int
    }

    /// The number of columns.
    pub closed spec fn ncols(&self) -> int {
        self.cols as int
    }

    /// The shape is consistent: as many rows as declared, and every row as
    /// long as the declared column count. Every `Matrix` the crate hands out
    /// satisfies this, and every operation preserves it.
    pub closed spec fn wf(&self) -> bool {
        &&& self.data@.len() == self.rows
        &&& forall|i: int|
            0 <= i < self.data@.len() ==> (#[trigger] self.data@[i])@.len() == self.cols
    }

    /// A well-formed matrix viewed as rows: the declared shape is the shape
    /// of the view.
    pub proof fn lemma_wf_view(&self)
        requires
            self.wf(),
        ensures
            self@.len() == self.nrows(),
            forall|i: int| 0 <= i < self@.len() ==> (#[trigger] self@[i]).len() == self.ncols(),
    {
    }

    /// Builds a matrix from parts whose shape is already known to agree.
    pub(crate) fn from_parts(rows: usize, cols: usize, data: Vec<Vec<u64>>) -> (m: Matrix)
        requires
            data@.len() == rows,
            forall|i: int| 0 <= i < data@.len() ==> (#[trigger] data@[i])@.len() == cols,
        ensures
            m.wf(),
            m@ == data@.map_values(|r: Vec<u64>| r@),
            m.nrows() == rows,
            m.ncols() == cols,
    {
        Matrix { rows, cols, data }
    }

    /// A matrix whose entries are all the pattern of 0.0.
    pub fn zeros(rows: usize, cols: usize) -> (m: Matrix)
        ensures
            m.wf(),
            m.nrows() == rows,
            m.ncols() == cols,
            m@.len() == rows,
            forall|i: int, j: int|
                0 <= i < rows && 0 <= j < cols ==> #[trigger] m@[i][j] == F_ZERO,
    {
        let mut data: Vec<Vec<u64>> = Vec::new();
        let mut i: usize = 0;
        while i < rows
            invariant
                i <= rows,
                data@.len() == i,
                forall|k: int| 0 <= k < i ==> (#[trigger] data@[k])@.len() == cols,
                forall|k: int, j: int|
                    0 <= k < i && 0 <= j < cols ==> #[trigger] data@[k]@[j] == F_ZERO,
            decreases rows - i,
        {
            let mut row: Vec<u64> = Vec::new();
            let mut j: usize = 0;
            while j < cols
                invariant
                    j <= cols,
                    row@.len() == j,
                    forall|l: int| 0 <= l < j ==> #[trigger] row@[l] == F_ZERO,
                decreases cols - j,
            {
                row.push(F_ZERO);
                j = j + 1;
            }
            data.push(row);
            i = i + 1;
        }
        Matrix::from_parts(rows, cols, data)
    }

    /// Builds a matrix from a vector of rows. Succeeds exactly when the rows
    /// all have the same length; a ragged input is a shape error.
    pub fn from_rows(data: Vec<Vec<u64>>) -> (r: Result<Matrix, ModelError>)
        ensures
            r is Ok <==> (forall|i: int|
                0 <= i < data@.len() ==> (#[trigger] data@[i])@.len() == data@[0]@.len()),
            r is Err ==> r == Err::<Matrix, ModelError>(ModelError::ShapeMismatch),
            r matches Ok(m) ==> {
                &&& m.wf()
                &&& m@ == data@.map_values(|v: Vec<u64>| v@)
                &&& m.nrows() == data@.len()
                &&& (data@.len() > 0 ==> m.ncols() == data@[0]@.len())
                &&& (data@.len() == 0 ==> m.ncols() == 0)
            },
    {
        let rows: usize = data.len();
        let cols: usize = if rows > 0 {
            data[0].len()
        } else {
            0
        };
        let mut i: usize = 0;
        while i < rows
            invariant
                i <= rows,
                rows == data@.len(),
                rows > 0 ==> cols == data@[0]@.len(),
                forall|k: int| 0 <= k < i ==> (#[trigger] data@[k])@.len() == cols,
            decreases rows - i,
        {
            if data[i].len() != cols {
                return Err(ModelError::ShapeMismatch);
            }
            i = i + 1;
        }
        Ok(Matrix::from_parts(rows, cols, data))
    }

    /// The number of rows.
    pub fn rows(&self) -> (r: usize)
        ensures
            r == self.nrows(),
    {
        self.rows
    }

    /// The number of columns.
    pub fn cols(&self) -> (r: usize)
        ensures
            r == self.ncols(),
    {
        self.cols
    }

    /// The entry in row `i`, column `j`.
    pub fn get(&self, i: usize, j: usize) -> (r: u64)
        requires
            self.wf(),
            i < self@.len(),
            j < self.ncols(),
        ensures
            r == self@[i as int][j as int],
    {
        self.data[i][j]
    }
}

/// Decides whether every entry of the single-column matrix `y` is one of the
/// two class labels, the patterns of 0.0 and 1.0.
pub fn check_labels(y: &Matrix) -> (r: bool)
    requires
        y.wf(),
        y.ncols() == 1,
    ensures
        r == labels_ok(y@),
{
    proof {
        y.lemma_wf_view();
    }
    let n: usize = y.rows();
    let mut i: usize = 0;
    while i < n
        invariant
            i <= n,
            n == y@.len(),
            y.wf(),
            y.ncols() == 1,
            forall|k: int| 0 <= k < i ==> is_label_bits(#[trigger] y@[k][0]),
        decreases n - i,
    {
        proof {
            y.lemma_wf_view();
        }
        let v: u64 = y.get(i, 0);
        if !(v == F_ZERO || v == F_ONE) {
            return false;
        }
        i = i + 1;
    }
    true
}

} // verus!
