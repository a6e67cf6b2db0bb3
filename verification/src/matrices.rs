//! Rectangular matrices with dimension bookkeeping carried as a verified
//! invariant: every row is exactly `cols` long, and each operation's contract
//! states the dimensions and the entries of its result. Multiplication,
//! transposition and the two concatenations demand the dimension match-ups
//! that the type system once enforced.

use vstd::prelude::*;

verus! {

/// The partial dot product of row `i` of `a` with column `j` of `b` over the
/// first `upto` terms.
pub open spec fn dot_partial(a: Seq<Seq<i64>>, b: Seq<Seq<i64>>, i: int, j: int, upto: int) -> int
    decreases upto,
{
    if upto <= 0 {
        0
    } else {
        dot_partial(a, b, i, j, upto - 1) + a[i][upto - 1] * b[upto - 1][j]
    }
}

/// Entry `(i, j)` of the matrix product of `a` (rows of length `m`) and `b`
/// (`m` rows).
pub open spec fn product_entry(a: Seq<Seq<i64>>, b: Seq<Seq<i64>>, i: int, j: int, m: int) -> int {
    dot_partial(a, b, i, j, m)
}

/// Multiplying `a` and `b` stays within `i64`: every term of every dot
/// product fits, and so does every partial sum the loop builds.
pub open spec fn matmul_fits(a: Seq<Seq<i64>>, b: Seq<Seq<i64>>, rows: int, m: int, cols: int) -> bool {
    &&& forall|i: int, j: int, k: int|
        0 <= i < rows && 0 <= j < cols && 0 <= k < m ==> i64::MIN <= #[trigger] (a[i][k] * b[k][j])
            <= i64::MAX
    &&& forall|i: int, j: int, upto: int|
        0 <= i < rows && 0 <= j < cols && 0 <= upto <= m ==> i64::MIN <= #[trigger] dot_partial(
            a,
            b,
            i,
            j,
            upto,
        ) <= i64::MAX
}

/// A `rows x cols` matrix, stored row by row.
pub struct Matrix<T> {
    rows: usize,
    cols: usize,
    data: Vec<Vec<T>>,
}

impl<T> Matrix<T> {
    /// The entries, row by row.
    pub closed spec fn view_data(self) -> Seq<Seq<T>> {
        self.data@.map_values(|row: Vec<T>| row@)
    }

    pub closed spec fn spec_rows(self) -> usize {
        self.rows
    }

    pub closed spec fn spec_cols(self) -> usize {
        self.cols
    }

    /// The shape every matrix keeps: `rows` rows, each exactly `cols` long.
    pub open spec fn wf(self) -> bool {
        &&& self.view_data().len() == self.spec_rows()
        &&& forall|i: int|
            0 <= i < self.spec_rows() ==> #[trigger] self.view_data()[i].len() == self.spec_cols()
    }

    /// The stored rows have the lengths `wf` promises of the view.
    proof fn lemma_wf_dims(self)
        requires
            self.wf(),
        ensures
            self.data@.len() == self.spec_rows(),
            forall|i: int|
                0 <= i < self.spec_rows() ==> #[trigger] self.data@[i]@.len() == self.spec_cols(),
    {
        assert forall|i: int| 0 <= i < self.spec_rows() implies #[trigger] self.data@[i]@.len()
            == self.spec_cols() by {
            assert(self.view_data()[i].len() == self.spec_cols());
        }
    }

    pub fn row_count(&self) -> (n: usize)
        ensures
            n == self.spec_rows(),
    {
        self.rows
    }

    pub fn col_count(&self) -> (n: usize)
        ensures
            n == self.spec_cols(),
    {
        self.cols
    }
}

impl<T: Copy> Matrix<T> {
    /// A matrix from its rows. All rows must be equally long; the column
    /// count is read off the first row (zero when there are no rows).
    pub fn from_data(data: Vec<Vec<T>>) -> (r: Matrix<T>)
        requires
            forall|i: int| 0 <= i < data@.len() ==> #[trigger] data@[i]@.len() == data@[0]@.len(),
        ensures
            r.wf(),
            r.spec_rows() == data@.len(),
            data@.len() > 0 ==> r.spec_cols() == data@[0]@.len(),
            forall|i: int| 0 <= i < data@.len() ==> #[trigger] r.view_data()[i] == data@[i]@,
    {
        let rows = data.len();
        let cols = if rows > 0 {
            data[0].len()
        } else {
            0
        };
        Matrix { rows, cols, data }
    }

    /// Read one entry.
    pub fn entry(&self, i: usize, j: usize) -> (v: T)
        requires
            self.wf(),
            i < self.spec_rows(),
            j < self.spec_cols(),
        ensures
            v == self.view_data()[i as int][j as int],
    {
        proof {
            self.lemma_wf_dims();
        }
        self.data[i][j]
    }

    /// The transpose: a `cols x rows` matrix with the entries mirrored
    /// across the diagonal.
    pub fn transpose(&self) -> (r: Matrix<T>)
        requires
            self.wf(),
        ensures
            r.wf(),
            r.spec_rows() == self.spec_cols(),
            r.spec_cols() == self.spec_rows(),
            forall|i: int, j: int|
                0 <= i < self.spec_rows() && 0 <= j < self.spec_cols() ==> r.view_data()[j][i]
                    == #[trigger] self.view_data()[i][j],
    {
        let mut data: Vec<Vec<T>> = Vec::new();
        let mut j: usize = 0;
        while j < self.cols
            invariant
                self.wf(),
                j <= self.spec_cols(),
                data@.len() == j,
                forall|j2: int|
                    0 <= j2 < j ==> #[trigger] data@[j2]@.len() == self.spec_rows(),
                forall|j2: int, i: int|
                    0 <= j2 < j && 0 <= i < self.spec_rows() ==> #[trigger] data@[j2]@[i]
                        == self.view_data()[i][j2],
            decreases self.spec_cols() - j,
        {
            let mut row: Vec<T> = Vec::new();
            let mut i: usize = 0;
            while i < self.rows
                invariant
                    self.wf(),
                    j < self.spec_cols(),
                    i <= self.spec_rows(),
                    row@.len() == i,
                    forall|i2: int|
                        0 <= i2 < i ==> #[trigger] row@[i2] == self.view_data()[i2][j as int],
                decreases self.spec_rows() - i,
            {
                proof {
                    self.lemma_wf_dims();
                }
                row.push(self.data[i][j]);
                i = i + 1;
            }
            data.push(row);
            j = j + 1;
        }
        let r = Matrix { rows: self.cols, cols: self.rows, data };
        proof {
            assert forall|i: int| 0 <= i < r.spec_rows() implies #[trigger] r.view_data()[i].len()
                == r.spec_cols() by {}
        }
        r
    }

    /// The matrix `[self | other]`: the rows of `self` extended by the rows
    /// of `other`. Both must have the same number of rows.
    pub fn horizontal_concat(&self, other: &Matrix<T>) -> (r: Matrix<T>)
        requires
            self.wf(),
            other.wf(),
            self.spec_rows() == other.spec_rows(),
            self.spec_cols() + other.spec_cols() <= usize::MAX,
        ensures
            r.wf(),
            r.spec_rows() == self.spec_rows(),
            r.spec_cols() == self.spec_cols() + other.spec_cols(),
            forall|i: int, j: int|
                0 <= i < self.spec_rows() && 0 <= j < self.spec_cols() ==> r.view_data()[i][j]
                    == #[trigger] self.view_data()[i][j],
            forall|i: int, j: int|
                0 <= i < self.spec_rows() && 0 <= j < other.spec_cols() ==> r.view_data()[i][j
                    + self.spec_cols()] == #[trigger] other.view_data()[i][j],
    {
        let total_cols = self.cols + other.cols;
        let mut data: Vec<Vec<T>> = Vec::new();
        let mut i: usize = 0;
        while i < self.rows
            invariant
                self.wf(),
                other.wf(),
                self.spec_rows() == other.spec_rows(),
                total_cols == self.spec_cols() + other.spec_cols(),
                i <= self.spec_rows(),
                data@.len() == i,
                forall|i2: int| 0 <= i2 < i ==> #[trigger] data@[i2]@.len() == total_cols,
                forall|i2: int, j: int|
                    0 <= i2 < i && 0 <= j < self.spec_cols() ==> #[trigger] data@[i2]@[j]
                        == self.view_data()[i2][j],
                forall|i2: int, j: int|
                    0 <= i2 < i && 0 <= j < other.spec_cols() ==> #[trigger] data@[i2]@[j
                        + self.spec_cols()] == other.view_data()[i2][j],
            decreases self.spec_rows() - i,
        {
            let mut row: Vec<T> = Vec::new();
            let mut j: usize = 0;
            while j < self.cols
                invariant
                    self.wf(),
                    i < self.spec_rows(),
                    j <= self.spec_cols(),
                    row@.len() == j,
                    forall|j2: int|
                        0 <= j2 < j ==> #[trigger] row@[j2] == self.view_data()[i as int][j2],
                decreases self.spec_cols() - j,
            {
                proof {
                    self.lemma_wf_dims();
                }
                row.push(self.data[i][j]);
                j = j + 1;
            }
            let mut j: usize = 0;
            while j < other.cols
                invariant
                    self.wf(),
                    other.wf(),
                    self.spec_rows() == other.spec_rows(),
                    i < self.spec_rows(),
                    j <= other.spec_cols(),
                    row@.len() == self.spec_cols() + j,
                    forall|j2: int|
                        0 <= j2 < self.spec_cols() ==> #[trigger] row@[j2] == self.view_data()[i as int][j2],
                    forall|j2: int|
                        0 <= j2 < j ==> #[trigger] row@[j2 + self.spec_cols()]
                            == other.view_data()[i as int][j2],
                decreases other.spec_cols() - j,
            {
                proof {
                    other.lemma_wf_dims();
                }
                row.push(other.data[i][j]);
                j = j + 1;
            }
            data.push(row);
            i = i + 1;
        }
        Matrix { rows: self.rows, cols: total_cols, data }
    }

    /// The matrix `[self / other]`: the rows of `self` followed by the rows
    /// of `other`. Both must have the same number of columns.
    pub fn vertical_concat(&self, other: &Matrix<T>) -> (r: Matrix<T>)
        requires
            self.wf(),
            other.wf(),
            self.spec_cols() == other.spec_cols(),
            self.spec_rows() + other.spec_rows() <= usize::MAX,
        ensures
            r.wf(),
            r.spec_rows() == self.spec_rows() + other.spec_rows(),
            r.spec_cols() == self.spec_cols(),
            forall|i: int|
                0 <= i < self.spec_rows() ==> r.view_data()[i] == #[trigger] self.view_data()[i],
            forall|i: int|
                0 <= i < other.spec_rows() ==> r.view_data()[i + self.spec_rows()]
                    == #[trigger] other.view_data()[i],
    {
        let total_rows = self.rows + other.rows;
        let mut data: Vec<Vec<T>> = Vec::new();
        let mut i: usize = 0;
        while i < self.rows
            invariant
                self.wf(),
                i <= self.spec_rows(),
                data@.len() == i,
                forall|i2: int| 0 <= i2 < i ==> #[trigger] data@[i2]@ == self.view_data()[i2],
            decreases self.spec_rows() - i,
        {
            let row = self.clone_row(i);
            data.push(row);
            i = i + 1;
        }
        let mut i: usize = 0;
        while i < other.rows
            invariant
                self.wf(),
                other.wf(),
                i <= other.spec_rows(),
                data@.len() == self.spec_rows() + i,
                forall|i2: int|
                    0 <= i2 < self.spec_rows() ==> #[trigger] data@[i2]@ == self.view_data()[i2],
                forall|i2: int|
                    0 <= i2 < i ==> #[trigger] data@[i2 + self.spec_rows()]@
                        == other.view_data()[i2],
            decreases other.spec_rows() - i,
        {
            let row = other.clone_row(i);
            data.push(row);
            i = i + 1;
        }
        let r = Matrix { rows: total_rows, cols: self.cols, data };
        proof {
            assert forall|i2: int| 0 <= i2 < r.spec_rows() implies #[trigger] r.view_data()[i2].len() == r.spec_cols() by {
                assert(r.view_data()[i2] == r.data@[i2]@);
                if i2 < self.spec_rows() {
                    assert(r.data@[i2]@ == self.view_data()[i2]);
                    assert(self.view_data()[i2].len() == self.spec_cols());
                } else {
                    let k = i2 - self.spec_rows();
                    assert(r.data@[k + self.spec_rows()]@ == other.view_data()[k]);
                    assert(other.view_data()[k].len() == other.spec_cols());
                }
            }
        }
        r
    }

    /// A fresh copy of row `i`.
    fn clone_row(&self, i: usize) -> (r: Vec<T>)
        requires
            self.wf(),
            i < self.spec_rows(),
        ensures
            r@ == self.view_data()[i as int],
    {
        let mut row: Vec<T> = Vec::new();
        let mut j: usize = 0;
        while j < self.cols
            invariant
                self.wf(),
                i < self.spec_rows(),
                j <= self.spec_cols(),
                row@.len() == j,
                forall|j2: int| 0 <= j2 < j ==> #[trigger] row@[j2] == self.view_data()[i as int][j2],
            decreases self.spec_cols() - j,
        {
            proof {
                self.lemma_wf_dims();
            }
            row.push(self.data[i][j]);
            j = j + 1;
        }
        proof {
            assert(row@ =~= self.view_data()[i as int]);
        }
        row
    }
}

impl Matrix<i64> {
    /// The `rows x cols` matrix of zeros.
    pub fn zeros(rows: usize, cols: usize) -> (r: Matrix<i64>)
        ensures
            r.wf(),
            r.spec_rows() == rows,
            r.spec_cols() == cols,
            forall|i: int, j: int|
                0 <= i < rows && 0 <= j < cols ==> #[trigger] r.view_data()[i][j] == 0,
    {
        let mut data: Vec<Vec<i64>> = Vec::new();
        let mut i: usize = 0;
        while i < rows
            invariant
                i <= rows,
                data@.len() == i,
                forall|i2: int| 0 <= i2 < i ==> #[trigger] data@[i2]@.len() == cols,
                forall|i2: int, j: int|
                    0 <= i2 < i && 0 <= j < cols ==> #[trigger] data@[i2]@[j] == 0,
            decreases rows - i,
        {
            let mut row: Vec<i64> = Vec::new();
            let mut j: usize = 0;
            while j < cols
                invariant
                    j <= cols,
                    row@.len() == j,
                    forall|j2: int| 0 <= j2 < j ==> #[trigger] row@[j2] == 0,
                decreases cols - j,
            {
                row.push(0);
                j = j + 1;
            }
            data.push(row);
            i = i + 1;
        }
        Matrix { rows, cols, data }
    }

    /// The matrix product: `self` is `rows x m`, `other` is `m x cols`, and
    /// entry `(i, j)` of the result is the dot product of row `i` with
    /// column `j`.
    pub fn matmul(&self, other: &Matrix<i64>) -> (r: Matrix<i64>)
        requires
            self.wf(),
            other.wf(),
            self.spec_cols() == other.spec_rows(),
            matmul_fits(
                self.view_data(),
                other.view_data(),
                self.spec_rows() as int,
                self.spec_cols() as int,
                other.spec_cols() as int,
            ),
        ensures
            r.wf(),
            r.spec_rows() == self.spec_rows(),
            r.spec_cols() == other.spec_cols(),
            forall|i: int, j: int|
                0 <= i < self.spec_rows() && 0 <= j < other.spec_cols()
                    ==> #[trigger] r.view_data()[i][j] == product_entry(
                    self.view_data(),
                    other.view_data(),
                    i,
                    j,
                    self.spec_cols() as int,
                ),
    {
        let ghost a = self.view_data();
        let ghost b = other.view_data();
        let m = self.cols;
        let mut data: Vec<Vec<i64>> = Vec::new();
        let mut i: usize = 0;
        while i < self.rows
            invariant
                self.wf(),
                other.wf(),
                a == self.view_data(),
                b == other.view_data(),
                m == self.spec_cols(),
                m == other.spec_rows(),
                matmul_fits(a, b, self.spec_rows() as int, m as int, other.spec_cols() as int),
                i <= self.spec_rows(),
                data@.len() == i,
                forall|i2: int|
                    0 <= i2 < i ==> #[trigger] data@[i2]@.len() == other.spec_cols(),
                forall|i2: int, j: int|
                    0 <= i2 < i && 0 <= j < other.spec_cols() ==> #[trigger] data@[i2]@[j]
                        == product_entry(a, b, i2, j, m as int),
            decreases self.spec_rows() - i,
        {
            let mut row: Vec<i64> = Vec::new();
            let mut j: usize = 0;
            while j < other.cols
                invariant
                    self.wf(),
                    other.wf(),
                    a == self.view_data(),
                    b == other.view_data(),
                    m == self.spec_cols(),
                    m == other.spec_rows(),
                    matmul_fits(a, b, self.spec_rows() as int, m as int, other.spec_cols() as int),
                    i < self.spec_rows(),
                    j <= other.spec_cols(),
                    row@.len() == j,
                    forall|j2: int|
                        0 <= j2 < j ==> #[trigger] row@[j2] == product_entry(a, b, i as int, j2, m as int),
                decreases other.spec_cols() - j,
            {
                let mut sum: i64 = 0;
                let mut k: usize = 0;
                while k < m
                    invariant
                        self.wf(),
                        other.wf(),
                        a == self.view_data(),
                        b == other.view_data(),
                        m == self.spec_cols(),
                        m == other.spec_rows(),
                        matmul_fits(
                            a,
                            b,
                            self.spec_rows() as int,
                            m as int,
                            other.spec_cols() as int,
                        ),
                        i < self.spec_rows(),
                        j < other.spec_cols(),
                        k <= m,
                        sum == dot_partial(a, b, i as int, j as int, k as int),
                    decreases m - k,
                {
                    proof {
                        self.lemma_wf_dims();
                        other.lemma_wf_dims();
                        assert(self.data@[i as int]@[k as int] == a[i as int][k as int]);
                        assert(other.data@[k as int]@[j as int] == b[k as int][j as int]);
                        assert(i64::MIN <= a[i as int][k as int] * b[k as int][j as int]
                            <= i64::MAX);
                    }
                    let p = self.data[i][k] * other.data[k][j];
                    proof {
                        assert(dot_partial(a, b, i as int, j as int, k + 1) == sum + p);
                    }
                    sum = sum + p;
                    k = k + 1;
                }
                row.push(sum);
                j = j + 1;
            }
            data.push(row);
            i = i + 1;
        }
        Matrix { rows: self.rows, cols: other.cols, data }
    }
}

} // verus!
