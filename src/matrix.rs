//! Two-dimensional payloads for the boundary.
//!
//! The boundary takes a matrix as one flat buffer with a row count and a
//! column count and no layout tag. This library fixes the layout: the buffer
//! is column-major, the cell in row `i` and column `j` standing at
//! `j * rows + i`, which is how the native side stores its matrices.

use vstd::prelude::*;
use crate::registry::{TypeCodes, TypeTag};
use crate::value::Element;

verus! {

/// Why a matrix could not be built.
#[derive(Clone, Copy, Debug, PartialEq, Eq, Structural)]
pub enum ShapeError {
    /// A dimension does not fit the boundary's 32-bit counts.
    DimensionTooLarge,
    /// The number of cells is not rows times columns.
    CellCount,
}

/// What the boundary is told besides the buffer: the element type's code and
/// the two dimensions.
#[derive(Clone, Copy, Debug, PartialEq, Eq, Structural)]
pub struct ArrayHeader {
    pub type_code: u32,
    pub rows: u32,
    pub cols: u32,
}

/// A matrix of `rows` by `cols` cells, stored column-major.
pub struct Matrix<T> {
    rows: usize,
    cols: usize,
    cells: Vec<T>,
}

/// The cell in row `i` and column `j` of a column-major buffer.
pub open spec fn column_major_cell<T>(s: Seq<T>, rows: int, i: int, j: int) -> T {
    s[j * rows + i]
}

/// The cell in row `i` and column `j` of a row-major buffer.
pub open spec fn row_major_cell<T>(s: Seq<T>, cols: int, i: int, j: int) -> T {
    s[i * cols + j]
}

proof fn lemma_cell_index(rows: int, cols: int, i: int, j: int)
    requires
        0 <= i < rows,
        0 <= j < cols,
    ensures
        0 <= j * rows + i < rows * cols,
        0 <= i * cols + j < rows * cols,
        (j + 1) * rows <= rows * cols,
{
    assert(0 <= j * rows + i < rows * cols) by (nonlinear_arith)
        requires
            0 <= i < rows,
            0 <= j < cols,
    ;
    assert(0 <= i * cols + j < rows * cols) by (nonlinear_arith)
        requires
            0 <= i < rows,
            0 <= j < cols,
    ;
    assert((j + 1) * rows <= rows * cols) by (nonlinear_arith)
        requires
            0 <= i < rows,
            0 <= j < cols,
    ;
}

proof fn lemma_earlier_column(rows: int, i: int, j: int, jj: int)
    requires
        0 <= i < rows,
        0 <= jj < j,
    ensures
        0 <= jj * rows + i < j * rows,
{
    assert(0 <= jj * rows + i < j * rows) by (nonlinear_arith)
        requires
            0 <= i < rows,
            0 <= jj < j,
    ;
}

impl<T> Matrix<T> {
    #[verifier::type_invariant]
    spec fn inv(self) -> bool {
        &&& self.rows <= u32::MAX
        &&& self.cols <= u32::MAX
        &&& self.rows * self.cols == self.cells@.len()
    }

    pub closed spec fn num_rows(&self) -> nat {
        self.rows as nat
    }

    pub closed spec fn num_cols(&self) -> nat {
        self.cols as nat
    }

    /// The buffer as the boundary receives it.
    pub closed spec fn column_major(&self) -> Seq<T> {
        self.cells@
    }

    /// The cell in row `i` and column `j`.
    pub open spec fn at(&self, i: int, j: int) -> T {
        column_major_cell(self.column_major(), self.num_rows() as int, i, j)
    }

    pub fn rows(&self) -> (r: usize)
        ensures
            r == self.num_rows(),
            r <= u32::MAX,
    {
        proof {
            use_type_invariant(self);
        }
        self.rows
    }

    pub fn cols(&self) -> (r: usize)
        ensures
            r == self.num_cols(),
            r <= u32::MAX,
    {
        proof {
            use_type_invariant(self);
        }
        self.cols
    }

    /// The column-major buffer.
    pub fn cells(&self) -> (r: &Vec<T>)
        ensures
            r@ == self.column_major(),
            r@.len() == self.num_rows() * self.num_cols(),
    {
        proof {
            use_type_invariant(self);
        }
        &self.cells
    }
}

impl<T: Element> Matrix<T> {
    /// Builds a matrix from its cells listed row by row, as they are written
    /// down (`[[1, 2, 3], [4, 5, 6]]` is `1, 2, 3, 4, 5, 6` with two rows and
    /// three columns).
    pub fn from_row_major(rows: usize, cols: usize, cells: &Vec<T>) -> (r: Result<
        Matrix<T>,
        ShapeError,
    >)
        ensures
            match r {
                Ok(m) => {
                    &&& rows <= u32::MAX && cols <= u32::MAX
                    &&& rows * cols == cells@.len()
                    &&& m.num_rows() == rows
                    &&& m.num_cols() == cols
                    &&& m.column_major().len() == rows * cols
                    &&& forall|i: int, j: int|
                        0 <= i < rows && 0 <= j < cols ==> #[trigger] m.at(i, j)
                            == row_major_cell(cells@, cols as int, i, j)
                },
                Err(ShapeError::DimensionTooLarge) => rows > u32::MAX || cols > u32::MAX,
                Err(ShapeError::CellCount) => {
                    &&& rows <= u32::MAX && cols <= u32::MAX
                    &&& rows * cols != cells@.len()
                },
            },
    {
        if rows > u32::MAX as usize || cols > u32::MAX as usize {
            return Err(ShapeError::DimensionTooLarge);
        }
        let count = cells.len();
        match rows.checked_mul(cols) {
            None => {
                return Err(ShapeError::CellCount);
            },
            Some(n) => {
                if n != count {
                    return Err(ShapeError::CellCount);
                }
            },
        }
        let mut out: Vec<T> = Vec::new();
        let mut j: usize = 0;
        while j < cols
            invariant
                rows * cols == cells@.len(),
                rows * cols <= usize::MAX,
                j <= cols,
                out@.len() == j * rows,
                forall|ii: int, jj: int|
                    0 <= ii < rows && 0 <= jj < j ==> #[trigger] column_major_cell(
                        out@,
                        rows as int,
                        ii,
                        jj,
                    ) == row_major_cell(cells@, cols as int, ii, jj),
            decreases cols - j,
        {
            let mut i: usize = 0;
            while i < rows
                invariant
                    rows * cols == cells@.len(),
                    rows * cols <= usize::MAX,
                    j < cols,
                    i <= rows,
                    out@.len() == j * rows + i,
                    forall|ii: int, jj: int|
                        0 <= ii < rows && 0 <= jj < j ==> #[trigger] column_major_cell(
                            out@,
                            rows as int,
                            ii,
                            jj,
                        ) == row_major_cell(cells@, cols as int, ii, jj),
                    forall|ii: int|
                        0 <= ii < i ==> #[trigger] column_major_cell(out@, rows as int, ii, j as int)
                            == row_major_cell(cells@, cols as int, ii, j as int),
                decreases rows - i,
            {
                proof {
                    lemma_cell_index(rows as int, cols as int, i as int, j as int);
                }
                let ghost before = out@;
                out.push(cells[i * cols + j]);
                proof {
                    assert forall|ii: int, jj: int|
                        0 <= ii < rows && 0 <= jj < j implies #[trigger] column_major_cell(
                            out@,
                            rows as int,
                            ii,
                            jj,
                        ) == row_major_cell(cells@, cols as int, ii, jj) by {
                        lemma_earlier_column(rows as int, ii, j as int, jj);
                        assert(column_major_cell(out@, rows as int, ii, jj) == column_major_cell(
                            before,
                            rows as int,
                            ii,
                            jj,
                        ));
                    }
                    assert forall|ii: int|
                        0 <= ii < i + 1 implies #[trigger] column_major_cell(
                            out@,
                            rows as int,
                            ii,
                            j as int,
                        ) == row_major_cell(cells@, cols as int, ii, j as int) by {
                        if ii < i {
                            assert(column_major_cell(out@, rows as int, ii, j as int)
                                == column_major_cell(before, rows as int, ii, j as int));
                        }
                    }
                }
                i = i + 1;
            }
            proof {
                assert(out@.len() == (j + 1) * rows) by (nonlinear_arith)
                    requires
                        out@.len() == j * rows + rows,
                ;
            }
            j = j + 1;
        }
        assert(out@.len() == rows * cols) by (nonlinear_arith)
            requires
                out@.len() == j * rows,
                j == cols,
        ;
        let m = Matrix { rows, cols, cells: out };
        assert forall|i: int, j: int| 0 <= i < rows && 0 <= j < cols implies #[trigger] m.at(i, j)
            == row_major_cell(cells@, cols as int, i, j) by {
            assert(m.at(i, j) == column_major_cell(out@, rows as int, i, j));
        }
        Ok(m)
    }

    /// The header that goes with the buffer: the element type's code and the
    /// two dimensions.
    pub fn header(&self, codes: &TypeCodes) -> (h: ArrayHeader)
        ensures
            h.type_code == codes.spec_code(TypeTag::Primitive(T::spec_kind())),
            h.rows == self.num_rows(),
            h.cols == self.num_cols(),
    {
        proof {
            use_type_invariant(self);
        }
        ArrayHeader {
            type_code: codes.code(TypeTag::Primitive(T::kind())),
            rows: self.rows as u32,
            cols: self.cols as u32,
        }
    }
}

} // verus!
