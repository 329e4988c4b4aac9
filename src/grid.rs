use vstd::prelude::*;
use ndarray::Array2;

verus! {

/// A rectangular array of cell bytes, stored as an `ndarray::Array2<u8>`
/// indexed by `[row, col]`.
#[verifier::external_body]
pub struct Grid {
    cells: Array2<u8>,
}

/// The contents of a grid, row by row.
pub uninterp spec fn grid_cells(g: Grid) -> Seq<Seq<u8>>;

/// The number of columns of a grid, which every row has.
pub uninterp spec fn grid_cols(g: Grid) -> nat;

/// A `rows` by `cols` grid of zeros.
pub open spec fn zero_cells(rows: nat, cols: nat) -> Seq<Seq<u8>> {
    Seq::new(rows, |r: int| Seq::new(cols, |c: int| 0u8))
}

impl Grid {
    /// Relies on `ndarray::Array2::zeros`: an array of the given shape holding
    /// only zeros. It panics when the product of the non-zero axis lengths
    /// exceeds `isize::MAX`.
    #[verifier::external_body]
    pub(crate) fn zeros(rows: usize, cols: usize) -> (g: Grid)
        requires
            rows <= isize::MAX,
            cols <= isize::MAX,
            rows * cols <= isize::MAX,
        ensures
            grid_cells(g) == zero_cells(rows as nat, cols as nat),
            grid_cols(g) == cols,
    {
        Grid { cells: Array2::zeros((rows, cols)) }
    }

    /// Relies on indexing an `ndarray::Array2` by `[row, col]`: it reads that
    /// element, and panics when the index is out of bounds.
    #[verifier::external_body]
    pub(crate) fn get(&self, row: usize, col: usize) -> (v: u8)
        requires
            row < grid_cells(*self).len(),
            col < grid_cells(*self)[row as int].len(),
        ensures
            v == grid_cells(*self)[row as int][col as int],
    {
        self.cells[[row, col]]
    }

    /// Relies on mutable indexing of an `ndarray::Array2` by `[row, col]`: it
    /// overwrites that element alone, and panics when the index is out of
    /// bounds.
    #[verifier::external_body]
    pub(crate) fn set(&mut self, row: usize, col: usize, v: u8)
        requires
            row < grid_cells(*old(self)).len(),
            col < grid_cells(*old(self))[row as int].len(),
        ensures
            grid_cells(*final(self)) == grid_cells(*old(self)).update(
                row as int,
                grid_cells(*old(self))[row as int].update(col as int, v),
            ),
            grid_cols(*final(self)) == grid_cols(*old(self)),
    {
        self.cells[[row, col]] = v;
    }

    /// Relies on `ndarray::ArrayBase::ncols`: the length of the second axis.
    #[verifier::external_body]
    pub(crate) fn ncols(&self) -> (n: usize)
        ensures
            n == grid_cols(*self),
    {
        self.cells.ncols()
    }

    /// The cells of one row, from the first column to the last.
    pub fn row(&self, row: usize) -> (r: Vec<u8>)
        requires
            row < grid_cells(*self).len(),
            grid_cells(*self)[row as int].len() == grid_cols(*self),
        ensures
            r@ == grid_cells(*self)[row as int],
    {
        let width = self.ncols();
        let mut out: Vec<u8> = Vec::new();
        let mut col: usize = 0;
        while col < width
            invariant
                col <= width,
                row < grid_cells(*self).len(),
                width == grid_cells(*self)[row as int].len(),
                out@ == grid_cells(*self)[row as int].subrange(0, col as int),
            decreases width - col,
        {
            out.push(self.get(row, col));
            col = col + 1;
        }
        assert(out@ =~= grid_cells(*self)[row as int]);
        out
    }
}

} // verus!
