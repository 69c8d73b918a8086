use vstd::prelude::*;

use crate::tile::Coord;
use crate::tile::Tile;

verus! {

/// Declaration of the outside 2D-array type, so that values of it can stand
/// in fields and signatures. Its inside stays opaque; what it holds is
/// described by `grid_data` and `grid_cols` below.
#[verifier::external_type_specification]
#[verifier::external_body]
#[verifier::reject_recursive_types(T)]
pub struct ExGrid<T>(grid::Grid<T>);

/// The cells a grid holds, read row by row (its logical row-major contents).
pub uninterp spec fn grid_data(g: grid::Grid<Option<Tile>>) -> Seq<Option<Tile>>;

/// The column count a grid was built with.
pub uninterp spec fn grid_cols(g: grid::Grid<Option<Tile>>) -> nat;

/// Relies on grid::Grid::from_vec: builds a row-major grid holding exactly
/// the cells of `v`, with `cols` columns. The call panics when the vector
/// length is not a nonzero multiple of `cols`, so those inputs are excluded.
#[verifier::external_body]
fn grid_from_vec(v: Vec<Option<Tile>>, cols: usize) -> (g: grid::Grid<Option<Tile>>)
    requires
        cols > 0,
        v@.len() > 0,
        v@.len() % (cols as nat) == 0,
    ensures
        grid_data(g) == v@,
        grid_cols(g) == cols as nat,
{
    grid::Grid::from_vec(v, cols)
}

/// Relies on grid::Grid::size: returns the stored (rows, columns) pair. The
/// crate keeps the cell count equal to rows * columns in every grid it builds.
#[verifier::external_body]
fn grid_dims(g: &grid::Grid<Option<Tile>>) -> (r: (usize, usize))
    ensures
        (r.0 as nat) * (r.1 as nat) == grid_data(*g).len(),
        r.1 as nat == grid_cols(*g),
{
    g.size()
}

/// Relies on grid::Grid::get: looks a cell up by (row, column) and returns
/// None exactly outside the stored bounds. The cell itself is cloned out.
#[verifier::external_body]
fn grid_get_cell(g: &grid::Grid<Option<Tile>>, row: usize, col: usize) -> (r: Option<
    Option<Tile>,
>)
    requires
        grid_cols(*g) > 0,
        grid_data(*g).len() % grid_cols(*g) == 0,
    ensures
        r == (if (row as nat) < grid_data(*g).len() / grid_cols(*g) && (col as nat) < grid_cols(
            *g,
        ) {
            Some(grid_data(*g)[row as int * grid_cols(*g) + col as int])
        } else {
            None::<Option<Tile>>
        }),
{
    match g.get(row, col) {
        Some(cell) => Some(cell.clone()),
        None => None,
    }
}

/// Relies on grid::Grid::get_mut (in-bounds lookup of a cell slot) and
/// Option::take: moves the cell's content out, leaving the cell empty.
#[verifier::external_body]
fn grid_take_cell(g: &mut grid::Grid<Option<Tile>>, row: usize, col: usize) -> (r: Option<Tile>)
    requires
        grid_cols(*old(g)) > 0,
        grid_data(*old(g)).len() % grid_cols(*old(g)) == 0,
        (row as nat) < grid_data(*old(g)).len() / grid_cols(*old(g)),
        (col as nat) < grid_cols(*old(g)),
    ensures
        r == grid_data(*old(g))[row as int * grid_cols(*old(g)) + col as int],
        grid_data(*final(g)) == grid_data(*old(g)).update(
            row as int * grid_cols(*old(g)) + col as int,
            None::<Tile>,
        ),
        grid_cols(*final(g)) == grid_cols(*old(g)),
{
    match g.get_mut(row, col) {
        Some(cell) => cell.take(),
        None => None,
    }
}

/// Relies on grid::Grid::get_mut: overwrites one in-bounds cell with `v`.
#[verifier::external_body]
fn grid_set_cell(g: &mut grid::Grid<Option<Tile>>, row: usize, col: usize, v: Option<Tile>)
    requires
        grid_cols(*old(g)) > 0,
        grid_data(*old(g)).len() % grid_cols(*old(g)) == 0,
        (row as nat) < grid_data(*old(g)).len() / grid_cols(*old(g)),
        (col as nat) < grid_cols(*old(g)),
    ensures
        grid_data(*final(g)) == grid_data(*old(g)).update(
            row as int * grid_cols(*old(g)) + col as int,
            v,
        ),
        grid_cols(*final(g)) == grid_cols(*old(g)),
{
    if let Some(cell) = g.get_mut(row, col) {
        *cell = v;
    }
}

/// How an out-of-contract grid access is reported instead of panicking.
#[derive(Clone, Copy, Debug, PartialEq, Eq, Structural)]
pub enum GridError {
    /// The addressed coordinate lies outside the grid.
    OutOfBounds,
    /// A tile was to be placed on a cell that already holds one.
    Occupied,
}

/// In a grid with `cols` columns, the row-major position of coordinate `c`.
pub open spec fn row_major_index(c: Coord, cols: nat) -> int {
    c.row * cols + c.col
}

/// A row-major position below rows * cols stays inside the cell sequence.
pub proof fn lemma_row_major_index_bounds(c: Coord, rows: nat, cols: nat)
    requires
        c.row < rows,
        c.col < cols,
    ensures
        0 <= row_major_index(c, cols) < rows * cols,
{
    assert(c.row * cols + c.col < rows * cols) by (nonlinear_arith)
        requires
            c.row < rows,
            c.col < cols,
    ;
}

/// Distinct in-bounds coordinates have distinct row-major positions.
pub proof fn lemma_row_major_index_injective(a: Coord, b: Coord, cols: nat)
    requires
        a.col < cols,
        b.col < cols,
        a != b,
    ensures
        row_major_index(a, cols) != row_major_index(b, cols),
{
    assert(a.row * cols + a.col != b.row * cols + b.col) by (nonlinear_arith)
        requires
            a.col < cols,
            b.col < cols,
            !(a.row == b.row && a.col == b.col),
    ;
}

/// A rows x columns array of optional tiles, addressed by (row, column)
/// coordinates. Exactly which cells hold tiles is up to its owner; this type
/// only guarantees shape and cell addressing.
pub struct TileGrid {
    cells: grid::Grid<Option<Tile>>,
}

impl TileGrid {
    /// The cells, row by row.
    pub closed spec fn contents(self) -> Seq<Option<Tile>> {
        grid_data(self.cells)
    }

    /// The number of columns.
    pub closed spec fn spec_cols(self) -> nat {
        grid_cols(self.cells)
    }

    /// The number of rows.
    pub open spec fn spec_rows(self) -> nat {
        self.contents().len() / self.spec_cols()
    }

    /// Well-formed: at least one cell, and the cells fill whole rows.
    pub open spec fn wf(self) -> bool {
        &&& self.spec_cols() > 0
        &&& self.contents().len() > 0
        &&& self.contents().len() % self.spec_cols() == 0
    }

    pub open spec fn in_bounds(self, c: Coord) -> bool {
        c.row < self.spec_rows() && c.col < self.spec_cols()
    }

    /// The cell at coordinate `c`.
    pub open spec fn cell(self, c: Coord) -> Option<Tile>
        recommends
            self.wf(),
            self.in_bounds(c),
    {
        self.contents()[row_major_index(c, self.spec_cols())]
    }

    /// Builds a grid from its row-major cells and a column count.
    pub fn from_vec(v: Vec<Option<Tile>>, cols: usize) -> (g: TileGrid)
        requires
            cols > 0,
            v@.len() > 0,
            v@.len() % (cols as nat) == 0,
        ensures
            g.wf(),
            g.contents() == v@,
            g.spec_cols() == cols as nat,
    {
        TileGrid { cells: grid_from_vec(v, cols) }
    }

    /// The (rows, columns) pair of this grid.
    pub fn size(&self) -> (r: (usize, usize))
        requires
            self.wf(),
        ensures
            r.0 as nat == self.spec_rows(),
            r.1 as nat == self.spec_cols(),
            (r.0 as nat) * (r.1 as nat) == self.contents().len(),
            r.0 > 0,
            r.1 > 0,
    {
        let r = grid_dims(&self.cells);
        proof {
            lemma_rows_from_dims(r.0 as nat, r.1 as nat, self.contents().len());
        }
        r
    }

    /// Reads the cell at `c`; yields None exactly when `c` is out of bounds.
    /// Every in-bounds coordinate is readable, also the one holding no tile.
    pub fn get(&self, c: Coord) -> (r: Option<Option<Tile>>)
        requires
            self.wf(),
        ensures
            r == (if self.in_bounds(c) {
                Some(self.cell(c))
            } else {
                None::<Option<Tile>>
            }),
    {
        grid_get_cell(&self.cells, c.row, c.col)
    }

    /// Removes and returns the content of the cell at `c`, leaving it empty;
    /// rejects only out-of-bounds coordinates.
    pub fn take(&mut self, c: Coord) -> (r: Result<Option<Tile>, GridError>)
        requires
            old(self).wf(),
        ensures
            final(self).wf(),
            final(self).spec_cols() == old(self).spec_cols(),
            final(self).spec_rows() == old(self).spec_rows(),
            old(self).in_bounds(c) ==> (r == Ok::<Option<Tile>, GridError>(old(self).cell(c))
                && final(self).contents() == old(self).contents().update(
                row_major_index(c, old(self).spec_cols()),
                None::<Tile>,
            )),
            !old(self).in_bounds(c) ==> (r == Err::<Option<Tile>, GridError>(GridError::OutOfBounds)
                && final(self).contents() == old(self).contents()),
    {
        let (rows, cols) = self.size();
        if c.row < rows && c.col < cols {
            proof {
                lemma_row_major_index_bounds(c, rows as nat, cols as nat);
            }
            Ok(grid_take_cell(&mut self.cells, c.row, c.col))
        } else {
            Err(GridError::OutOfBounds)
        }
    }

    /// Places `t` on the cell at `c`. Rejects out-of-bounds coordinates and
    /// cells that already hold a tile; succeeds exactly otherwise.
    pub fn put(&mut self, c: Coord, t: Tile) -> (r: Result<(), GridError>)
        requires
            old(self).wf(),
        ensures
            final(self).wf(),
            final(self).spec_cols() == old(self).spec_cols(),
            final(self).spec_rows() == old(self).spec_rows(),
            !old(self).in_bounds(c) ==> (r == Err::<(), GridError>(GridError::OutOfBounds)
                && final(self).contents() == old(self).contents()),
            old(self).in_bounds(c) && old(self).cell(c) is Some ==> (r == Err::<(), GridError>(
                GridError::Occupied,
            ) && final(self).contents() == old(self).contents()),
            old(self).in_bounds(c) && old(self).cell(c) is None ==> (r == Ok::<(), GridError>(())
                && final(self).contents() == old(self).contents().update(
                row_major_index(c, old(self).spec_cols()),
                Some(t),
            )),
    {
        let (rows, cols) = self.size();
        if !(c.row < rows && c.col < cols) {
            return Err(GridError::OutOfBounds);
        }
        proof {
            lemma_row_major_index_bounds(c, rows as nat, cols as nat);
        }
        let current = grid_get_cell(&self.cells, c.row, c.col);
        match current {
            Some(Some(_)) => Err(GridError::Occupied),
            _ => {
                grid_set_cell(&mut self.cells, c.row, c.col, Some(t));
                Ok(())
            },
        }
    }
}

/// With a positive column count and a cell count that is their product,
/// the row count is recovered by division.
pub(crate) proof fn lemma_rows_from_dims(rows: nat, cols: nat, len: nat)
    requires
        rows * cols == len,
        cols > 0,
    ensures
        rows == len / cols,
        len > 0 ==> rows > 0,
{
    assert(rows == (rows * cols) / cols) by (nonlinear_arith)
        requires
            cols > 0,
    ;
    assert(len > 0 ==> rows > 0) by (nonlinear_arith)
        requires
            rows * cols == len,
    ;
}

} // verus!
