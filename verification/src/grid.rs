//! Grid layout: an ordered rectangular tiling of clickable cells, centred
//! on the world origin.
//!
//! World-space coordinates are kept exact by measuring them in *half
//! units*: the `x2` and `y2` fields of a cell hold twice the world-space
//! coordinate of its centre, so halving a width never loses anything.

use vstd::prelude::*;
use vstd::arithmetic::div_mod::{
    lemma_fundamental_div_mod,
    lemma_fundamental_div_mod_converse,
    lemma_mod_pos_bound,
};

verus! {

/// One tile of the board: a stable identity, its logical column and row,
/// and the world-space position of its centre in half units.
#[derive(Clone, Copy, Debug, PartialEq, Eq, Structural)]
pub struct GridCell {
    /// Row-major index of the cell: `row * cols + col`.
    pub id: u16,
    /// Column index, `0` at the left edge.
    pub col: usize,
    /// Row index, `0` at the top edge.
    pub row: usize,
    /// Centre x-coordinate, in half units (twice the world coordinate).
    pub x2: i64,
    /// Centre y-coordinate, in half units; positive y points up.
    pub y2: i64,
}

/// A configuration the layout rejects.
#[derive(Clone, Copy, Debug, PartialEq, Eq, Structural)]
pub enum GridError {
    NegativeCellSize,
    NegativePadding,
}

/// Centre x-coordinate, in half units, of the cell in column `col` of a
/// grid of `cols` columns centred on the origin: the leftmost centre sits
/// at `-(total_width - cell_size) / 2` and columns advance by
/// `cell_size + padding`.
pub open spec fn cell_center_x2(cols: int, cell_size: int, padding: int, col: int) -> int {
    (cell_size + padding) * (2 * col + 1 - cols)
}

/// Centre y-coordinate, in half units, of the cell in row `row`: row `0`
/// is topmost and rows advance downwards (decreasing y).
pub open spec fn cell_center_y2(rows: int, cell_size: int, padding: int, row: int) -> int {
    (cell_size + padding) * (rows - 1 - 2 * row)
}

/// The cell with row-major index `k` of the layout of a `cols × rows` grid.
pub open spec fn grid_cell_at(
    cols: int,
    rows: int,
    cell_size: int,
    padding: int,
    k: int,
) -> GridCell {
    GridCell {
        id: k as u16,
        col: (k % cols) as usize,
        row: (k / cols) as usize,
        x2: cell_center_x2(cols, cell_size, padding, k % cols) as i64,
        y2: cell_center_y2(rows, cell_size, padding, k / cols) as i64,
    }
}

/// `cells` is exactly the row-major layout of a `cols × rows` grid.
pub open spec fn is_grid_layout(
    cells: Seq<GridCell>,
    cols: int,
    rows: int,
    cell_size: int,
    padding: int,
) -> bool {
    &&& cells.len() == cols * rows
    &&& forall|k: int|
        0 <= k < cells.len() ==> #[trigger] cells[k] == grid_cell_at(
            cols,
            rows,
            cell_size,
            padding,
            k,
        )
}

/// Machine bounds under which every intermediate product of the layout
/// fits in the executable integer types (ids in `u16`, coordinates in
/// `i64`).
pub open spec fn grid_dims_bounded(cols: int, rows: int, cell_size: int, padding: int) -> bool {
    &&& 0 <= cols <= 0x1_0000
    &&& 0 <= rows <= 0x1_0000
    &&& cols * rows <= 0x1_0000
    &&& cell_size <= 0x4000_0000
    &&& padding <= 0x4000_0000
}

/// Builds the ordered sequence of cell placements of a `cols × rows` grid
/// of square cells of side `cell_size`, separated by `padding`, the whole
/// grid centred on the world origin.
///
/// `cols == 0` or `rows == 0` yields an empty layout; a negative cell
/// size or padding is a configuration error.
pub fn grid_layout(cols: usize, rows: usize, cell_size: i64, padding: i64) -> (r: Result<
    Vec<GridCell>,
    GridError,
>)
    requires
        grid_dims_bounded(cols as int, rows as int, cell_size as int, padding as int),
    ensures
        cell_size < 0 ==> r == Err::<Vec<GridCell>, GridError>(GridError::NegativeCellSize),
        cell_size >= 0 && padding < 0 ==> r == Err::<Vec<GridCell>, GridError>(
            GridError::NegativePadding,
        ),
        cell_size >= 0 && padding >= 0 ==> (r matches Ok(cells) && is_grid_layout(
            cells@,
            cols as int,
            rows as int,
            cell_size as int,
            padding as int,
        )),
{
    if cell_size < 0 {
        return Err(GridError::NegativeCellSize);
    }
    if padding < 0 {
        return Err(GridError::NegativePadding);
    }
    let step: i64 = cell_size + padding;
    let mut cells: Vec<GridCell> = Vec::new();
    let mut row: usize = 0;
    while row < rows
        invariant
            grid_dims_bounded(cols as int, rows as int, cell_size as int, padding as int),
            0 <= cell_size,
            0 <= padding,
            step == cell_size + padding,
            row <= rows,
            cells@.len() == row * cols,
            forall|k: int|
                0 <= k < cells@.len() ==> #[trigger] cells@[k] == grid_cell_at(
                    cols as int,
                    rows as int,
                    cell_size as int,
                    padding as int,
                    k,
                ),
        decreases rows - row,
    {
        let mut col: usize = 0;
        while col < cols
            invariant
                grid_dims_bounded(cols as int, rows as int, cell_size as int, padding as int),
                0 <= cell_size,
                0 <= padding,
                step == cell_size + padding,
                row < rows,
                col <= cols,
                cells@.len() == row * cols + col,
                forall|k: int|
                    0 <= k < cells@.len() ==> #[trigger] cells@[k] == grid_cell_at(
                        cols as int,
                        rows as int,
                        cell_size as int,
                        padding as int,
                        k,
                    ),
            decreases cols - col,
        {
            proof {
                assert(row * cols + col < rows * cols && rows * cols <= 0x1_0000)
                    by (nonlinear_arith)
                    requires
                        row < rows,
                        col < cols,
                        0 <= row,
                        0 <= col,
                        cols * rows <= 0x1_0000,
                ;
            }
            let k: usize = cells.len();
            let fx: i64 = 2 * (col as i64) + 1 - (cols as i64);
            let fy: i64 = (rows as i64) - 1 - 2 * (row as i64);
            proof {
                assert(-0x2_0000_0000_0000 <= step * fx <= 0x2_0000_0000_0000 && -0x2_0000_0000_0000
                    <= step * fy <= 0x2_0000_0000_0000) by (nonlinear_arith)
                    requires
                        0 <= step <= 0x8000_0000,
                        -0x2_0001 <= fx <= 0x2_0001,
                        -0x2_0001 <= fy <= 0x2_0001,
                ;
            }
            let x2: i64 = step * fx;
            let y2: i64 = step * fy;
            cells.push(
                GridCell { id: k as u16, col, row, x2, y2 },
            );
            proof {
                lemma_fundamental_div_mod_converse(k as int, cols as int, row as int, col as int);
            }
            col = col + 1;
        }
        proof {
            assert((row + 1) * cols == row * cols + cols) by (nonlinear_arith);
        }
        row = row + 1;
    }
    proof {
        assert(rows * cols == cols * rows) by (nonlinear_arith);
    }
    Ok(cells)
}

/// Sum of the centre x-coordinates of `cells`, in half units.
pub open spec fn sum_x2(cells: Seq<GridCell>) -> int
    decreases cells.len(),
{
    if cells.len() == 0 {
        0
    } else {
        sum_x2(cells.drop_last()) + cells.last().x2
    }
}

/// Sum of the centre y-coordinates of `cells`, in half units.
pub open spec fn sum_y2(cells: Seq<GridCell>) -> int
    decreases cells.len(),
{
    if cells.len() == 0 {
        0
    } else {
        sum_y2(cells.drop_last()) + cells.last().y2
    }
}

proof fn lemma_sum_peel_first(cells: Seq<GridCell>)
    requires
        cells.len() > 0,
    ensures
        sum_x2(cells) == cells[0].x2 + sum_x2(cells.subrange(1, cells.len() as int)),
        sum_y2(cells) == cells[0].y2 + sum_y2(cells.subrange(1, cells.len() as int)),
    decreases cells.len(),
{
    let tail = cells.subrange(1, cells.len() as int);
    if cells.len() == 1 {
        assert(cells.drop_last() =~= Seq::<GridCell>::empty());
        assert(tail =~= Seq::<GridCell>::empty());
    } else {
        lemma_sum_peel_first(cells.drop_last());
        assert(cells.drop_last().subrange(1, cells.drop_last().len() as int) =~= tail.drop_last());
        assert(tail.last() == cells.last());
        assert(cells.drop_last()[0] == cells[0]);
    }
}

/// A sequence whose entries cancel against their mirror images sums to
/// zero on both axes.
proof fn lemma_mirror_sum_zero(cells: Seq<GridCell>)
    requires
        forall|k: int|
            0 <= k < cells.len() ==> {
                &&& (#[trigger] cells[k]).x2 + cells[cells.len() - 1 - k].x2 == 0
                &&& cells[k].y2 + cells[cells.len() - 1 - k].y2 == 0
            },
    ensures
        sum_x2(cells) == 0,
        sum_y2(cells) == 0,
    decreases cells.len(),
{
    if cells.len() == 0 {
    } else if cells.len() == 1 {
        assert(cells[0].x2 + cells[0].x2 == 0);
        assert(cells[0].y2 + cells[0].y2 == 0);
        assert(cells.drop_last() =~= Seq::<GridCell>::empty());
        assert(cells.last() == cells[0]);
        assert(sum_x2(Seq::<GridCell>::empty()) == 0);
        assert(sum_y2(Seq::<GridCell>::empty()) == 0);
        assert(sum_x2(cells) == sum_x2(cells.drop_last()) + cells.last().x2);
        assert(sum_y2(cells) == sum_y2(cells.drop_last()) + cells.last().y2);
    } else {
        let inner = cells.subrange(1, cells.len() - 1);
        lemma_sum_peel_first(cells.drop_last());
        assert(cells.drop_last().subrange(1, cells.drop_last().len() as int) =~= inner);
        assert forall|k: int| 0 <= k < inner.len() implies {
            &&& (#[trigger] inner[k]).x2 + inner[inner.len() - 1 - k].x2 == 0
            &&& inner[k].y2 + inner[inner.len() - 1 - k].y2 == 0
        } by {
            assert(inner[k] == cells[k + 1]);
            assert(inner[inner.len() - 1 - k] == cells[cells.len() - 1 - (k + 1)]);
        }
        lemma_mirror_sum_zero(inner);
        assert(cells[0].x2 + cells[cells.len() - 1].x2 == 0);
        assert(cells.drop_last()[0] == cells[0]);
        assert(cells.last() == cells[cells.len() - 1]);
        assert(sum_x2(cells) == sum_x2(cells.drop_last()) + cells.last().x2);
        assert(sum_x2(cells.drop_last()) == cells[0].x2 + sum_x2(inner));
        assert(sum_x2(inner) == 0);
        assert(sum_y2(cells) == sum_y2(cells.drop_last()) + cells.last().y2);
        assert(sum_y2(cells.drop_last()) == cells[0].y2 + sum_y2(inner));
        assert(sum_y2(inner) == 0);
    }
}

/// A layout's ids are exactly `0 .. cols*rows`, in row-major order: the
/// cell at position `k` carries id `k`, so distinct cells carry distinct
/// ids.
pub proof fn lemma_grid_ids_row_major(
    cells: Seq<GridCell>,
    cols: int,
    rows: int,
    cell_size: int,
    padding: int,
)
    requires
        grid_dims_bounded(cols, rows, cell_size, padding),
        is_grid_layout(cells, cols, rows, cell_size, padding),
    ensures
        forall|k: int| 0 <= k < cells.len() ==> (#[trigger] cells[k]).id == k,
        forall|k1: int, k2: int|
            0 <= k1 < cells.len() && 0 <= k2 < cells.len() && k1 != k2 ==> (#[trigger] cells[k1]).id
                != (#[trigger] cells[k2]).id,
{
    assert forall|k: int| 0 <= k < cells.len() implies (#[trigger] cells[k]).id == k by {
        assert(cells[k] == grid_cell_at(cols, rows, cell_size, padding, k));
        assert(cells.len() == cols * rows <= 0x1_0000);
    }
}

/// The grid is centred on the world origin, exactly: the cell centres of
/// a layout sum to zero on both axes.
pub proof fn lemma_grid_centered(
    cells: Seq<GridCell>,
    cols: int,
    rows: int,
    cell_size: int,
    padding: int,
)
    requires
        grid_dims_bounded(cols, rows, cell_size, padding),
        0 <= cell_size,
        0 <= padding,
        is_grid_layout(cells, cols, rows, cell_size, padding),
    ensures
        sum_x2(cells) == 0,
        sum_y2(cells) == 0,
{
    let s = cell_size + padding;
    let n = cols * rows;
    if cells.len() > 0 {
        assert(cols > 0 && rows > 0) by (nonlinear_arith)
            requires
                0 < cols * rows,
                0 <= cols,
                0 <= rows,
        ;
        assert forall|k: int| 0 <= k < cells.len() implies {
            &&& (#[trigger] cells[k]).x2 + cells[cells.len() - 1 - k].x2 == 0
            &&& cells[k].y2 + cells[cells.len() - 1 - k].y2 == 0
        } by {
            let c = k % cols;
            let r = k / cols;
            lemma_fundamental_div_mod(k, cols);
            lemma_mod_pos_bound(k, cols);
            assert(0 <= r < rows) by (nonlinear_arith)
                requires
                    k == cols * r + c,
                    0 <= c < cols,
                    0 <= k < cols * rows,
                    cols > 0,
                    rows > 0,
            ;
            let k2 = n - 1 - k;
            assert(k2 == (rows - 1 - r) * cols + (cols - 1 - c)) by (nonlinear_arith)
                requires
                    k == cols * r + c,
                    n == cols * rows,
                    k2 == n - 1 - k,
            ;
            lemma_fundamental_div_mod_converse(k2, cols, rows - 1 - r, cols - 1 - c);
            assert(cells[k] == grid_cell_at(cols, rows, cell_size, padding, k));
            assert(cells[k2] == grid_cell_at(cols, rows, cell_size, padding, k2));
            let xk = cell_center_x2(cols, cell_size, padding, c);
            let xk2 = cell_center_x2(cols, cell_size, padding, cols - 1 - c);
            let yk = cell_center_y2(rows, cell_size, padding, r);
            let yk2 = cell_center_y2(rows, cell_size, padding, rows - 1 - r);
            assert(xk + xk2 == 0 && yk + yk2 == 0 && -0x2_0000_0000_0000 <= xk
                <= 0x2_0000_0000_0000 && -0x2_0000_0000_0000 <= xk2 <= 0x2_0000_0000_0000
                && -0x2_0000_0000_0000 <= yk <= 0x2_0000_0000_0000 && -0x2_0000_0000_0000 <= yk2
                <= 0x2_0000_0000_0000) by (nonlinear_arith)
                requires
                    xk == s * (2 * c + 1 - cols),
                    xk2 == s * (2 * (cols - 1 - c) + 1 - cols),
                    yk == s * (rows - 1 - 2 * r),
                    yk2 == s * (rows - 1 - 2 * (rows - 1 - r)),
                    0 <= s <= 0x8000_0000,
                    0 <= c < cols <= 0x1_0000,
                    0 <= r < rows <= 0x1_0000,
            ;
        }
    }
    lemma_mirror_sum_zero(cells);
}

} // verus!
