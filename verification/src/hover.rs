//! Hover pass: per-tick hit-testing of the pointer against the grid
//! cells, restyling exactly the cells whose hover state changed.

use vstd::prelude::*;
use vstd::arithmetic::div_mod::{lemma_fundamental_div_mod, lemma_mod_pos_bound};
use crate::grid::{
    GridCell,
    GridError,
    grid_layout,
    grid_dims_bounded,
    grid_cell_at,
    cell_center_x2,
    cell_center_y2,
    is_grid_layout,
};

verus! {

/// The fill colour of a cell sprite; `Highlight` marks the hovered cell.
#[derive(Clone, Copy, Debug, PartialEq, Eq, Structural)]
pub enum CellColor {
    Base,
    Highlight,
}

/// A cell together with its current sprite colour.
#[derive(Clone, Copy, Debug, PartialEq, Eq, Structural)]
pub struct CellSprite {
    pub cell: GridCell,
    pub color: CellColor,
}

/// A pointer position in world space, in half units (twice the world
/// coordinates, the same scale as cell centres).
#[derive(Clone, Copy, Debug, PartialEq, Eq, Structural)]
pub struct PointerPos {
    pub x2: i64,
    pub y2: i64,
}

/// One visual write the hover pass emits: repaint the cell `id` with
/// `color`.
#[derive(Clone, Copy, Debug, PartialEq, Eq, Structural)]
pub struct Restyle {
    pub id: u16,
    pub color: CellColor,
}

/// The pointer lies strictly inside the bounding box of `cell`, a square
/// of side `cell_size` (in world units; the box spans `cell_size` half
/// units either side of the centre).
pub open spec fn pointer_over(cell: GridCell, cell_size: int, p: PointerPos) -> bool {
    &&& p.x2 > cell.x2 - cell_size
    &&& p.x2 < cell.x2 + cell_size
    &&& p.y2 > cell.y2 - cell_size
    &&& p.y2 < cell.y2 + cell_size
}

/// The colour a cell must show this pass: highlighted exactly when the
/// pointer is present and strictly inside its bounding box; an absent
/// pointer reverts every cell to the base colour.
pub open spec fn hover_color(cell: GridCell, cell_size: int, pointer: Option<PointerPos>) -> CellColor {
    match pointer {
        Some(p) => if pointer_over(cell, cell_size, p) {
            CellColor::Highlight
        } else {
            CellColor::Base
        },
        None => CellColor::Base,
    }
}

/// The visual writes owed for `cells`: one per cell whose current colour
/// differs from the colour this pass assigns, in cell order.
pub open spec fn restyle_seq(
    cells: Seq<CellSprite>,
    cell_size: int,
    pointer: Option<PointerPos>,
) -> Seq<Restyle>
    decreases cells.len(),
{
    if cells.len() == 0 {
        Seq::empty()
    } else {
        let c = cells.last();
        let prefix = restyle_seq(cells.drop_last(), cell_size, pointer);
        if c.color != hover_color(c.cell, cell_size, pointer) {
            prefix.push(Restyle { id: c.cell.id, color: hover_color(c.cell, cell_size, pointer) })
        } else {
            prefix
        }
    }
}

/// Coordinates small enough that widening a bounding box by `cell_size`
/// stays within `i64`.
pub open spec fn sprite_coords_bounded(cells: Seq<CellSprite>) -> bool {
    forall|k: int|
        0 <= k < cells.len() ==> {
            &&& -0x4000_0000_0000_0000 <= (#[trigger] cells[k]).cell.x2 <= 0x4000_0000_0000_0000
            &&& -0x4000_0000_0000_0000 <= cells[k].cell.y2 <= 0x4000_0000_0000_0000
        }
}

/// Creates the sprite of a freshly laid-out cell, showing the base
/// colour.
pub fn render_cell(cell: GridCell) -> (r: CellSprite)
    ensures
        r == (CellSprite { cell, color: CellColor::Base }),
{
    CellSprite { cell, color: CellColor::Base }
}

/// Lays out a `cols × rows` grid and renders every cell with the base
/// colour, in row-major order.
pub fn spawn_grid(cols: usize, rows: usize, cell_size: i64, padding: i64) -> (r: Result<
    Vec<CellSprite>,
    GridError,
>)
    requires
        grid_dims_bounded(cols as int, rows as int, cell_size as int, padding as int),
    ensures
        cell_size < 0 ==> r == Err::<Vec<CellSprite>, GridError>(GridError::NegativeCellSize),
        cell_size >= 0 && padding < 0 ==> r == Err::<Vec<CellSprite>, GridError>(
            GridError::NegativePadding,
        ),
        cell_size >= 0 && padding >= 0 ==> (r matches Ok(sprites) && {
            &&& is_grid_layout(
                sprites@.map_values(|s: CellSprite| s.cell),
                cols as int,
                rows as int,
                cell_size as int,
                padding as int,
            )
            &&& forall|k: int|
                0 <= k < sprites@.len() ==> (#[trigger] sprites@[k]).color == CellColor::Base
        }),
{
    let cells = match grid_layout(cols, rows, cell_size, padding) {
        Ok(cells) => cells,
        Err(e) => {
            return Err(e);
        },
    };
    let mut sprites: Vec<CellSprite> = Vec::new();
    let mut i: usize = 0;
    while i < cells.len()
        invariant
            i <= cells@.len(),
            sprites@.len() == i,
            forall|k: int|
                0 <= k < i ==> #[trigger] sprites@[k] == (CellSprite {
                    cell: cells@[k],
                    color: CellColor::Base,
                }),
        decreases cells@.len() - i,
    {
        let s = render_cell(cells[i]);
        sprites.push(s);
        i = i + 1;
    }
    proof {
        assert(sprites@.map_values(|s: CellSprite| s.cell) =~= cells@);
    }
    Ok(sprites)
}

/// One hover pass: samples the pointer against every cell and repaints a
/// cell only when its colour actually differs, returning the emitted
/// writes in cell order.  An absent pointer counts as hovering nothing.
pub fn handle_mouse_hover(
    cells: &mut Vec<CellSprite>,
    pointer: Option<PointerPos>,
    cell_size: i64,
) -> (restyles: Vec<Restyle>)
    requires
        0 <= cell_size <= 0x4000_0000,
        sprite_coords_bounded(old(cells)@),
    ensures
        final(cells)@.len() == old(cells)@.len(),
        forall|k: int|
            0 <= k < old(cells)@.len() ==> (#[trigger] final(cells)@[k]).cell == old(
                cells,
            )@[k].cell,
        forall|k: int|
            0 <= k < old(cells)@.len() ==> (#[trigger] final(cells)@[k]).color == hover_color(
                old(cells)@[k].cell,
                cell_size as int,
                pointer,
            ),
        restyles@ == restyle_seq(old(cells)@, cell_size as int, pointer),
{
    let mut restyles: Vec<Restyle> = Vec::new();
    let n = cells.len();
    let mut i: usize = 0;
    while i < n
        invariant
            n == old(cells)@.len(),
            i <= n,
            0 <= cell_size <= 0x4000_0000,
            sprite_coords_bounded(old(cells)@),
            cells@.len() == n,
            forall|k: int|
                i <= k < n ==> #[trigger] cells@[k] == old(cells)@[k],
            forall|k: int|
                0 <= k < i ==> (#[trigger] cells@[k]).cell == old(cells)@[k].cell,
            forall|k: int|
                0 <= k < i ==> (#[trigger] cells@[k]).color == hover_color(
                    old(cells)@[k].cell,
                    cell_size as int,
                    pointer,
                ),
            restyles@ == restyle_seq(old(cells)@.take(i as int), cell_size as int, pointer),
        decreases n - i,
    {
        let sprite = cells[i];
        let target: CellColor = match pointer {
            Some(p) => {
                let over = p.x2 > sprite.cell.x2 - cell_size && p.x2 < sprite.cell.x2 + cell_size
                    && p.y2 > sprite.cell.y2 - cell_size && p.y2 < sprite.cell.y2 + cell_size;
                if over {
                    CellColor::Highlight
                } else {
                    CellColor::Base
                }
            },
            None => CellColor::Base,
        };
        if sprite.color != target {
            let mut updated = sprite;
            updated.color = target;
            cells[i] = updated;
            restyles.push(Restyle { id: sprite.cell.id, color: target });
        }
        proof {
            assert(old(cells)@.take(i + 1).drop_last() =~= old(cells)@.take(i as int));
            assert(old(cells)@.take(i + 1).last() == old(cells)@[i as int]);
        }
        i = i + 1;
    }
    proof {
        assert(old(cells)@.take(n as int) =~= old(cells)@);
    }
    restyles
}

/// How many cells report hovered this pass.
pub open spec fn hover_count(
    cells: Seq<CellSprite>,
    cell_size: int,
    pointer: Option<PointerPos>,
) -> nat
    decreases cells.len(),
{
    if cells.len() == 0 {
        0
    } else {
        hover_count(cells.drop_last(), cell_size, pointer) + if hover_color(
            cells.last().cell,
            cell_size,
            pointer,
        ) == CellColor::Highlight {
            1nat
        } else {
            0nat
        }
    }
}

/// A pointer outside every cell's bounding box — or no pointer at all —
/// makes zero cells report hovered.
pub proof fn lemma_no_hover(cells: Seq<CellSprite>, cell_size: int, pointer: Option<PointerPos>)
    requires
        pointer matches Some(p) ==> forall|k: int|
            0 <= k < cells.len() ==> !pointer_over((#[trigger] cells[k]).cell, cell_size, p),
    ensures
        hover_count(cells, cell_size, pointer) == 0,
    decreases cells.len(),
{
    if cells.len() > 0 {
        assert forall|k: int| 0 <= k < cells.drop_last().len() implies #[trigger] cells.drop_last()[k]
            == cells[k] by {}
        lemma_no_hover(cells.drop_last(), cell_size, pointer);
    }
}

/// A pointer strictly inside the box of cell `i` and outside every other
/// cell's box makes exactly one cell report hovered.
pub proof fn lemma_unique_hover(cells: Seq<CellSprite>, cell_size: int, p: PointerPos, i: int)
    requires
        0 <= i < cells.len(),
        pointer_over(cells[i].cell, cell_size, p),
        forall|k: int|
            0 <= k < cells.len() && k != i ==> !pointer_over(
                (#[trigger] cells[k]).cell,
                cell_size,
                p,
            ),
    ensures
        hover_count(cells, cell_size, Some(p)) == 1,
    decreases cells.len(),
{
    assert forall|k: int| 0 <= k < cells.drop_last().len() implies #[trigger] cells.drop_last()[k]
        == cells[k] by {}
    if i == cells.len() - 1 {
        lemma_no_hover(cells.drop_last(), cell_size, Some(p));
    } else {
        lemma_unique_hover(cells.drop_last(), cell_size, p, i);
    }
}

/// In a laid-out grid with non-negative cell size and padding the cells'
/// bounding boxes are pairwise disjoint: a pointer strictly inside one
/// box lies outside every other.
pub proof fn lemma_grid_boxes_disjoint(
    cols: int,
    rows: int,
    cell_size: int,
    padding: int,
    ka: int,
    kb: int,
    p: PointerPos,
)
    requires
        grid_dims_bounded(cols, rows, cell_size, padding),
        0 <= cell_size,
        0 <= padding,
        0 <= ka < cols * rows,
        0 <= kb < cols * rows,
        ka != kb,
        pointer_over(grid_cell_at(cols, rows, cell_size, padding, ka), cell_size, p),
    ensures
        !pointer_over(grid_cell_at(cols, rows, cell_size, padding, kb), cell_size, p),
{
    let s = cell_size + padding;
    assert(cols > 0 && rows > 0) by (nonlinear_arith)
        requires
            0 <= ka < cols * rows,
            0 <= cols,
            0 <= rows,
    ;
    let ca = ka % cols;
    let ra = ka / cols;
    let cb = kb % cols;
    let rb = kb / cols;
    lemma_fundamental_div_mod(ka, cols);
    lemma_fundamental_div_mod(kb, cols);
    lemma_mod_pos_bound(ka, cols);
    lemma_mod_pos_bound(kb, cols);
    assert(0 <= ra < rows && 0 <= rb < rows) by (nonlinear_arith)
        requires
            ka == cols * ra + ca,
            kb == cols * rb + cb,
            0 <= ca < cols,
            0 <= cb < cols,
            0 <= ka < cols * rows,
            0 <= kb < cols * rows,
            cols > 0,
            rows > 0,
    ;
    let xa = cell_center_x2(cols, cell_size, padding, ca);
    let xb = cell_center_x2(cols, cell_size, padding, cb);
    let ya = cell_center_y2(rows, cell_size, padding, ra);
    let yb = cell_center_y2(rows, cell_size, padding, rb);
    assert(-0x2_0000_0000_0000 <= xa <= 0x2_0000_0000_0000 && -0x2_0000_0000_0000 <= xb
        <= 0x2_0000_0000_0000 && -0x2_0000_0000_0000 <= ya <= 0x2_0000_0000_0000
        && -0x2_0000_0000_0000 <= yb <= 0x2_0000_0000_0000) by (nonlinear_arith)
        requires
            xa == s * (2 * ca + 1 - cols),
            xb == s * (2 * cb + 1 - cols),
            ya == s * (rows - 1 - 2 * ra),
            yb == s * (rows - 1 - 2 * rb),
            0 <= s <= 0x8000_0000,
            0 <= ca < cols <= 0x1_0000,
            0 <= cb < cols <= 0x1_0000,
            0 <= ra < rows <= 0x1_0000,
            0 <= rb < rows <= 0x1_0000,
    ;
    if ca != cb {
        assert(p.x2 <= xb - cell_size || p.x2 >= xb + cell_size) by (nonlinear_arith)
            requires
                xa == s * (2 * ca + 1 - cols),
                xb == s * (2 * cb + 1 - cols),
                ca != cb,
                0 <= cell_size <= s,
                xa - cell_size < p.x2 < xa + cell_size,
        ;
    } else {
        assert(ra != rb);
        assert(p.y2 <= yb - cell_size || p.y2 >= yb + cell_size) by (nonlinear_arith)
            requires
                ya == s * (rows - 1 - 2 * ra),
                yb == s * (rows - 1 - 2 * rb),
                ra != rb,
                0 <= cell_size <= s,
                ya - cell_size < p.y2 < ya + cell_size,
        ;
    }
}

/// A laid-out grid's coordinates satisfy the hover pass's machine
/// bounds: every centre is the bounded product of the step and a factor
/// below the dimension caps.
pub proof fn lemma_grid_sprites_bounded(
    sprites: Seq<CellSprite>,
    cols: int,
    rows: int,
    cell_size: int,
    padding: int,
)
    requires
        grid_dims_bounded(cols, rows, cell_size, padding),
        0 <= cell_size,
        0 <= padding,
        is_grid_layout(sprites.map_values(|s: CellSprite| s.cell), cols, rows, cell_size, padding),
    ensures
        sprite_coords_bounded(sprites),
{
    let cells = sprites.map_values(|s: CellSprite| s.cell);
    let s = cell_size + padding;
    assert forall|k: int| 0 <= k < sprites.len() implies {
        &&& -0x4000_0000_0000_0000 <= (#[trigger] sprites[k]).cell.x2 <= 0x4000_0000_0000_0000
        &&& -0x4000_0000_0000_0000 <= sprites[k].cell.y2 <= 0x4000_0000_0000_0000
    } by {
        assert(cols > 0 && rows > 0) by (nonlinear_arith)
            requires
                0 <= k < cols * rows,
                0 <= cols,
                0 <= rows,
        ;
        let c = k % cols;
        let r = k / cols;
        lemma_fundamental_div_mod(k, cols);
        lemma_mod_pos_bound(k, cols);
        assert(0 <= r < rows) by (nonlinear_arith)
            requires
                k == cols * r + c,
                0 <= c < cols,
                0 <= k < cols * rows,
                cols > 0,
                rows > 0,
        ;
        assert(cells[k] == grid_cell_at(cols, rows, cell_size, padding, k));
        let xk = cell_center_x2(cols, cell_size, padding, c);
        let yk = cell_center_y2(rows, cell_size, padding, r);
        assert(-0x2_0000_0000_0000 <= xk <= 0x2_0000_0000_0000 && -0x2_0000_0000_0000 <= yk
            <= 0x2_0000_0000_0000) by (nonlinear_arith)
            requires
                xk == s * (2 * c + 1 - cols),
                yk == s * (rows - 1 - 2 * r),
                0 <= s <= 0x8000_0000,
                0 <= c < cols <= 0x1_0000,
                0 <= r < rows <= 0x1_0000,
        ;
    }
}

/// A pointer strictly inside the box of one cell of a laid-out grid
/// makes exactly one cell report hovered: the grid's construction keeps
/// the boxes disjoint, so the one hit is the only hit.
pub proof fn lemma_grid_unique_hover(
    sprites: Seq<CellSprite>,
    cols: int,
    rows: int,
    cell_size: int,
    padding: int,
    p: PointerPos,
    i: int,
)
    requires
        grid_dims_bounded(cols, rows, cell_size, padding),
        0 <= cell_size,
        0 <= padding,
        is_grid_layout(sprites.map_values(|s: CellSprite| s.cell), cols, rows, cell_size, padding),
        0 <= i < sprites.len(),
        pointer_over(sprites[i].cell, cell_size, p),
    ensures
        hover_count(sprites, cell_size, Some(p)) == 1,
{
    let cells = sprites.map_values(|s: CellSprite| s.cell);
    assert forall|k: int| 0 <= k < sprites.len() && k != i implies !pointer_over(
        (#[trigger] sprites[k]).cell,
        cell_size,
        p,
    ) by {
        assert(cells[k] == grid_cell_at(cols, rows, cell_size, padding, k));
        assert(cells[i] == grid_cell_at(cols, rows, cell_size, padding, i));
        lemma_grid_boxes_disjoint(cols, rows, cell_size, padding, i, k, p);
    }
    lemma_unique_hover(sprites, cell_size, p, i);
}

} // verus!
