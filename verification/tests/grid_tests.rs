use guess_who::{GridError, grid_layout};

#[test]
fn four_by_four_layout_matches_known_positions() {
    let cells = grid_layout(4, 4, 120, 5).unwrap();
    assert_eq!(cells.len(), 16);
    // id 0 sits top-left at world (-187.5, 187.5); coordinates are in
    // half units, so -375 and 375.
    assert_eq!(cells[0].id, 0);
    assert_eq!(cells[0].col, 0);
    assert_eq!(cells[0].row, 0);
    assert_eq!(cells[0].x2, -375);
    assert_eq!(cells[0].y2, 375);
    assert_eq!(cells[0].x2 as f64 / 2.0, -187.5);
    assert_eq!(cells[0].y2 as f64 / 2.0, 187.5);
    // id 15 sits bottom-right at world (187.5, -187.5).
    assert_eq!(cells[15].id, 15);
    assert_eq!(cells[15].col, 3);
    assert_eq!(cells[15].row, 3);
    assert_eq!(cells[15].x2, 375);
    assert_eq!(cells[15].y2, -375);
}

#[test]
fn ids_are_row_major_and_cover_the_grid() {
    let cols = 5;
    let rows = 3;
    let cells = grid_layout(cols, rows, 32, 4).unwrap();
    assert_eq!(cells.len(), cols * rows);
    for (k, cell) in cells.iter().enumerate() {
        assert_eq!(cell.id as usize, k);
        assert_eq!(cell.col, k % cols);
        assert_eq!(cell.row, k / cols);
    }
}

#[test]
fn layout_is_centred_on_the_origin() {
    for (cols, rows, size, pad) in [(4, 4, 120, 5), (5, 3, 32, 4), (1, 1, 10, 0), (2, 7, 9, 3)] {
        let cells = grid_layout(cols, rows, size, pad).unwrap();
        let sx: i64 = cells.iter().map(|c| c.x2).sum();
        let sy: i64 = cells.iter().map(|c| c.y2).sum();
        assert_eq!(sx, 0);
        assert_eq!(sy, 0);
    }
}

#[test]
fn layout_is_deterministic() {
    let a = grid_layout(4, 4, 120, 5).unwrap();
    let b = grid_layout(4, 4, 120, 5).unwrap();
    assert_eq!(a, b);
}

#[test]
fn empty_dimensions_yield_an_empty_layout() {
    assert_eq!(grid_layout(0, 7, 120, 5).unwrap().len(), 0);
    assert_eq!(grid_layout(7, 0, 120, 5).unwrap().len(), 0);
}

#[test]
fn negative_cell_size_is_rejected() {
    assert_eq!(grid_layout(4, 4, -1, 5), Err(GridError::NegativeCellSize));
}

#[test]
fn negative_padding_is_rejected() {
    assert_eq!(grid_layout(4, 4, 120, -1), Err(GridError::NegativePadding));
}

#[test]
fn negative_cell_size_is_reported_before_negative_padding() {
    assert_eq!(grid_layout(4, 4, -3, -1), Err(GridError::NegativeCellSize));
}
