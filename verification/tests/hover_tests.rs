use guess_who::{CellColor, PointerPos, handle_mouse_hover, spawn_grid};

const CELL_SIZE: i64 = 120;
const PADDING: i64 = 5;

#[test]
fn fresh_grid_shows_the_base_colour() {
    let sprites = spawn_grid(4, 4, CELL_SIZE, PADDING).unwrap();
    assert_eq!(sprites.len(), 16);
    for s in &sprites {
        assert_eq!(s.color, CellColor::Base);
    }
}

#[test]
fn pointer_inside_one_cell_hovers_exactly_that_cell() {
    let mut sprites = spawn_grid(4, 4, CELL_SIZE, PADDING).unwrap();
    // Dead centre of cell 0.
    let pointer = PointerPos { x2: sprites[0].cell.x2, y2: sprites[0].cell.y2 };
    let restyles = handle_mouse_hover(&mut sprites, Some(pointer), CELL_SIZE);
    let hovered: Vec<u16> = sprites
        .iter()
        .filter(|s| s.color == CellColor::Highlight)
        .map(|s| s.cell.id)
        .collect();
    assert_eq!(hovered, vec![0]);
    // Only cell 0 changed colour, so only cell 0 is restyled.
    assert_eq!(restyles.len(), 1);
    assert_eq!(restyles[0].id, 0);
    assert_eq!(restyles[0].color, CellColor::Highlight);
}

#[test]
fn pointer_outside_every_cell_hovers_nothing() {
    let mut sprites = spawn_grid(4, 4, CELL_SIZE, PADDING).unwrap();
    let pointer = PointerPos { x2: 100_000, y2: 100_000 };
    let restyles = handle_mouse_hover(&mut sprites, Some(pointer), CELL_SIZE);
    assert!(sprites.iter().all(|s| s.color == CellColor::Base));
    assert_eq!(restyles.len(), 0);
}

#[test]
fn pointer_in_the_padding_between_cells_hovers_nothing() {
    let mut sprites = spawn_grid(4, 4, CELL_SIZE, PADDING).unwrap();
    // Halfway between the centres of cells 0 and 1 lies in the padding.
    let mid_x2 = (sprites[0].cell.x2 + sprites[1].cell.x2) / 2;
    let pointer = PointerPos { x2: mid_x2, y2: sprites[0].cell.y2 };
    handle_mouse_hover(&mut sprites, Some(pointer), CELL_SIZE);
    assert!(sprites.iter().all(|s| s.color == CellColor::Base));
}

#[test]
fn box_edges_do_not_count_as_inside() {
    let mut sprites = spawn_grid(4, 4, CELL_SIZE, PADDING).unwrap();
    // Exactly on the right edge of cell 0's bounding box: the test is
    // strict, so this is outside.
    let pointer = PointerPos { x2: sprites[0].cell.x2 + CELL_SIZE, y2: sprites[0].cell.y2 };
    handle_mouse_hover(&mut sprites, Some(pointer), CELL_SIZE);
    assert!(sprites.iter().all(|s| s.color == CellColor::Base));
}

#[test]
fn absent_pointer_reverts_every_cell() {
    let mut sprites = spawn_grid(4, 4, CELL_SIZE, PADDING).unwrap();
    let pointer = PointerPos { x2: sprites[5].cell.x2, y2: sprites[5].cell.y2 };
    handle_mouse_hover(&mut sprites, Some(pointer), CELL_SIZE);
    assert_eq!(sprites[5].color, CellColor::Highlight);
    let restyles = handle_mouse_hover(&mut sprites, None, CELL_SIZE);
    assert!(sprites.iter().all(|s| s.color == CellColor::Base));
    // Only the formerly hovered cell needed a write.
    assert_eq!(restyles.len(), 1);
    assert_eq!(restyles[0].id, 5);
    assert_eq!(restyles[0].color, CellColor::Base);
}

#[test]
fn unchanged_pass_emits_no_writes() {
    let mut sprites = spawn_grid(4, 4, CELL_SIZE, PADDING).unwrap();
    let pointer = PointerPos { x2: sprites[3].cell.x2 + 1, y2: sprites[3].cell.y2 - 1 };
    let first = handle_mouse_hover(&mut sprites, Some(pointer), CELL_SIZE);
    assert_eq!(first.len(), 1);
    let second = handle_mouse_hover(&mut sprites, Some(pointer), CELL_SIZE);
    assert_eq!(second.len(), 0);
}
