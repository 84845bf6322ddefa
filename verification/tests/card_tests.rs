use guess_who::{Card, CardImage, CardVisual, Tint, update_card_visuals};

#[test]
fn new_card_is_face_down_and_in_play() {
    let card = Card::new();
    assert!(!card.is_flipped);
    assert!(!card.is_eliminated);
    assert_eq!(card.visual(), CardVisual { image: CardImage::Back, tint: Tint::White });
}

#[test]
fn flipping_shows_the_face_in_white() {
    let mut card = Card::new();
    card.flip();
    assert!(card.is_flipped);
    assert!(!card.is_eliminated);
    assert_eq!(card.visual(), CardVisual { image: CardImage::Face, tint: Tint::White });
}

#[test]
fn eliminating_a_face_down_card_dims_the_back() {
    let mut card = Card::new();
    card.eliminate();
    assert!(!card.is_flipped);
    assert!(card.is_eliminated);
    assert_eq!(card.visual(), CardVisual { image: CardImage::Back, tint: Tint::Dimmed });
}

#[test]
fn flipping_never_reintroduces_the_dim() {
    let mut card = Card::new();
    card.eliminate();
    card.flip();
    // Face up: white even though the card is eliminated.
    assert_eq!(card.visual(), CardVisual { image: CardImage::Face, tint: Tint::White });
}

#[test]
fn visual_depends_only_on_the_two_flags() {
    let a = Card { is_flipped: true, is_eliminated: true };
    let b = Card { is_flipped: true, is_eliminated: true };
    assert_eq!(a.visual(), b.visual());
}

#[test]
fn sync_writes_only_on_change() {
    let mut card = Card::new();
    let mut sprite = card.visual();
    // Unchanged state: re-evaluating writes nothing.
    assert!(!update_card_visuals(&card, &mut sprite));
    card.flip();
    assert!(update_card_visuals(&card, &mut sprite));
    assert_eq!(sprite, CardVisual { image: CardImage::Face, tint: Tint::White });
    // Idempotent: a second pass on the same state writes nothing.
    assert!(!update_card_visuals(&card, &mut sprite));
}

#[test]
fn sync_repairs_a_stale_sprite() {
    let card = Card { is_flipped: false, is_eliminated: true };
    let mut sprite = CardVisual { image: CardImage::Face, tint: Tint::White };
    assert!(update_card_visuals(&card, &mut sprite));
    assert_eq!(sprite, CardVisual { image: CardImage::Back, tint: Tint::Dimmed });
}
