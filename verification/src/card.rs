//! Card state and its derived visual: a card shows its own face when
//! flipped up, and the shared back — dimmed once eliminated — when face
//! down.

use vstd::prelude::*;
use crate::common::{ID, Name};

verus! {

/// Logical state of a card.
#[derive(Clone, Copy, Debug, PartialEq, Eq, Structural)]
pub struct Card {
    /// `true` while the face is showing.
    pub is_flipped: bool,
    /// `true` once the card is out of play.
    pub is_eliminated: bool,
}

/// Which texture a card sprite shows.
#[derive(Clone, Copy, Debug, PartialEq, Eq, Structural)]
pub enum CardImage {
    /// The card's own face texture.
    Face,
    /// The back texture shared by every card.
    Back,
}

/// The tint laid over the texture.
#[derive(Clone, Copy, Debug, PartialEq, Eq, Structural)]
pub enum Tint {
    White,
    Dimmed,
}

/// The rendered look of a card: a texture choice and a tint.
#[derive(Clone, Copy, Debug, PartialEq, Eq, Structural)]
pub struct CardVisual {
    pub image: CardImage,
    pub tint: Tint,
}

/// Path of the card's own face texture.
#[derive(Debug, Clone)]
pub struct CardFace(pub String);

/// What is shared by all cards: the path of the common back texture.
#[derive(Debug, Clone)]
pub struct GlobalCardAssets {
    pub back_image: String,
}

/// Everything a newly spawned card carries: state, visual, textures,
/// identity and position (in half units).
#[derive(Debug, Clone)]
pub struct CardBundle {
    pub card: Card,
    pub visual: CardVisual,
    pub face: CardFace,
    pub id: ID,
    pub name: Name,
    pub x2: i64,
    pub y2: i64,
}

/// The visual a card's state requires — a pure function of
/// `(is_flipped, is_eliminated)`: the face always shows white; the back
/// shows white while in play and dimmed once eliminated.
pub open spec fn spec_card_visual(card: Card) -> CardVisual {
    if card.is_flipped {
        CardVisual { image: CardImage::Face, tint: Tint::White }
    } else if card.is_eliminated {
        CardVisual { image: CardImage::Back, tint: Tint::Dimmed }
    } else {
        CardVisual { image: CardImage::Back, tint: Tint::White }
    }
}

impl Card {
    /// A freshly dealt card: face down, still in play.
    pub fn new() -> (r: Card)
        ensures
            r == (Card { is_flipped: false, is_eliminated: false }),
    {
        Card { is_flipped: false, is_eliminated: false }
    }

    /// Turns the card face up; elimination is untouched.
    pub fn flip(&mut self)
        ensures
            *final(self) == (Card { is_flipped: true, is_eliminated: old(self).is_eliminated }),
    {
        self.is_flipped = true;
    }

    /// Marks the card eliminated; its orientation is untouched.
    pub fn eliminate(&mut self)
        ensures
            *final(self) == (Card { is_flipped: old(self).is_flipped, is_eliminated: true }),
    {
        self.is_eliminated = true;
    }

    /// Computes the visual this card must show.
    pub fn visual(&self) -> (r: CardVisual)
        ensures
            r == spec_card_visual(*self),
    {
        if self.is_flipped {
            CardVisual { image: CardImage::Face, tint: Tint::White }
        } else if self.is_eliminated {
            CardVisual { image: CardImage::Back, tint: Tint::Dimmed }
        } else {
            CardVisual { image: CardImage::Back, tint: Tint::White }
        }
    }
}

/// Change-driven visual synchronisation: brings the displayed sprite in
/// line with the card's state, writing it only when it actually differs,
/// and reports whether a write happened.  Re-running it on an unchanged
/// card therefore writes nothing.
pub fn update_card_visuals(card: &Card, sprite: &mut CardVisual) -> (changed: bool)
    ensures
        *final(sprite) == spec_card_visual(*card),
        changed == (*old(sprite) != spec_card_visual(*card)),
{
    let target = card.visual();
    if *sprite == target {
        false
    } else {
        *sprite = target;
        true
    }
}

/// The visual is a pure function of `(is_flipped, is_eliminated)`: two
/// cards agreeing on those two flags render identically.
pub proof fn lemma_visual_pure(a: Card, b: Card)
    requires
        a.is_flipped == b.is_flipped,
        a.is_eliminated == b.is_eliminated,
    ensures
        spec_card_visual(a) == spec_card_visual(b),
{
}

/// Flipping a card face up never reintroduces the dimmed tint: face-up
/// cards show white even while eliminated.
pub proof fn lemma_face_up_never_dimmed(card: Card)
    requires
        card.is_flipped,
    ensures
        spec_card_visual(card).tint == Tint::White,
{
}

} // verus!
