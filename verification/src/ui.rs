//! Pure decision logic of the UI passes: button restyling, the debug
//! keyboard commands, and the declarative descriptions of the title and
//! lobby screens that a rendering collaborator consumes.

use vstd::prelude::*;
use vstd::string::StringExecFns;
use crate::card::{Card, CardBundle, CardFace, spec_card_visual};
use crate::common::{GameSeed, ID, Name};

verus! {

/// The engine-reported interaction state of a button this tick.
#[derive(Clone, Copy, Debug, PartialEq, Eq, Structural)]
pub enum Interaction {
    Pressed,
    Hovered,
    Idle,
}

/// The UI palette.
#[derive(Clone, Copy, Debug, PartialEq, Eq, Structural)]
pub enum UiColor {
    Pressed,
    DarkGray,
    LightGray,
}

/// What the input focus should do this tick.
#[derive(Clone, Copy, Debug, PartialEq, Eq, Structural)]
pub enum FocusChange {
    SetFocus,
    ClearFocus,
    KeepFocus,
}

/// The writes a button owes for one interaction change.
#[derive(Clone, Copy, Debug, PartialEq, Eq, Structural)]
pub struct ButtonEffect {
    pub color: UiColor,
    pub focus: FocusChange,
    pub clicked: bool,
}

/// The effect each interaction state requires: pressing focuses the
/// button, darkens it and raises the click event; hovering lightens it;
/// idling clears the focus and reverts to the base colour.
pub open spec fn spec_button_effect(interaction: Interaction) -> ButtonEffect {
    match interaction {
        Interaction::Pressed => ButtonEffect {
            color: UiColor::Pressed,
            focus: FocusChange::SetFocus,
            clicked: true,
        },
        Interaction::Hovered => ButtonEffect {
            color: UiColor::LightGray,
            focus: FocusChange::KeepFocus,
            clicked: false,
        },
        Interaction::Idle => ButtonEffect {
            color: UiColor::DarkGray,
            focus: FocusChange::ClearFocus,
            clicked: false,
        },
    }
}

/// Decides a button's restyle, focus change and click event from its
/// interaction state.
pub fn button_behavior_system(interaction: Interaction) -> (r: ButtonEffect)
    ensures
        r == spec_button_effect(interaction),
{
    match interaction {
        Interaction::Pressed => ButtonEffect {
            color: UiColor::Pressed,
            focus: FocusChange::SetFocus,
            clicked: true,
        },
        Interaction::Hovered => ButtonEffect {
            color: UiColor::LightGray,
            focus: FocusChange::KeepFocus,
            clicked: false,
        },
        Interaction::Idle => ButtonEffect {
            color: UiColor::DarkGray,
            focus: FocusChange::ClearFocus,
            clicked: false,
        },
    }
}

/// The debug keys the game listens to.
#[derive(Clone, Copy, Debug, PartialEq, Eq, Structural)]
pub enum GameKey {
    RegenerateSeed,
    SpawnTestCard,
}

/// What the keyboard pass asks its caller to perform.
pub enum KeyAction {
    /// Draw a fresh seed from entropy and publish it.
    Reseed,
    /// Spawn this ad-hoc card.
    SpawnCard(CardBundle),
    /// Nothing to do.
    Idle,
}

/// Decides the keyboard pass's action: the reseed key asks for a fresh
/// seed to be drawn and published; the test key builds the ad-hoc,
/// already face-up test card at the world origin; no key does nothing.
pub fn handle_keyboard_input(key: Option<GameKey>) -> (r: KeyAction)
    ensures
        key is None ==> r is Idle,
        key == Some(GameKey::RegenerateSeed) ==> r is Reseed,
        key == Some(GameKey::SpawnTestCard) ==> (r matches KeyAction::SpawnCard(b) && {
            &&& b.card == (Card { is_flipped: true, is_eliminated: false })
            &&& b.visual == spec_card_visual(b.card)
            &&& b.id == ID(999)
            &&& b.name.0@ == "Test Card"@
            &&& b.face.0@ == "textures/faces/twintowers.png"@
            &&& b.x2 == 0
            &&& b.y2 == 0
        }),
{
    match key {
        Some(GameKey::RegenerateSeed) => KeyAction::Reseed,
        Some(GameKey::SpawnTestCard) => {
            let card = Card { is_flipped: true, is_eliminated: false };
            let visual = card.visual();
            KeyAction::SpawnCard(
                CardBundle {
                    card,
                    visual,
                    face: CardFace(String::from_str("textures/faces/twintowers.png")),
                    id: ID(999),
                    name: Name(String::from_str("Test Card")),
                    x2: 0,
                    y2: 0,
                },
            )
        },
        None => KeyAction::Idle,
    }
}

/// What clicking a button triggers.
#[derive(Clone, Copy, Debug, PartialEq, Eq, Structural)]
pub enum UiAction {
    /// Move the game to the lobby as host.
    GoToLobby,
    /// Ask for the host's card to be dealt.
    RequestCard,
}

/// A button of a screen: its label, its size in pixels, and what
/// clicking it does.
#[derive(Debug, Clone)]
pub struct ButtonSpec {
    pub label: String,
    pub width_px: u32,
    pub height_px: u32,
    pub on_click: UiAction,
}

/// The hero image of the title screen, in pixels.
#[derive(Clone, Copy, Debug, PartialEq, Eq, Structural)]
pub struct ImageSpec {
    pub width_px: u32,
    pub height_px: u32,
    pub margin_bottom_px: u32,
}

/// The declarative description of the title screen.
#[derive(Debug, Clone)]
pub struct TitleScreen {
    pub hero: ImageSpec,
    pub buttons: Vec<ButtonSpec>,
}

/// The declarative description of the host's lobby screen: the seed is
/// shown as the join code.
#[derive(Debug, Clone)]
pub struct LobbyScreen {
    pub code: u64,
    pub buttons: Vec<ButtonSpec>,
}

/// Describes one button.
pub fn spawn_button(label: String, width_px: u32, height_px: u32, on_click: UiAction) -> (r:
    ButtonSpec)
    ensures
        r.label == label,
        r.width_px == width_px,
        r.height_px == height_px,
        r.on_click == on_click,
{
    ButtonSpec { label, width_px, height_px, on_click }
}

/// Builds the title screen: a hero image over a single host button that
/// moves the game to the lobby.
pub fn spawn_title_screen() -> (r: TitleScreen)
    ensures
        r.hero == (ImageSpec { width_px: 600, height_px: 600, margin_bottom_px: 120 }),
        r.buttons@.len() == 1,
        r.buttons@[0].label@ == "Host Game"@,
        r.buttons@[0].width_px == 250,
        r.buttons@[0].height_px == 70,
        r.buttons@[0].on_click == UiAction::GoToLobby,
{
    let mut buttons: Vec<ButtonSpec> = Vec::new();
    buttons.push(
        spawn_button(String::from_str("Host Game"), 250, 70, UiAction::GoToLobby),
    );
    TitleScreen { hero: ImageSpec { width_px: 600, height_px: 600, margin_bottom_px: 120 }, buttons }
}

/// Builds the host's lobby screen: the published seed as the join code,
/// and a button that asks for the host's card.
pub fn spawn_lobby_for_host(game_seed: &GameSeed) -> (r: LobbyScreen)
    ensures
        r.code == game_seed.0,
        r.buttons@.len() == 1,
        r.buttons@[0].label@ == "Gerar minha carta"@,
        r.buttons@[0].width_px == 250,
        r.buttons@[0].height_px == 70,
        r.buttons@[0].on_click == UiAction::RequestCard,
{
    let mut buttons: Vec<ButtonSpec> = Vec::new();
    buttons.push(
        spawn_button(String::from_str("Gerar minha carta"), 250, 70, UiAction::RequestCard),
    );
    LobbyScreen { code: game_seed.0, buttons }
}

} // verus!
