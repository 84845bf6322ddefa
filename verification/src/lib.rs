//! Core logic for a "Guess Who"-style board: grid layout and hover
//! hit-testing, card state and its derived visual, and a seeded
//! deterministic random-number utility.

pub mod card;
pub mod common;
pub mod grid;
pub mod hover;
pub mod rng;
pub mod roster;
pub mod ui;

pub use card::{
    Card, CardBundle, CardFace, CardImage, CardVisual, GlobalCardAssets, Tint, update_card_visuals,
};
pub use common::{GameSeed, GameState, ID, Name, update_game_seed};
pub use grid::{GridCell, GridError, grid_layout};
pub use hover::{
    CellColor, CellSprite, PointerPos, Restyle, handle_mouse_hover, render_cell, spawn_grid,
};
pub use rng::{
    GlobalRng, draw_words, gen_game_seed, get_host_card_id, initialize_game_seed, initialize_rng,
    sync_rng_with_seed,
};
pub use roster::{
    CharacterCollectionAsset, CharacterData, RosterLoadError, RosterSlot, check_loading_status,
};
pub use ui::{
    ButtonEffect, ButtonSpec, FocusChange, GameKey, ImageSpec, Interaction, KeyAction, LobbyScreen,
    TitleScreen, UiAction, UiColor, button_behavior_system, handle_keyboard_input, spawn_button,
    spawn_lobby_for_host, spawn_title_screen,
};
