//! Shared state carried between the per-tick passes: the round seed and
//! the coarse game phase.

use vstd::prelude::*;

verus! {

/// Stable numeric identity of a board entity.
#[derive(Clone, Copy, Debug, PartialEq, Eq, Structural)]
pub struct ID(pub u16);

/// Display name of a board entity.
#[derive(Debug, Clone)]
pub struct Name(pub String);

/// The coarse phase the game is in.
#[derive(Clone, Copy, Debug, PartialEq, Eq, Hash, Structural)]
pub enum GameState {
    Title,
    Loading,
    Playing,
    Lobby,
    InGame,
}

impl Default for GameState {
    /// The game opens on the title screen.
    fn default() -> (r: Self)
        ensures
            r == GameState::Title,
    {
        GameState::Title
    }
}

/// The process-wide 64-bit seed from which every pseudo-random draw of a
/// round is derived.
#[derive(Clone, Copy, Debug, PartialEq, Eq, Structural)]
pub struct GameSeed(pub u64);

/// Publishes a new seed value: overwrites the existing seed resource when
/// there is one, and creates the resource otherwise.  The caller hands in
/// whichever resource it held; the published value is the same either
/// way.
pub fn update_game_seed(game_seed: Option<GameSeed>, seed: u64) -> (r: GameSeed)
    ensures
        r.0 == seed,
{
    let _ = game_seed;
    GameSeed(seed)
}

} // verus!
