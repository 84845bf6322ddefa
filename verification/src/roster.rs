//! Character roster: the ordered, read-only list of character records a
//! round's cards are dealt from, and the loading-state transition that
//! polls for it once per tick.

use vstd::prelude::*;
use crate::common::GameState;

verus! {

/// One character record of the roster file.
#[derive(Debug, Clone)]
pub struct CharacterData {
    pub id: u16,
    pub name: String,
    pub texture_path: String,
}

/// The parsed roster file: an ordered list of characters, read-only
/// after loading.
#[derive(Debug, Clone)]
pub struct CharacterCollectionAsset {
    pub characters: Vec<CharacterData>,
}

/// A fatal roster load failure: malformed input never counts as a
/// loaded roster.
#[derive(Clone, Copy, Debug, PartialEq, Eq, Structural)]
pub enum RosterLoadError {
    ParseFailed,
}

/// What the asynchronous roster load has produced so far.  Failure is a
/// state of its own, distinct from still pending.
pub enum RosterSlot {
    Pending,
    Ready(CharacterCollectionAsset),
    Failed(RosterLoadError),
}

/// Polls the roster load once.  Only the `Loading` phase reacts: a ready
/// roster moves the game to `Playing` (so the transition fires exactly
/// once), a pending load stays in `Loading`, and a failed load is
/// surfaced as the fatal error.  Every other phase is left untouched.
pub fn check_loading_status(state: GameState, slot: &RosterSlot) -> (r: Result<
    GameState,
    RosterLoadError,
>)
    ensures
        state != GameState::Loading ==> r == Ok::<GameState, RosterLoadError>(state),
        state == GameState::Loading && (slot is Ready) ==> r == Ok::<GameState, RosterLoadError>(
            GameState::Playing,
        ),
        state == GameState::Loading && (slot is Pending) ==> r == Ok::<GameState, RosterLoadError>(
            GameState::Loading,
        ),
        state == GameState::Loading && (slot is Failed) ==> r == Err::<GameState, RosterLoadError>(
            slot->Failed_0,
        ),
{
    if !matches!(state, GameState::Loading) {
        return Ok(state);
    }
    match slot {
        RosterSlot::Pending => Ok(GameState::Loading),
        RosterSlot::Ready(_) => Ok(GameState::Playing),
        RosterSlot::Failed(e) => Err(*e),
    }
}

} // verus!
