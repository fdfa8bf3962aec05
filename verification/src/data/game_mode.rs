//! Game modes.

use vstd::prelude::*;

verus! {

/// How a player interacts with the world.
#[derive(Clone, Copy, PartialEq, Eq, Structural, Hash, Debug)]
pub enum GameMode {
    Survival,
    Creative,
    Adventure,
    Spectator,
}

/// The number by which the protocol names a game mode.
pub open spec fn game_mode_id(m: GameMode) -> u8 {
    match m {
        GameMode::Survival => 0,
        GameMode::Creative => 1,
        GameMode::Adventure => 2,
        GameMode::Spectator => 3,
    }
}

impl GameMode {
    /// The number by which the protocol names this game mode.
    pub fn to_u8(&self) -> (r: u8)
        ensures
            r == game_mode_id(*self),
    {
        match self {
            GameMode::Survival => 0,
            GameMode::Creative => 1,
            GameMode::Adventure => 2,
            GameMode::Spectator => 3,
        }
    }

    /// The game mode the protocol names by `id`, if any.
    pub fn from_u8(id: u8) -> (r: Option<GameMode>)
        ensures
            match r {
                Option::Some(m) => game_mode_id(m) == id,
                Option::None => id > 3,
            },
    {
        match id {
            0 => Some(GameMode::Survival),
            1 => Some(GameMode::Creative),
            2 => Some(GameMode::Adventure),
            3 => Some(GameMode::Spectator),
            _ => None,
        }
    }
}

impl Default for GameMode {
    /// Players start in adventure mode.
    fn default() -> (r: Self)
        ensures
            r == GameMode::Adventure,
    {
        GameMode::Adventure
    }
}

/// Game modes and their numbers correspond one to one.
pub proof fn lemma_game_mode_id_injective(a: GameMode, b: GameMode)
    ensures
        game_mode_id(a) == game_mode_id(b) ==> a == b,
{
}

} // verus!
