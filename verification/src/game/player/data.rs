//! Player settings, shared with the character-based interface.

pub use crate::game::character::player::{ClientBrand, IsHardcore, NoRespawnScreen, ReducedDebugInfo, ViewDist};
