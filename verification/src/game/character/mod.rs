//! Characters: who sees them, and the players among them.

use vstd::prelude::*;

pub mod vis;
pub mod player;

pub use vis::CharacterVisibility;

verus! {

/// The plugin that spawns and tracks characters; the application installs its systems.
pub struct CharactersPlugin;

} // verus!
