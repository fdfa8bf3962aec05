//! The game rules a server applies to its players.

pub mod character;
pub mod login;
pub mod player;
pub mod status;
