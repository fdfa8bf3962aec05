//! The player data and login handling of the event-based interface.

pub mod data;
pub mod login;
