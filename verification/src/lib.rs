//! Data types, wire encodings and game rules of a Minecraft server framework.

pub mod data;
pub mod game;
