//! Plain data types shared by the protocol and the game logic.

pub mod colour;
pub mod ser_value;
pub mod codec;
pub mod strings;
pub mod nbt;
pub mod ident;
pub mod action;
pub mod text;
pub mod character;
pub mod light_level;
pub mod multiple16;
pub mod block_pos;
pub mod channel_data;
pub mod registry_entry;
pub mod game_mode;
pub mod itemstack;
pub mod box_cow;
pub mod profile;
