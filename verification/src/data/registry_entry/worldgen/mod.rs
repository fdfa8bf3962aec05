//! Entries of the world-generation registries.

pub mod biome;
