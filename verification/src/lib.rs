//! Animation and movement rules for a small 2D platformer character.

pub mod animation;
pub mod player;
pub mod aseprite;
pub mod loader;
