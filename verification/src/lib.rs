//! Core logic of a grid-based 2D platformer with an in-game level editor.
//!
//! The library covers the pieces of the game that are pure rules over plain
//! values: snapping world coordinates to the placement grid, the player's
//! jump and rotation state machine, classifying contact pairs into ground
//! contacts and respawn events, the Editor/Level mode transition protocol,
//! loading a level descriptor, and the editor's block placement. The host
//! engine (rendering, physics, input, file access) stays outside and hands
//! these functions plain values each tick.

pub mod collision;
pub mod editor;
pub mod grid;
mod json;
pub mod level;
pub mod modes;
pub mod player;
pub mod world;
