//! Host side of a grid pathfinding playground: the grid model, the host
//! callbacks that record what a plugin draws, and the rules that decide when a
//! plugin is run, reloaded and replayed.
use vstd::prelude::*;

pub mod api;
pub mod loader;
pub mod map;
pub mod wasm;

verus! {

/// Side of one grid tile on screen, in pixels.
pub const SPRITE_SIZE: u32 = 16;

} // verus!
