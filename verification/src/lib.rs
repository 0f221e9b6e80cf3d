//! Core of a small map-exploration loop: a tile grid generated from a
//! thresholded noise field, a single movable actor with collision-checked
//! stepping, and the camera transform that keeps the actor centered.
//!
//! Sampling the noise field itself works on floating-point coordinates and so
//! lives outside this crate; the generator here consumes the per-cell outcome
//! of the threshold test (`sample > 0`) as plain booleans.
use vstd::prelude::*;

pub mod gamemap;
pub mod input;
pub mod object;
pub mod render;
pub mod tile;

use crate::gamemap::GameMap;

verus! {

/// Width of the window, in cells.
pub const SCREEN_WIDTH: i32 = 100;

/// Height of the window, in cells.
pub const SCREEN_HEIGHT: i32 = 100;

/// Width of the generated map, in cells.
pub const MAP_WIDTH: i32 = 100;

/// Height of the generated map, in cells.
pub const MAP_HEIGHT: i32 = 100;

/// Index of the player in the entity list.
pub const PLAYER: usize = 0;

/// Upper bound on frames per second; governs redraw pacing only.
pub const LIMIT_FPS: i32 = 20;

/// Seed for the coherent-noise field, fixed so generation is reproducible.
pub const NOISE_SEED: u64 = 456;

/// One session's state: it owns the map for the duration of a run. The map
/// is read-only once generated.
pub struct Game {
    pub map: GameMap,
}

} // verus!
