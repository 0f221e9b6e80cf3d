//! The pure half of rendering: the per-tile background color rule and the
//! camera transform that keeps the player centered in the viewport.
use vstd::prelude::*;

use crate::gamemap::GameMap;
use crate::tile::Tile;

verus! {

/// An RGB color: the library's own value for what the drawing surface
/// consumes.
#[derive(Clone, Copy, Debug, PartialEq, Eq, Structural)]
pub struct Rgb {
    pub r: u8,
    pub g: u8,
    pub b: u8,
}

/// Background of a cell the player can see through.
pub open spec fn spec_dark_ground() -> Rgb {
    Rgb { r: 255, g: 255, b: 255 }
}

/// Background of a sight-blocking cell.
pub open spec fn spec_dark_wall() -> Rgb {
    Rgb { r: 128, g: 128, b: 128 }
}

/// The renderer picks between exactly two backgrounds, on `block_sight`.
pub open spec fn spec_background(t: Tile) -> Rgb {
    if t.block_sight {
        spec_dark_wall()
    } else {
        spec_dark_ground()
    }
}

pub fn dark_ground() -> (c: Rgb)
    ensures
        c == spec_dark_ground(),
{
    Rgb { r: 255, g: 255, b: 255 }
}

pub fn dark_wall() -> (c: Rgb)
    ensures
        c == spec_dark_wall(),
{
    Rgb { r: 128, g: 128, b: 128 }
}

/// The color a single tile's background is drawn with.
pub fn background_color(t: Tile) -> (c: Rgb)
    ensures
        c == spec_background(t),
{
    if t.block_sight {
        dark_wall()
    } else {
        dark_ground()
    }
}

/// Compute the background color of every map cell, column by column, so the
/// drawing surface only has to copy colors to its buffer.
pub fn render_background(map: &GameMap) -> (g: Vec<Vec<Rgb>>)
    requires
        map.wf(),
    ensures
        g@.len() == map.spec_width(),
        forall|x: int| 0 <= x < map.spec_width() ==> (#[trigger] g@[x])@.len() == map.spec_height(),
        forall|x: int, y: int|
            map.spec_in_bounds(x, y) ==> #[trigger] g@[x]@[y] == spec_background(
                map.spec_tile(x, y),
            ),
{
    let width = map.width();
    let height = map.height();
    let mut g: Vec<Vec<Rgb>> = Vec::new();
    let mut x: usize = 0;
    while x < width
        invariant
            x <= width,
            map.wf(),
            width as int == map.spec_width(),
            height as int == map.spec_height(),
            g@.len() == x,
            forall|i: int| 0 <= i < x ==> (#[trigger] g@[i])@.len() == height,
            forall|i: int, j: int|
                0 <= i < x && 0 <= j < height ==> #[trigger] g@[i]@[j] == spec_background(
                    map.spec_tile(i, j),
                ),
        decreases width - x,
    {
        let mut col: Vec<Rgb> = Vec::new();
        let mut y: usize = 0;
        while y < height
            invariant
                y <= height,
                x < width,
                map.wf(),
                width as int == map.spec_width(),
                height as int == map.spec_height(),
                col@.len() == y,
                forall|j: int|
                    0 <= j < y ==> #[trigger] col@[j] == spec_background(
                        map.spec_tile(x as int, j),
                    ),
            decreases height - y,
        {
            let t = map.tile(x, y);
            col.push(background_color(t));
            y = y + 1;
        }
        g.push(col);
        x = x + 1;
    }
    g
}

/// The camera offset that centers the player: the world coordinate of the
/// viewport's top-left cell. The offset is not clamped to the map, so it may
/// well be negative or point past the far edge; out-of-range source cells
/// are the drawing surface's concern.
pub fn camera_offset(player_x: i32, player_y: i32, screen_width: i32, screen_height: i32) -> (r: (
    i32,
    i32,
))
    requires
        0 <= screen_width,
        0 <= screen_height,
        i32::MIN <= player_x - screen_width as int / 2,
        i32::MIN <= player_y - screen_height as int / 2,
    ensures
        r.0 == player_x - screen_width as int / 2,
        r.1 == player_y - screen_height as int / 2,
{
    let half_w: i32 = ((screen_width as u32) / 2) as i32;
    let half_h: i32 = ((screen_height as u32) / 2) as i32;
    (player_x - half_w, player_y - half_h)
}

} // verus!
