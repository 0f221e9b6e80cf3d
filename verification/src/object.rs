//! The controllable actor and its collision-checked movement.
use vstd::prelude::*;

use crate::gamemap::GameMap;
use crate::render::Rgb;
use crate::Game;

verus! {

/// A positioned, drawable entity: the player, or by the same shape any
/// other actor. It is always represented by one glyph on screen.
#[derive(Clone, Copy, Debug, PartialEq, Eq, Structural)]
pub struct Object {
    pub x: i32,
    pub y: i32,
    pub glyph: char,
    pub color: Rgb,
}

/// How a finished move relates the new actor state to the old one: stepped
/// exactly to the candidate cell if that cell is walkable, otherwise
/// unmoved; glyph and color are kept either way.
pub open spec fn move_outcome(pre: Object, post: Object, m: GameMap, dx: int, dy: int) -> bool {
    &&& (if m.spec_walkable(pre.x + dx, pre.y + dy) {
        post.x == pre.x + dx && post.y == pre.y + dy
    } else {
        post.x == pre.x && post.y == pre.y
    })
    &&& post.glyph == pre.glyph
    &&& post.color == pre.color
}

impl Object {
    pub fn new(x: i32, y: i32, glyph: char, color: Rgb) -> (o: Object)
        ensures
            o.x == x,
            o.y == y,
            o.glyph == glyph,
            o.color == color,
    {
        Object { x, y, glyph, color }
    }

    /// Move by the given amount if the destination lies within the map and
    /// its tile is not blocked; otherwise stay put, silently. The bounds are
    /// checked before any tile lookup, so arbitrary deltas are safe, and a
    /// blocked or out-of-range candidate is a no-op, not an error.
    pub fn move_by(&mut self, dx: i32, dy: i32, game: &Game)
        requires
            game.map.wf(),
        ensures
            move_outcome(*old(self), *final(self), game.map, dx as int, dy as int),
    {
        let nx: i64 = self.x as i64 + dx as i64;
        let ny: i64 = self.y as i64 + dy as i64;
        if game.map.in_bounds(nx, ny) {
            let t = game.map.tile(nx as usize, ny as usize);
            if !t.blocked {
                self.x = nx as i32;
                self.y = ny as i32;
            }
        }
    }
}

/// Movement idempotence under blockage: if the candidate cell's tile is
/// blocked, a finished move leaves the actor's position unchanged.
pub proof fn lemma_move_blocked_is_noop(pre: Object, post: Object, m: GameMap, dx: int, dy: int)
    requires
        move_outcome(pre, post, m, dx, dy),
        m.spec_in_bounds(pre.x + dx, pre.y + dy),
        m.spec_tile(pre.x + dx, pre.y + dy).blocked,
    ensures
        post.x == pre.x,
        post.y == pre.y,
{
}

/// Movement correctness: if the candidate cell is in bounds and its tile is
/// not blocked, a finished move puts the actor exactly there.
pub proof fn lemma_move_unblocked_steps(pre: Object, post: Object, m: GameMap, dx: int, dy: int)
    requires
        move_outcome(pre, post, m, dx, dy),
        m.spec_in_bounds(pre.x + dx, pre.y + dy),
        !m.spec_tile(pre.x + dx, pre.y + dy).blocked,
    ensures
        post.x == pre.x + dx,
        post.y == pre.y + dy,
{
}

/// Movement off the grid is a no-op: an out-of-range candidate never moves
/// the actor (and, by `move_by`'s construction, is never looked up).
pub proof fn lemma_move_out_of_bounds_is_noop(
    pre: Object,
    post: Object,
    m: GameMap,
    dx: int,
    dy: int,
)
    requires
        move_outcome(pre, post, m, dx, dy),
        !m.spec_in_bounds(pre.x + dx, pre.y + dy),
    ensures
        post.x == pre.x,
        post.y == pre.y,
{
}

} // verus!
