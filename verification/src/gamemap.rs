//! The fixed-size 2-D grid of tiles and its deterministic generator.
use vstd::prelude::*;

use crate::tile::spec_tile_for;
use crate::tile::tile_for_sample;
use crate::tile::Tile;
use crate::MAP_HEIGHT;
use crate::MAP_WIDTH;

verus! {

/// Witness that a tile lookup named coordinates outside the grid.
#[derive(Clone, Copy, Debug, PartialEq, Eq, Structural)]
pub struct OutOfBounds;

/// A write-once grid of tiles: `width` columns of `height` tiles each,
/// indexed by `0 <= x < width`, `0 <= y < height`. The grid is filled by
/// `generate` and exposes no mutator afterwards.
pub struct GameMap {
    width: usize,
    height: usize,
    tiles: Vec<Vec<Tile>>,
}

/// The mathematical grid a column-wise vector of booleans stands for.
pub open spec fn bool_grid(samples: Seq<Vec<bool>>) -> Seq<Seq<bool>> {
    samples.map(|x: int, col: Vec<bool>| col@)
}

impl GameMap {
    pub closed spec fn spec_width(self) -> int {
        self.width as int
    }

    pub closed spec fn spec_height(self) -> int {
        self.height as int
    }

    /// The mathematical grid: entry `x` is the column of tiles at that `x`.
    pub closed spec fn grid(self) -> Seq<Seq<Tile>> {
        self.tiles@.map(|x: int, col: Vec<Tile>| col@)
    }

    /// Well-formed: exactly `width` columns of `height` tiles, and both
    /// dimensions fit an `i32`, so signed coordinate arithmetic stays exact.
    pub open spec fn wf(self) -> bool {
        &&& self.grid().len() == self.spec_width()
        &&& (forall|x: int|
            0 <= x < self.spec_width() ==> (#[trigger] self.grid()[x]).len() == self.spec_height())
        &&& self.spec_width() <= 0x7fff_ffff
        &&& self.spec_height() <= 0x7fff_ffff
    }

    pub open spec fn spec_in_bounds(self, x: int, y: int) -> bool {
        0 <= x < self.spec_width() && 0 <= y < self.spec_height()
    }

    pub open spec fn spec_tile(self, x: int, y: int) -> Tile {
        self.grid()[x][y]
    }

    /// In bounds and not blocked: the actor may stand here.
    pub open spec fn spec_walkable(self, x: int, y: int) -> bool {
        self.spec_in_bounds(x, y) && !self.spec_tile(x, y).blocked
    }

    /// The map is what `generate` builds from these dimensions and samples:
    /// each cell holds exactly the tile its threshold sample dictates.
    pub open spec fn generated_from(self, width: int, height: int, samples: Seq<Seq<bool>>) -> bool {
        &&& self.wf()
        &&& self.spec_width() == width
        &&& self.spec_height() == height
        &&& (forall|x: int, y: int|
            0 <= x < width && 0 <= y < height ==> #[trigger] self.spec_tile(x, y)
                == spec_tile_for(samples[x][y]))
    }

    pub fn width(&self) -> (w: usize)
        ensures
            w as int == self.spec_width(),
    {
        self.width
    }

    pub fn height(&self) -> (h: usize)
        ensures
            h as int == self.spec_height(),
    {
        self.height
    }

    /// Guarded read access: the caller has already checked the bounds.
    pub fn tile(&self, x: usize, y: usize) -> (t: Tile)
        requires
            self.wf(),
            self.spec_in_bounds(x as int, y as int),
        ensures
            t == self.spec_tile(x as int, y as int),
    {
        proof {
            assert(self.grid()[x as int] == self.tiles@[x as int]@);
        }
        self.tiles[x][y]
    }

    /// The bounds predicate every lookup and movement checks first.
    pub fn in_bounds(&self, x: i64, y: i64) -> (r: bool)
        requires
            self.wf(),
        ensures
            r == self.spec_in_bounds(x as int, y as int),
    {
        0 <= x && x < self.width as i64 && 0 <= y && y < self.height as i64
    }

    /// Checked read access: out-of-range coordinates are rejected with
    /// `OutOfBounds` and are never used to index the grid.
    pub fn tile_at(&self, x: i64, y: i64) -> (r: Result<Tile, OutOfBounds>)
        requires
            self.wf(),
        ensures
            self.spec_in_bounds(x as int, y as int) ==> r == Ok::<Tile, OutOfBounds>(
                self.spec_tile(x as int, y as int),
            ),
            !self.spec_in_bounds(x as int, y as int) ==> r == Err::<Tile, OutOfBounds>(OutOfBounds),
    {
        if self.in_bounds(x, y) {
            Ok(self.tile(x as usize, y as usize))
        } else {
            Err(OutOfBounds)
        }
    }
}

/// Deterministically turn a grid of threshold samples (`true`: the noise
/// sample at that cell was strictly positive) into a fully populated map:
/// every sampled `true` becomes a wall, every other cell stays empty.
pub fn generate(width: usize, height: usize, samples: &Vec<Vec<bool>>) -> (m: GameMap)
    requires
        width <= 0x7fff_ffff,
        height <= 0x7fff_ffff,
        samples@.len() == width,
        forall|x: int| 0 <= x < width ==> (#[trigger] samples@[x])@.len() == height,
    ensures
        m.generated_from(width as int, height as int, bool_grid(samples@)),
{
    let mut tiles: Vec<Vec<Tile>> = Vec::new();
    let mut x: usize = 0;
    while x < width
        invariant
            x <= width,
            width <= 0x7fff_ffff,
            height <= 0x7fff_ffff,
            samples@.len() == width,
            forall|i: int| 0 <= i < width ==> (#[trigger] samples@[i])@.len() == height,
            tiles@.len() == x,
            forall|i: int| 0 <= i < x ==> (#[trigger] tiles@[i])@.len() == height,
            forall|i: int, j: int|
                0 <= i < x && 0 <= j < height ==> #[trigger] tiles@[i]@[j] == spec_tile_for(
                    samples@[i]@[j],
                ),
        decreases width - x,
    {
        let mut col: Vec<Tile> = Vec::new();
        let mut y: usize = 0;
        while y < height
            invariant
                y <= height,
                x < width,
                samples@.len() == width,
                forall|i: int| 0 <= i < width ==> (#[trigger] samples@[i])@.len() == height,
                col@.len() == y,
                forall|j: int|
                    0 <= j < y ==> #[trigger] col@[j] == spec_tile_for(samples@[x as int]@[j]),
            decreases height - y,
        {
            let wall_sample: bool = samples[x][y];
            col.push(tile_for_sample(wall_sample));
            y = y + 1;
        }
        tiles.push(col);
        x = x + 1;
    }
    let m = GameMap { width, height, tiles };
    proof {
        assert forall|x0: int| 0 <= x0 < width implies (#[trigger] m.grid()[x0]).len()
            == height by {
            assert(m.grid()[x0] == m.tiles@[x0]@);
        }
        assert forall|x0: int, y0: int| 0 <= x0 < width && 0 <= y0 < height implies #[trigger] m
            .spec_tile(x0, y0) == spec_tile_for(bool_grid(samples@)[x0][y0]) by {
            assert(m.grid()[x0] == m.tiles@[x0]@);
            assert(bool_grid(samples@)[x0] == samples@[x0]@);
        }
    }
    m
}

/// Build the full-size map the session starts with. The caller samples the
/// noise field once per cell; this fixes the dimensions to the configured
/// map size.
pub fn make_map(samples: &Vec<Vec<bool>>) -> (m: GameMap)
    requires
        samples@.len() == MAP_WIDTH as int,
        forall|x: int|
            0 <= x < MAP_WIDTH as int ==> (#[trigger] samples@[x])@.len() == MAP_HEIGHT as int,
    ensures
        m.spec_width() == MAP_WIDTH as int,
        m.spec_height() == MAP_HEIGHT as int,
        m.generated_from(MAP_WIDTH as int, MAP_HEIGHT as int, bool_grid(samples@)),
{
    generate(MAP_WIDTH as usize, MAP_HEIGHT as usize, samples)
}

/// Determinism of generation: two maps generated from the same dimensions
/// and the same samples hold identical tile grids.
pub proof fn lemma_generation_deterministic(
    m1: GameMap,
    m2: GameMap,
    width: int,
    height: int,
    samples: Seq<Seq<bool>>,
)
    requires
        m1.generated_from(width, height, samples),
        m2.generated_from(width, height, samples),
    ensures
        m1.spec_width() == m2.spec_width(),
        m1.spec_height() == m2.spec_height(),
        m1.grid() == m2.grid(),
{
    assert forall|x: int| 0 <= x < width implies m1.grid()[x] =~= m2.grid()[x] by {
        assert forall|y: int| 0 <= y < height implies m1.grid()[x][y] == m2.grid()[x][y] by {
            assert(m1.spec_tile(x, y) == spec_tile_for(samples[x][y]));
            assert(m2.spec_tile(x, y) == spec_tile_for(samples[x][y]));
        }
    }
    assert(m1.grid() =~~= m2.grid());
}

/// Bounds invariant of generation: a generated map has exactly the requested
/// dimensions and every cell is one of the two canonical tiles.
pub proof fn lemma_generated_cells_canonical(
    m: GameMap,
    width: int,
    height: int,
    samples: Seq<Seq<bool>>,
)
    requires
        m.generated_from(width, height, samples),
    ensures
        m.spec_width() == width,
        m.spec_height() == height,
        forall|x: int, y: int|
            m.spec_in_bounds(x, y) ==> (#[trigger] m.spec_tile(x, y)).is_canonical(),
{
    assert forall|x: int, y: int| m.spec_in_bounds(x, y) implies (#[trigger] m.spec_tile(
        x,
        y,
    )).is_canonical() by {
        assert(m.spec_tile(x, y) == spec_tile_for(samples[x][y]));
    }
}

} // verus!
