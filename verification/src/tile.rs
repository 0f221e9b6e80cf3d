//! The atomic grid cell: a pair of blocking flags and the threshold rule
//! that decides which of the two canonical tiles a noise sample produces.
use vstd::prelude::*;

verus! {

/// A tile of the map and its properties. `blocked` prevents occupancy;
/// `block_sight` selects the wall background color when rendering.
#[derive(Clone, Copy, Debug, PartialEq, Eq, Structural)]
pub struct Tile {
    pub blocked: bool,
    pub block_sight: bool,
}

impl Tile {
    /// The walkable, see-through tile.
    pub open spec fn spec_empty() -> Tile {
        Tile { blocked: false, block_sight: false }
    }

    /// The impassable, sight-blocking tile.
    pub open spec fn spec_wall() -> Tile {
        Tile { blocked: true, block_sight: true }
    }

    /// A generated map holds only these two variants.
    pub open spec fn is_canonical(self) -> bool {
        self == Tile::spec_empty() || self == Tile::spec_wall()
    }

    pub fn empty() -> (t: Tile)
        ensures
            t == Tile::spec_empty(),
    {
        Tile { blocked: false, block_sight: false }
    }

    pub fn wall() -> (t: Tile)
        ensures
            t == Tile::spec_wall(),
    {
        Tile { blocked: true, block_sight: true }
    }
}

/// The threshold-at-zero rule: a strictly positive noise sample turns the
/// cell into a wall, any other sample (zero included) leaves it empty.
pub open spec fn spec_tile_for(wall_sample: bool) -> Tile {
    if wall_sample {
        Tile::spec_wall()
    } else {
        Tile::spec_empty()
    }
}

/// Turn one thresholded noise sample (`true` means the sample was strictly
/// positive) into the tile it stands for.
pub fn tile_for_sample(wall_sample: bool) -> (t: Tile)
    ensures
        t == spec_tile_for(wall_sample),
{
    if wall_sample {
        Tile::wall()
    } else {
        Tile::empty()
    }
}

/// A strictly positive sample maps to a wall and any other sample to the
/// empty tile, so the boundary sample (exactly zero) stays walkable.
pub proof fn lemma_threshold_rule(wall_sample: bool)
    ensures
        wall_sample ==> spec_tile_for(wall_sample) == Tile::spec_wall(),
        !wall_sample ==> spec_tile_for(wall_sample) == Tile::spec_empty(),
        !spec_tile_for(false).blocked,
        spec_tile_for(true).blocked,
{
}

} // verus!
