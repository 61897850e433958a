use vstd::prelude::*;

verus! {

/// Integer coordinate of a cell of a grid.
#[derive(Clone, Copy, Debug, Default, Eq, Hash, PartialEq, Structural)]
pub struct GridCoord {
    pub x: i64,
    pub y: i64,
    pub z: i64,
}

impl GridCoord {
    pub fn new(x: i64, y: i64, z: i64) -> (r: Self)
        ensures
            r == (GridCoord { x, y, z }),
    {
        Self { x, y, z }
    }
}

} // verus!
