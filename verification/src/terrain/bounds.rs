use crate::grid::{GridCoord, GridSet};
use crate::terrain::config::{TerrainConfig, TerrainConfigValidationError};
use vstd::prelude::*;

verus! {

/// The square of terrain centered on the world origin, with its side in
/// meters.
#[derive(Clone, Copy, Debug, Eq, PartialEq, Structural)]
pub struct TerrainBounds {
    side_length_meters: u32,
}

/// Whether the footprint of `width` by `depth` cells of `cell_cm`
/// centimeters, from the cell (`min_x`, `min_z`), lies within the square of
/// `side_m` meters centered on the origin. In centimeters the square spans
/// `-50 * side_m` to `50 * side_m` on both axes, and the footprint spans
/// `min_x * cell_cm` to `(min_x + width) * cell_cm` along x.
pub open spec fn footprint_within(
    side_m: int,
    cell_cm: int,
    min_x: int,
    min_z: int,
    width: int,
    depth: int,
) -> bool {
    &&& min_x * cell_cm >= -50 * side_m
    &&& min_z * cell_cm >= -50 * side_m
    &&& (min_x + width) * cell_cm <= 50 * side_m
    &&& (min_z + depth) * cell_cm <= 50 * side_m
}

impl TerrainBounds {
    pub closed spec fn spec_side_length_meters(self) -> u32 {
        self.side_length_meters
    }

    /// The bounds that `config` describes.
    pub closed spec fn spec_from_config(config: TerrainConfig) -> TerrainBounds {
        TerrainBounds { side_length_meters: config.side_length_meters }
    }

    /// Whether the footprint of `width` by `depth` building cells from
    /// `origin` lies on the surface layer and within the bounds.
    pub open spec fn spec_contains_footprint(
        self,
        origin: GridCoord,
        width_building_cells: u32,
        depth_building_cells: u32,
        grids: GridSet,
    ) -> bool {
        &&& origin.y == 0
        &&& width_building_cells > 0
        &&& depth_building_cells > 0
        &&& footprint_within(
            self.spec_side_length_meters() as int,
            grids.spec_building().spec_cell_size_cm() as int,
            origin.x as int,
            origin.z as int,
            width_building_cells as int,
            depth_building_cells as int,
        )
    }

    pub fn from_config(config: TerrainConfig) -> (r: Result<Self, TerrainConfigValidationError>)
        ensures
            r matches Ok(b) && b == Self::spec_from_config(config),
            r matches Ok(b) && b.spec_side_length_meters() == config.side_length_meters,
    {
        Ok(Self { side_length_meters: config.side_length_meters })
    }

    pub fn side_length_meters(self) -> (r: u32)
        ensures
            r == self.spec_side_length_meters(),
    {
        self.side_length_meters
    }

    /// Whether the building cell at `coord` lies on the surface layer and
    /// within the bounds.
    pub fn contains_surface_cell(self, coord: GridCoord, grids: GridSet) -> (r: bool)
        ensures
            r == self.spec_contains_footprint(coord, 1, 1, grids),
    {
        self.contains_footprint(coord, 1, 1, grids)
    }

    /// Whether the footprint of `width_building_cells` by
    /// `depth_building_cells` building cells from `origin` lies on the
    /// surface layer and within the bounds. An empty footprint is never
    /// contained. The test is exact: it compares whole centimetres, with no
    /// rounding of metres to floating point, so a footprint that ends on the
    /// edge of the bounds is contained.
    pub fn contains_footprint(
        self,
        origin: GridCoord,
        width_building_cells: u32,
        depth_building_cells: u32,
        grids: GridSet,
    ) -> (r: bool)
        ensures
            r == self.spec_contains_footprint(
                origin,
                width_building_cells,
                depth_building_cells,
                grids,
            ),
            r <==> footprint_fits_in_centimeters(
                self.spec_side_length_meters() as int,
                grids.spec_building().spec_cell_size_cm() as int,
                origin,
                width_building_cells as int,
                depth_building_cells as int,
            ),
    {
        proof {
            lemma_footprint_measured_by_building_cells(
                self,
                origin,
                width_building_cells,
                depth_building_cells,
                grids,
            );
        }
        if origin.y != 0 || width_building_cells == 0 || depth_building_cells == 0 {
            return false;
        }
        let cell = grids.building().cell_size_cm();
        let half: i128 = 50i128 * (self.side_length_meters as i128);
        let end_x = match origin.x.checked_add(width_building_cells as i64) {
            Some(end) => end,
            None => {
                proof {
                    lemma_far_edge_is_outside(
                        origin.x as int + width_building_cells as int,
                        cell as int,
                        self.side_length_meters as int,
                    );
                }
                return false;
            },
        };
        let end_z = match origin.z.checked_add(depth_building_cells as i64) {
            Some(end) => end,
            None => {
                proof {
                    lemma_far_edge_is_outside(
                        origin.z as int + depth_building_cells as int,
                        cell as int,
                        self.side_length_meters as int,
                    );
                }
                return false;
            },
        };
        let min_x = scale_cm(origin.x, cell);
        let min_z = scale_cm(origin.z, cell);
        let max_x = scale_cm(end_x, cell);
        let max_z = scale_cm(end_z, cell);
        min_x >= -half && min_z >= -half && max_x <= half && max_z <= half
    }
}

/// Whether a footprint on the surface layer, of `width` by `depth` cells of
/// `cell_cm` centimeters from `origin`, fits in the square of `side_m`
/// meters centered on the origin: its west and north edges are at least
/// half the side, in centimeters, below zero, and its east and south edges
/// at most half the side above it.
pub open spec fn footprint_fits_in_centimeters(
    side_m: int,
    cell_cm: int,
    origin: GridCoord,
    width: int,
    depth: int,
) -> bool {
    let half_side_cm = side_m * 100 / 2;
    &&& origin.y == 0
    &&& width > 0 && depth > 0
    &&& -half_side_cm <= origin.x * cell_cm && origin.x * cell_cm + width * cell_cm <= half_side_cm
    &&& -half_side_cm <= origin.z * cell_cm && origin.z * cell_cm + depth * cell_cm <= half_side_cm
}

/// A footprint is measured with the configured building cell size: it is
/// contained exactly when, on the surface layer and not empty, it spans
/// `width` by `depth` building cells of the grid set's building size in
/// centimeters, from `origin`, within half the side on each side of the
/// origin.
pub proof fn lemma_footprint_measured_by_building_cells(
    bounds: TerrainBounds,
    origin: GridCoord,
    width_building_cells: u32,
    depth_building_cells: u32,
    grids: GridSet,
)
    ensures
        bounds.spec_contains_footprint(origin, width_building_cells, depth_building_cells, grids)
            <==> footprint_fits_in_centimeters(
            bounds.spec_side_length_meters() as int,
            grids.spec_building().spec_cell_size_cm() as int,
            origin,
            width_building_cells as int,
            depth_building_cells as int,
        ),
{
    let c = grids.spec_building().spec_cell_size_cm() as int;
    let (x, z, w, d) = (origin.x as int, origin.z as int, width_building_cells as int, depth_building_cells as int);
    assert((x + w) * c == x * c + w * c) by (nonlinear_arith);
    assert((z + d) * c == z * c + d * c) by (nonlinear_arith);
    assert(bounds.spec_side_length_meters() * 100 / 2 == 50 * bounds.spec_side_length_meters());
}

/// A footprint lies within the bounds exactly when each of its cells does.
pub proof fn lemma_footprint_within_iff_cells_within(
    side_m: int,
    cell_cm: int,
    min_x: int,
    min_z: int,
    width: int,
    depth: int,
)
    requires
        cell_cm > 0,
        width > 0,
        depth > 0,
    ensures
        footprint_within(side_m, cell_cm, min_x, min_z, width, depth) <==> (forall|i: int, j: int|
            0 <= i < width && 0 <= j < depth ==> #[trigger] footprint_within(
                side_m,
                cell_cm,
                min_x + i,
                min_z + j,
                1,
                1,
            )),
{
    if footprint_within(side_m, cell_cm, min_x, min_z, width, depth) {
        assert forall|i: int, j: int| 0 <= i < width && 0 <= j < depth implies #[trigger] footprint_within(
            side_m,
            cell_cm,
            min_x + i,
            min_z + j,
            1,
            1,
        ) by {
            lemma_scaled_between(min_x, i, width, cell_cm);
            lemma_scaled_between(min_z, j, depth, cell_cm);
        }
    }
    if forall|i: int, j: int|
        0 <= i < width && 0 <= j < depth ==> #[trigger] footprint_within(
            side_m,
            cell_cm,
            min_x + i,
            min_z + j,
            1,
            1,
        ) {
        assert(footprint_within(side_m, cell_cm, min_x + 0, min_z + 0, 1, 1));
        assert(footprint_within(side_m, cell_cm, min_x + (width - 1), min_z + (depth - 1), 1, 1));
    }
}

/// A cell `offset` cells into a run of `len` cells from `start` lies between
/// the run's ends.
proof fn lemma_scaled_between(start: int, offset: int, len: int, cell_cm: int)
    requires
        0 <= offset < len,
        cell_cm > 0,
    ensures
        start * cell_cm <= (start + offset) * cell_cm,
        (start + offset + 1) * cell_cm <= (start + len) * cell_cm,
{
    assert(start * cell_cm <= (start + offset) * cell_cm) by (nonlinear_arith)
        requires
            offset >= 0,
            cell_cm > 0,
    ;
    assert((start + offset + 1) * cell_cm <= (start + len) * cell_cm) by (nonlinear_arith)
        requires
            offset + 1 <= len,
            cell_cm > 0,
    ;
}

/// The bounds are centered on the origin: a footprint lies within them
/// exactly when its mirror image through the origin does.
pub proof fn lemma_footprint_within_is_centered(
    side_m: int,
    cell_cm: int,
    min_x: int,
    min_z: int,
    width: int,
    depth: int,
)
    ensures
        footprint_within(side_m, cell_cm, min_x, min_z, width, depth) <==> footprint_within(
            side_m,
            cell_cm,
            -min_x - width,
            -min_z - depth,
            width,
            depth,
        ),
{
    assert((-min_x - width) * cell_cm == -((min_x + width) * cell_cm)) by (nonlinear_arith);
    assert((-min_z - depth) * cell_cm == -((min_z + depth) * cell_cm)) by (nonlinear_arith);
    assert((-min_x - width + width) * cell_cm == -(min_x * cell_cm)) by (nonlinear_arith);
    assert((-min_z - depth + depth) * cell_cm == -(min_z * cell_cm)) by (nonlinear_arith);
}

/// `coord * cell_cm`, exactly.
fn scale_cm(coord: i64, cell_cm: u32) -> (r: i128)
    ensures
        r == coord * cell_cm,
{
    let c = coord as i128;
    let s = cell_cm as i128;
    assert(-0x8000_0000_0000_0000_0000_0000 <= c * s <= 0x8000_0000_0000_0000_0000_0000) by (nonlinear_arith)
        requires
            -0x8000_0000_0000_0000 <= c <= 0x7fff_ffff_ffff_ffff,
            0 <= s <= 0xffff_ffff,
    ;
    c * s
}

/// A far edge beyond the range of `i64` lies outside any bounds.
proof fn lemma_far_edge_is_outside(end: int, cell_cm: int, side_m: int)
    requires
        end > 0x7fff_ffff_ffff_ffff,
        cell_cm >= 1,
        0 <= side_m <= 0xffff_ffff,
    ensures
        end * cell_cm > 50 * side_m,
{
    assert(end * cell_cm >= end) by (nonlinear_arith)
        requires
            end > 0,
            cell_cm >= 1,
    ;
}

} // verus!
