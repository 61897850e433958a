use crate::terrain::config::TerrainConfig;
use vstd::prelude::*;

verus! {

/// Cells along each axis of a full terrain chunk.
pub const TERRAIN_CHUNK_CELLS: u32 = 16;

/// A signed integer vector.
#[derive(Clone, Copy, Debug, Default, Eq, Hash, PartialEq, Structural)]
pub struct IVec3 {
    pub x: i32,
    pub y: i32,
    pub z: i32,
}

impl IVec3 {
    pub fn new(x: i32, y: i32, z: i32) -> (r: Self)
        ensures
            r == (IVec3 { x, y, z }),
    {
        Self { x, y, z }
    }
}

/// An unsigned integer vector: a count of cells or a sample position along
/// each axis.
#[derive(Clone, Copy, Debug, Default, Eq, Hash, PartialEq, Structural)]
pub struct UVec3 {
    pub x: u32,
    pub y: u32,
    pub z: u32,
}

impl UVec3 {
    pub fn new(x: u32, y: u32, z: u32) -> (r: Self)
        ensures
            r == (UVec3 { x, y, z }),
    {
        Self { x, y, z }
    }
}

/// Integer coordinate of a terrain mesh chunk.
#[derive(Clone, Copy, Debug, Eq, Hash, PartialEq, Structural)]
pub struct TerrainChunkCoord(pub IVec3);

impl TerrainChunkCoord {
    pub fn new(x: i32, y: i32, z: i32) -> (r: Self)
        ensures
            r == TerrainChunkCoord(IVec3 { x, y, z }),
    {
        Self(IVec3::new(x, y, z))
    }

    /// Offset of the chunk's first sample from the terrain origin, in sample
    /// spacings along each axis: `TERRAIN_CHUNK_CELLS` per chunk.
    pub fn origin_offset_samples(self) -> (r: (i64, i64, i64))
        ensures
            r.0 == self.0.x * TERRAIN_CHUNK_CELLS,
            r.1 == self.0.y * TERRAIN_CHUNK_CELLS,
            r.2 == self.0.z * TERRAIN_CHUNK_CELLS,
    {
        let cells = TERRAIN_CHUNK_CELLS as i64;
        (self.0.x as i64 * cells, self.0.y as i64 * cells, self.0.z as i64 * cells)
    }
}

/// Neighboring chunks meet: the last sample of a chunk along an axis lies at
/// the first sample of the next chunk along it.
pub proof fn lemma_adjacent_chunks_share_boundary(x: i32, y: i32, z: i32)
    requires
        x < i32::MAX,
        y < i32::MAX,
        z < i32::MAX,
    ensures
        x * TERRAIN_CHUNK_CELLS + TERRAIN_CHUNK_CELLS == (x + 1) * TERRAIN_CHUNK_CELLS,
        y * TERRAIN_CHUNK_CELLS + TERRAIN_CHUNK_CELLS == (y + 1) * TERRAIN_CHUNK_CELLS,
        z * TERRAIN_CHUNK_CELLS + TERRAIN_CHUNK_CELLS == (z + 1) * TERRAIN_CHUNK_CELLS,
{
}

/// The position of (`x`, `y`, `z`) in an array laid out with x fastest,
/// then y, then z, for a box `dx` wide and `dy` high.
pub open spec fn layout_index(dx: int, dy: int, x: int, y: int, z: int) -> int {
    x + dx * (y + dy * z)
}

/// Distinct points of a box have distinct layout positions.
pub proof fn lemma_layout_index_unique(
    dx: int,
    dy: int,
    x1: int,
    y1: int,
    z1: int,
    x2: int,
    y2: int,
    z2: int,
)
    requires
        0 <= x1 < dx,
        0 <= x2 < dx,
        0 <= y1 < dy,
        0 <= y2 < dy,
        z1 >= 0,
        z2 >= 0,
        layout_index(dx, dy, x1, y1, z1) == layout_index(dx, dy, x2, y2, z2),
    ensures
        x1 == x2 && y1 == y2 && z1 == z2,
{
    let m1 = y1 + dy * z1;
    let m2 = y2 + dy * z2;
    assert(m1 == m2) by (nonlinear_arith)
        requires
            0 <= x1 < dx,
            0 <= x2 < dx,
            x1 + dx * m1 == x2 + dx * m2,
    ;
    assert(z1 == z2) by (nonlinear_arith)
        requires
            0 <= y1 < dy,
            0 <= y2 < dy,
            y1 + dy * z1 == y2 + dy * z2,
    ;
}

/// The points of a box `dx` by `dy` by `dz` fill the positions below
/// `dx * dy * dz`.
pub proof fn lemma_layout_index_bound(dx: int, dy: int, dz: int, x: int, y: int, z: int)
    requires
        0 <= x < dx,
        0 <= y < dy,
        0 <= z < dz,
    ensures
        0 <= layout_index(dx, dy, x, y, z) < dx * dy * dz,
{
    assert(0 <= y + dy * z <= dy * dz - 1) by (nonlinear_arith)
        requires
            0 <= y < dy,
            0 <= z < dz,
    ;
    assert(0 <= x + dx * (y + dy * z) < dx * dy * dz) by (nonlinear_arith)
        requires
            0 <= x < dx,
            0 <= y + dy * z <= dy * dz - 1,
    ;
}

/// Samples along each axis of a chunk with `cells` cells: one more than the
/// cells.
pub open spec fn sample_dimensions_of(cells: UVec3) -> (int, int, int) {
    (cells.x + 1, cells.y + 1, cells.z + 1)
}

/// How many samples a chunk with `cells` cells holds.
pub open spec fn sample_count(cells: UVec3) -> int {
    (cells.x + 1) * (cells.y + 1) * (cells.z + 1)
}

/// Whether `local` is a sample position of a chunk with `cells` cells.
pub open spec fn is_local_sample(cells: UVec3, local: UVec3) -> bool {
    local.x <= cells.x && local.y <= cells.y && local.z <= cells.z
}

/// The position of the sample at `local` among a chunk's samples.
pub open spec fn sample_index(cells: UVec3, local: UVec3) -> int {
    layout_index(cells.x + 1, cells.y + 1, local.x as int, local.y as int, local.z as int)
}

/// Samples of a scalar field `V` at the corners of the cells of one chunk.
#[derive(Debug)]
pub struct TerrainChunkSamples<V> {
    coord: TerrainChunkCoord,
    cells: UVec3,
    values: Vec<V>,
}

impl<V> TerrainChunkSamples<V> {
    #[verifier::type_invariant]
    spec fn one_value_per_sample(self) -> bool {
        &&& sample_count(self.cells) <= u32::MAX
        &&& self.values@.len() == sample_count(self.cells)
    }

    pub closed spec fn spec_coord(&self) -> TerrainChunkCoord {
        self.coord
    }

    pub closed spec fn spec_cells(&self) -> UVec3 {
        self.cells
    }

    /// The sampled values, x fastest, then y, then z.
    pub closed spec fn spec_values(&self) -> Seq<V> {
        self.values@
    }

    /// The value sampled at `local`.
    pub open spec fn spec_value_at(&self, local: UVec3) -> V {
        self.spec_values()[sample_index(self.spec_cells(), local)]
    }

    /// Samples `field` at every corner of the `cells` of the chunk at `coord`,
    /// handing it the sample's position within the chunk. X is the
    /// fastest-changing axis.
    pub fn sample<F: Fn(UVec3) -> V>(coord: TerrainChunkCoord, cells: UVec3, field: F) -> (r: Self)
        requires
            sample_count(cells) <= u32::MAX,
            forall|local: UVec3| field.requires((local,)),
        ensures
            r.spec_coord() == coord,
            r.spec_cells() == cells,
            r.spec_values().len() == sample_count(cells),
            forall|local: UVec3|
                is_local_sample(cells, local) ==> field.ensures((local,), #[trigger] r.spec_value_at(local)),
    {
        proof {
            lemma_sample_axes_fit(cells);
        }
        let dx = cells.x + 1;
        let dy = cells.y + 1;
        let dz = cells.z + 1;
        let ghost (gx, gy, gz) = (dx as int, dy as int, dz as int);
        assert(dx * dy <= u32::MAX && dx * dy * dz <= u32::MAX) by (nonlinear_arith)
            requires
                dx * dy * dz == sample_count(cells),
                sample_count(cells) <= u32::MAX,
                dx >= 1,
                dy >= 1,
                dz >= 1,
        ;
        let mut values: Vec<V> = Vec::with_capacity((dx * dy * dz) as usize);
        let mut z: u32 = 0;
        assert(layout_index(gx, gy, 0, 0, 0) == 0) by (nonlinear_arith);
        while z < dz
            invariant
                gx == cells.x + 1 && gy == cells.y + 1 && gz == cells.z + 1,
                dx == gx && dy == gy && dz == gz,
                z <= dz,
                values@.len() == layout_index(gx, gy, 0, 0, z as int),
                forall|local: UVec3| field.requires((local,)),
                forall|local: UVec3|
                    is_local_sample(cells, local) && sample_index(cells, local) < values@.len()
                        ==> field.ensures((local,), #[trigger] values@[sample_index(cells, local)]),
            decreases dz - z,
        {
            let mut y: u32 = 0;
            while y < dy
                invariant
                    gx == cells.x + 1 && gy == cells.y + 1 && gz == cells.z + 1,
                    dx == gx && dy == gy && dz == gz,
                    z < dz,
                    y <= dy,
                    values@.len() == layout_index(gx, gy, 0, y as int, z as int),
                    forall|local: UVec3| field.requires((local,)),
                    forall|local: UVec3|
                        is_local_sample(cells, local) && sample_index(cells, local) < values@.len()
                            ==> field.ensures((local,), #[trigger] values@[sample_index(cells, local)]),
                decreases dy - y,
            {
                let mut x: u32 = 0;
                while x < dx
                    invariant
                        gx == cells.x + 1 && gy == cells.y + 1 && gz == cells.z + 1,
                        dx == gx && dy == gy && dz == gz,
                        z < dz,
                        y < dy,
                        x <= dx,
                        values@.len() == layout_index(gx, gy, x as int, y as int, z as int),
                        forall|local: UVec3| field.requires((local,)),
                        forall|local: UVec3|
                            is_local_sample(cells, local) && sample_index(cells, local)
                                < values@.len() ==> field.ensures(
                                (local,),
                                #[trigger] values@[sample_index(cells, local)],
                            ),
                    decreases dx - x,
                {
                    let here = UVec3::new(x, y, z);
                    let value = field(here);
                    let ghost before = values@;
                    values.push(value);
                    proof {
                        assert forall|local: UVec3|
                            is_local_sample(cells, local) && sample_index(cells, local)
                                < values@.len() implies field.ensures(
                            (local,),
                            #[trigger] values@[sample_index(cells, local)],
                        ) by {
                            if sample_index(cells, local) == before.len() {
                                lemma_layout_index_unique(
                                    gx,
                                    gy,
                                    local.x as int,
                                    local.y as int,
                                    local.z as int,
                                    x as int,
                                    y as int,
                                    z as int,
                                );
                                assert(local == here);
                            }
                        }
                    }
                    x = x + 1;
                }
                assert(layout_index(gx, gy, gx, y as int, z as int) == layout_index(
                    gx,
                    gy,
                    0,
                    y + 1,
                    z as int,
                )) by (nonlinear_arith);
                y = y + 1;
            }
            assert(layout_index(gx, gy, 0, gy, z as int) == layout_index(gx, gy, 0, 0, z + 1))
                by (nonlinear_arith);
            z = z + 1;
        }
        assert(layout_index(gx, gy, 0, 0, gz) == sample_count(cells)) by (nonlinear_arith)
            requires
                gx == cells.x + 1 && gy == cells.y + 1 && gz == cells.z + 1,
        ;
        let samples = Self { coord, cells, values };
        assert forall|local: UVec3| is_local_sample(cells, local) implies field.ensures(
            (local,),
            #[trigger] samples.spec_value_at(local),
        ) by {
            lemma_layout_index_bound(gx, gy, gz, local.x as int, local.y as int, local.z as int);
        }
        samples
    }

    pub fn coord(&self) -> (r: TerrainChunkCoord)
        ensures
            r == self.spec_coord(),
    {
        self.coord
    }

    pub fn cells(&self) -> (r: UVec3)
        ensures
            r == self.spec_cells(),
    {
        self.cells
    }

    /// Samples along each axis: one more than the cells.
    pub fn sample_dimensions(&self) -> (r: UVec3)
        ensures
            (r.x as int, r.y as int, r.z as int) == sample_dimensions_of(self.spec_cells()),
    {
        proof {
            use_type_invariant(self);
            lemma_sample_axes_fit(self.cells);
        }
        UVec3::new(self.cells.x + 1, self.cells.y + 1, self.cells.z + 1)
    }

    /// The sampled values, x fastest, then y, then z.
    pub fn values(&self) -> (r: &[V])
        ensures
            r@ == self.spec_values(),
    {
        self.values.as_slice()
    }

    /// The value sampled at `local`, or `None` where the chunk has no such
    /// sample.
    pub fn value(&self, local_sample: UVec3) -> (r: Option<V>) where V: Copy
        ensures
            r == if is_local_sample(self.spec_cells(), local_sample) {
                Some(self.spec_value_at(local_sample))
            } else {
                None::<V>
            },
    {
        proof {
            use_type_invariant(self);
            lemma_sample_axes_fit(self.cells);
        }
        let dimensions = self.sample_dimensions();
        if local_sample.x >= dimensions.x || local_sample.y >= dimensions.y || local_sample.z
            >= dimensions.z {
            return None;
        }
        let ghost (gx, gy, gz) = (dimensions.x as int, dimensions.y as int, dimensions.z as int);
        proof {
            lemma_layout_index_bound(
                gx,
                gy,
                gz,
                local_sample.x as int,
                local_sample.y as int,
                local_sample.z as int,
            );
            assert(gx * gy * gz == sample_count(self.cells));
            assert(gy * local_sample.z <= gy * gz && gy * gz <= gx * gy * gz && local_sample.y + gy * local_sample.z < gy * gz
                && gx * (local_sample.y + gy * local_sample.z) <= gx * gy * gz) by (nonlinear_arith)
                requires
                    local_sample.y < gy,
                    local_sample.z < gz,
                    gx >= 1,
                    gy >= 1,
            ;
        }
        let index = local_sample.x + dimensions.x * (local_sample.y + dimensions.y * local_sample.z);
        Some(self.values[index as usize])
    }
}

impl<V: Clone> Clone for TerrainChunkSamples<V> {
    fn clone(&self) -> (r: Self)
        ensures
            r.spec_coord() == self.spec_coord(),
            r.spec_cells() == self.spec_cells(),
            r.spec_values().len() == self.spec_values().len(),
            forall|i: int|
                0 <= i < self.spec_values().len() ==> cloned::<V>(
                    self.spec_values()[i],
                    #[trigger] r.spec_values()[i],
                ),
    {
        proof {
            use_type_invariant(self);
        }
        Self { coord: self.coord, cells: self.cells, values: self.values.clone() }
    }
}

/// The position of the sample at `local` of the chunk at `coord`, in sample
/// spacings from the terrain origin along each axis.
pub open spec fn global_sample(coord: TerrainChunkCoord, local: UVec3) -> (int, int, int) {
    (
        coord.0.x * TERRAIN_CHUNK_CELLS + local.x,
        coord.0.y * TERRAIN_CHUNK_CELLS + local.y,
        coord.0.z * TERRAIN_CHUNK_CELLS + local.z,
    )
}

impl<V> TerrainChunkSamples<V> {
    /// Whether every sample holds the value of `field` at the sample's
    /// position from the terrain origin.
    pub open spec fn samples_field(&self, field: spec_fn((int, int, int)) -> V) -> bool {
        forall|local: UVec3|
            is_local_sample(self.spec_cells(), local) ==> #[trigger] self.spec_value_at(local)
                == field(global_sample(self.spec_coord(), local))
    }
}

/// A chunk sampled with a closure that gives, for each sample position in
/// the chunk, the value of `field` at that sample's position from the
/// terrain origin, holds `field`.
pub proof fn lemma_sampled_chunk_holds_field<V, F: Fn(UVec3) -> V>(
    samples: TerrainChunkSamples<V>,
    sampler: F,
    field: spec_fn((int, int, int)) -> V,
)
    requires
        forall|local: UVec3|
            is_local_sample(samples.spec_cells(), local) ==> sampler.ensures(
                (local,),
                #[trigger] samples.spec_value_at(local),
            ),
        forall|local: UVec3, value: V|
            #[trigger] sampler.ensures((local,), value) ==> value == field(
                global_sample(samples.spec_coord(), local),
            ),
    ensures
        samples.samples_field(field),
{
}

/// Two chunks that hold one field agree wherever a sample of one lies at a
/// sample of the other.
pub proof fn lemma_shared_samples_agree<V>(
    a: TerrainChunkSamples<V>,
    b: TerrainChunkSamples<V>,
    field: spec_fn((int, int, int)) -> V,
    local_a: UVec3,
    local_b: UVec3,
)
    requires
        a.samples_field(field),
        b.samples_field(field),
        is_local_sample(a.spec_cells(), local_a),
        is_local_sample(b.spec_cells(), local_b),
        global_sample(a.spec_coord(), local_a) == global_sample(b.spec_coord(), local_b),
    ensures
        a.spec_value_at(local_a) == b.spec_value_at(local_b),
{
}

/// Neighboring chunks that hold one field have identical samples on the
/// face they share: the last layer of samples of a full chunk along an axis
/// is the first layer of the next chunk along it. `u` and `v` are the
/// sample positions along the other two axes, which both chunks hold.
pub proof fn lemma_adjacent_chunks_sample_identical_boundary<V>(
    first: TerrainChunkSamples<V>,
    next: TerrainChunkSamples<V>,
    field: spec_fn((int, int, int)) -> V,
    u: u32,
    v: u32,
)
    requires
        first.samples_field(field),
        next.samples_field(field),
    ensures
        ({
            let (c, d) = (first.spec_coord().0, next.spec_coord().0);
            let (m, n) = (first.spec_cells(), next.spec_cells());
            d.x == c.x + 1 && d.y == c.y && d.z == c.z && m.x == TERRAIN_CHUNK_CELLS && u <= m.y
                && u <= n.y && v <= m.z && v <= n.z ==> first.spec_value_at(
                UVec3 { x: TERRAIN_CHUNK_CELLS, y: u, z: v },
            ) == next.spec_value_at(UVec3 { x: 0, y: u, z: v })
        }),
        ({
            let (c, d) = (first.spec_coord().0, next.spec_coord().0);
            let (m, n) = (first.spec_cells(), next.spec_cells());
            d.x == c.x && d.y == c.y + 1 && d.z == c.z && m.y == TERRAIN_CHUNK_CELLS && u <= m.x
                && u <= n.x && v <= m.z && v <= n.z ==> first.spec_value_at(
                UVec3 { x: u, y: TERRAIN_CHUNK_CELLS, z: v },
            ) == next.spec_value_at(UVec3 { x: u, y: 0, z: v })
        }),
        ({
            let (c, d) = (first.spec_coord().0, next.spec_coord().0);
            let (m, n) = (first.spec_cells(), next.spec_cells());
            d.x == c.x && d.y == c.y && d.z == c.z + 1 && m.z == TERRAIN_CHUNK_CELLS && u <= m.x
                && u <= n.x && v <= m.y && v <= n.y ==> first.spec_value_at(
                UVec3 { x: u, y: v, z: TERRAIN_CHUNK_CELLS },
            ) == next.spec_value_at(UVec3 { x: u, y: v, z: 0 })
        }),
{
    let (c, d) = (first.spec_coord().0, next.spec_coord().0);
    let (m, n) = (first.spec_cells(), next.spec_cells());
    let last = TERRAIN_CHUNK_CELLS;
    if d.x == c.x + 1 && d.y == c.y && d.z == c.z && m.x == last && u <= m.y && u <= n.y && v
        <= m.z && v <= n.z {
        let (a, b) = (UVec3 { x: last, y: u, z: v }, UVec3 { x: 0, y: u, z: v });
        lemma_shared_samples_agree(first, next, field, a, b);
    }
    if d.x == c.x && d.y == c.y + 1 && d.z == c.z && m.y == last && u <= m.x && u <= n.x && v
        <= m.z && v <= n.z {
        let (a, b) = (UVec3 { x: u, y: last, z: v }, UVec3 { x: u, y: 0, z: v });
        lemma_shared_samples_agree(first, next, field, a, b);
    }
    if d.x == c.x && d.y == c.y && d.z == c.z + 1 && m.z == last && u <= m.x && u <= n.x && v
        <= m.y && v <= n.y {
        let (a, b) = (UVec3 { x: u, y: v, z: last }, UVec3 { x: u, y: v, z: 0 });
        lemma_shared_samples_agree(first, next, field, a, b);
    }
}

/// With at most `u32::MAX` samples in all, the samples along each axis fit
/// in a `u32`.
proof fn lemma_sample_axes_fit(cells: UVec3)
    requires
        sample_count(cells) <= u32::MAX,
    ensures
        cells.x + 1 <= u32::MAX,
        cells.y + 1 <= u32::MAX,
        cells.z + 1 <= u32::MAX,
{
    let (a, b, c) = (cells.x + 1, cells.y + 1, cells.z + 1);
    assert(a <= a * b * c && b <= a * b * c && c <= a * b * c) by (nonlinear_arith)
        requires
            a >= 1,
            b >= 1,
            c >= 1,
    ;
}

/// Chunks along each horizontal side of a terrain `side` meters wide.
pub open spec fn chunks_per_side(side: int) -> int {
    (side + TERRAIN_CHUNK_CELLS - 1) / TERRAIN_CHUNK_CELLS as int
}

/// Cells of the chunk `column` chunks from the terrain's edge, on an axis
/// `side` cells long: a full chunk, or what remains of the side.
pub open spec fn chunk_cells_along(side: int, column: int) -> int {
    if side - TERRAIN_CHUNK_CELLS * column < TERRAIN_CHUNK_CELLS {
        side - TERRAIN_CHUNK_CELLS * column
    } else {
        TERRAIN_CHUNK_CELLS as int
    }
}

/// The chunk at column `cx`, row `cz` of `layer` (0 below ground, 1 above),
/// with its cells.
pub open spec fn spec_mvp_chunk(side: int, layer: int, cz: int, cx: int) -> (TerrainChunkCoord, UVec3) {
    (
        TerrainChunkCoord(IVec3 { x: cx as i32, y: (layer - 1) as i32, z: cz as i32 }),
        UVec3 {
            x: chunk_cells_along(side, cx) as u32,
            y: TERRAIN_CHUNK_CELLS,
            z: chunk_cells_along(side, cz) as u32,
        },
    )
}

/// The chunks that cover the terrain in two layers, one below ground and
/// one above: all of `layer` 0 first, each layer row by row along z, each
/// row along x. Chunks at the far edges are trimmed to the terrain.
pub fn mvp_surface_chunks(config: TerrainConfig) -> (r: Vec<(TerrainChunkCoord, UVec3)>)
    requires
        2 * chunks_per_side(config.side_length_meters as int) * chunks_per_side(
            config.side_length_meters as int,
        ) <= u32::MAX,
    ensures
        ({
            let side = config.side_length_meters as int;
            let n = chunks_per_side(side);
            &&& r@.len() == 2 * n * n
            &&& forall|layer: int, cz: int, cx: int|
                0 <= layer < 2 && 0 <= cz < n && 0 <= cx < n ==> r@[layout_index(n, n, cx, cz, layer)]
                    == #[trigger] spec_mvp_chunk(side, layer, cz, cx)
        }),
{
    let side = config.side_length_meters;
    let chunks_per_side = side / TERRAIN_CHUNK_CELLS + if side % TERRAIN_CHUNK_CELLS != 0 {
        1
    } else {
        0
    };
    let ghost n = chunks_per_side as int;
    assert(n == crate::terrain::chunk::chunks_per_side(side as int));
    assert(0 <= n * n) by (nonlinear_arith);
    assert(chunks_per_side * chunks_per_side * 2 == 2 * n * n) by (nonlinear_arith)
        requires
            n == chunks_per_side,
    ;
    let mut chunks: Vec<(TerrainChunkCoord, UVec3)> = Vec::with_capacity(
        (chunks_per_side * chunks_per_side * 2) as usize,
    );
    let mut layer: u32 = 0;
    while layer < 2
        invariant
            n == chunks_per_side,
            n == crate::terrain::chunk::chunks_per_side(side as int),
            2 * n * n <= u32::MAX,
            0 <= n * n,
            layer <= 2,
            chunks@.len() == n * n * layer,
            forall|l: int, cz: int, cx: int|
                0 <= l < 2 && 0 <= cz < n && 0 <= cx < n && layout_index(n, n, cx, cz, l)
                    < chunks@.len() ==> chunks@[layout_index(n, n, cx, cz, l)]
                    == #[trigger] spec_mvp_chunk(side as int, l, cz, cx),
        decreases 2 - layer,
    {
        let mut chunk_z: u32 = 0;
        assert(layout_index(n, n, 0, 0, layer as int) == n * n * layer) by (nonlinear_arith);
        while chunk_z < chunks_per_side
            invariant
                n == chunks_per_side,
                n == crate::terrain::chunk::chunks_per_side(side as int),
                2 * n * n <= u32::MAX,
                0 <= n * n,
                layer < 2,
                chunk_z <= n,
                chunks@.len() == layout_index(n, n, 0, chunk_z as int, layer as int),
                forall|l: int, cz: int, cx: int|
                    0 <= l < 2 && 0 <= cz < n && 0 <= cx < n && layout_index(n, n, cx, cz, l)
                        < chunks@.len() ==> chunks@[layout_index(n, n, cx, cz, l)]
                        == #[trigger] spec_mvp_chunk(side as int, l, cz, cx),
            decreases n - chunk_z,
        {
            let mut chunk_x: u32 = 0;
            while chunk_x < chunks_per_side
                invariant
                    n == chunks_per_side,
                    n == crate::terrain::chunk::chunks_per_side(side as int),
                    2 * n * n <= u32::MAX,
                    layer < 2,
                    chunk_z < n,
                    chunk_x <= n,
                    chunks@.len() == layout_index(n, n, chunk_x as int, chunk_z as int, layer as int),
                    forall|l: int, cz: int, cx: int|
                        0 <= l < 2 && 0 <= cz < n && 0 <= cx < n && layout_index(n, n, cx, cz, l)
                            < chunks@.len() ==> chunks@[layout_index(n, n, cx, cz, l)]
                            == #[trigger] spec_mvp_chunk(side as int, l, cz, cx),
                decreases n - chunk_x,
            {
                proof {
                    lemma_chunk_start_within_side(side as int, chunk_x as int);
                    lemma_chunk_start_within_side(side as int, chunk_z as int);
                    lemma_layout_index_bound(n, n, 2, chunk_x as int, chunk_z as int, layer as int);
                }
                let remaining_x = side - chunk_x * TERRAIN_CHUNK_CELLS;
                let remaining_z = side - chunk_z * TERRAIN_CHUNK_CELLS;
                let cells_x = if remaining_x < TERRAIN_CHUNK_CELLS {
                    remaining_x
                } else {
                    TERRAIN_CHUNK_CELLS
                };
                let cells_z = if remaining_z < TERRAIN_CHUNK_CELLS {
                    remaining_z
                } else {
                    TERRAIN_CHUNK_CELLS
                };
                let chunk_y: i32 = layer as i32 - 1;
                let entry = (
                    TerrainChunkCoord::new(chunk_x as i32, chunk_y, chunk_z as i32),
                    UVec3::new(cells_x, TERRAIN_CHUNK_CELLS, cells_z),
                );
                let ghost old_chunks = chunks@;
                chunks.push(entry);
                proof {
                    assert(entry == spec_mvp_chunk(
                        side as int,
                        layer as int,
                        chunk_z as int,
                        chunk_x as int,
                    ));
                    assert forall|l: int, cz: int, cx: int|
                        0 <= l < 2 && 0 <= cz < n && 0 <= cx < n && layout_index(n, n, cx, cz, l)
                            < chunks@.len() implies chunks@[layout_index(n, n, cx, cz, l)]
                            == #[trigger] spec_mvp_chunk(side as int, l, cz, cx) by {
                        if layout_index(n, n, cx, cz, l) == old_chunks.len() {
                            lemma_layout_index_unique(
                                n,
                                n,
                                cx,
                                cz,
                                l,
                                chunk_x as int,
                                chunk_z as int,
                                layer as int,
                            );
                        }
                    }
                }
                chunk_x = chunk_x + 1;
            }
            proof {
                assert(layout_index(n, n, n, chunk_z as int, layer as int) == layout_index(
                    n,
                    n,
                    0,
                    chunk_z + 1,
                    layer as int,
                )) by (nonlinear_arith);
            }
            chunk_z = chunk_z + 1;
        }
        proof {
            assert(layout_index(n, n, 0, n, layer as int) == n * n * (layer + 1)) by (nonlinear_arith);
        }
        layer = layer + 1;
    }
    proof {
        assert(n * n * 2 == 2 * n * n) by (nonlinear_arith);
        assert forall|l: int, cz: int, cx: int|
            0 <= l < 2 && 0 <= cz < n && 0 <= cx < n implies chunks@[layout_index(n, n, cx, cz, l)]
            == #[trigger] spec_mvp_chunk(side as int, l, cz, cx) by {
            lemma_layout_index_bound(n, n, 2, cx, cz, l);
            assert(n * n * 2 == n * n * 2);
        }
    }
    chunks
}

/// No chunk is listed twice: distinct positions in the listing hold
/// distinct chunk coordinates.
pub proof fn lemma_mvp_chunk_coords_distinct(
    side: int,
    l1: int,
    cz1: int,
    cx1: int,
    l2: int,
    cz2: int,
    cx2: int,
)
    requires
        0 <= side <= u32::MAX,
        0 <= l1 < 2 && 0 <= l2 < 2,
        0 <= cz1 < chunks_per_side(side) && 0 <= cx1 < chunks_per_side(side),
        0 <= cz2 < chunks_per_side(side) && 0 <= cx2 < chunks_per_side(side),
        (l1, cz1, cx1) != (l2, cz2, cx2),
    ensures
        spec_mvp_chunk(side, l1, cz1, cx1).0 != spec_mvp_chunk(side, l2, cz2, cx2).0,
{
}

/// The two layers of listed chunks stack without a gap: every chunk is a
/// full chunk high, the chunks of layer 0 span the samples from
/// `-TERRAIN_CHUNK_CELLS` to 0 along y and those of layer 1 from 0 to
/// `TERRAIN_CHUNK_CELLS`. Along x and z a chunk starts inside the terrain
/// and ends within it.
pub proof fn lemma_mvp_layers_stack(side: int, layer: int, cz: int, cx: int)
    requires
        0 <= side <= u32::MAX,
        0 <= layer < 2,
        0 <= cz < chunks_per_side(side),
        0 <= cx < chunks_per_side(side),
    ensures
        ({
            let (coord, cells) = spec_mvp_chunk(side, layer, cz, cx);
            &&& cells.y == TERRAIN_CHUNK_CELLS
            &&& coord.0.y * TERRAIN_CHUNK_CELLS == TERRAIN_CHUNK_CELLS * (layer - 1)
            &&& coord.0.y * TERRAIN_CHUNK_CELLS + cells.y == TERRAIN_CHUNK_CELLS * layer
            &&& coord.0.x == cx && coord.0.z == cz
            &&& 1 <= cells.x <= TERRAIN_CHUNK_CELLS && 1 <= cells.z <= TERRAIN_CHUNK_CELLS
            &&& coord.0.x * TERRAIN_CHUNK_CELLS + cells.x <= side
            &&& coord.0.z * TERRAIN_CHUNK_CELLS + cells.z <= side
        }),
{
    lemma_chunks_tile_side(side, cx);
    lemma_chunks_tile_side(side, cz);
}

/// Every chunk column of the terrain starts inside it.
proof fn lemma_chunk_start_within_side(side: int, column: int)
    requires
        0 <= column < chunks_per_side(side),
        side >= 0,
    ensures
        TERRAIN_CHUNK_CELLS * column < side,
{
}

/// The chunks of a row tile the terrain's side: each starts inside it with
/// between 1 and 16 cells, every chunk but the last is full, and the last
/// ends on the terrain's edge.
pub proof fn lemma_chunks_tile_side(side: int, column: int)
    requires
        side > 0,
        0 <= column < chunks_per_side(side),
    ensures
        1 <= chunk_cells_along(side, column) <= TERRAIN_CHUNK_CELLS,
        TERRAIN_CHUNK_CELLS * column + chunk_cells_along(side, column) <= side,
        column + 1 < chunks_per_side(side) ==> chunk_cells_along(side, column)
            == TERRAIN_CHUNK_CELLS,
        column + 1 == chunks_per_side(side) ==> TERRAIN_CHUNK_CELLS * column + chunk_cells_along(
            side,
            column,
        ) == side,
{
}

} // verus!
