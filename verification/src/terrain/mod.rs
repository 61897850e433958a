mod bounds;
mod chunk;
mod config;
mod landform;
mod mesh;
mod rebuild;

pub use bounds::{
    footprint_fits_in_centimeters, footprint_within, lemma_footprint_measured_by_building_cells,
    lemma_footprint_within_iff_cells_within, lemma_footprint_within_is_centered,
    TerrainBounds,
};
pub use chunk::{
    chunk_cells_along, chunks_per_side, global_sample, layout_index,
    lemma_adjacent_chunks_sample_identical_boundary, lemma_adjacent_chunks_share_boundary,
    lemma_sampled_chunk_holds_field, lemma_shared_samples_agree,
    lemma_chunks_tile_side, lemma_mvp_chunk_coords_distinct, lemma_mvp_layers_stack,
    lemma_layout_index_bound, lemma_layout_index_unique, mvp_surface_chunks, spec_mvp_chunk, IVec3,
    is_local_sample, sample_count, sample_dimensions_of, sample_index, TerrainChunkCoord,
    TerrainChunkSamples, UVec3, TERRAIN_CHUNK_CELLS,
};
pub use config::{lemma_terrain_config_valid_iff, TerrainConfig, TerrainConfigValidationError};
pub use landform::{
    fbm_octave_limit, validate_plains_octaves, PlainsLandformConfigValidationError,
};
pub use mesh::{indices_to_u32, TerrainMeshError};
pub use rebuild::{needs_terrain_rebuild, rendered_terrain_is_current};
