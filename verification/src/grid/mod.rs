mod config;
mod coord;
mod grid;

pub use config::{
    lemma_grid_config_valid_iff, GridConfig, GridConfigValidationError, DEFAULT_BASE_CELL_SIZE_CM, DEFAULT_BUILDING_CELL_SIZE_CM,
};
pub use coord::GridCoord;
pub use grid::{Grid, GridSet};
