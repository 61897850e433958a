use pioneer::foundation::config::{TransformToRuntimeResourceConfig, Validate, ValidateConfig};
use pioneer::grid::{Grid, GridConfig, GridConfigValidationError, GridCoord, GridSet};

#[test]
fn creates_base_and_building_grids_from_config() {
    let grid_set = GridConfig::default().into_grid_set().unwrap();

    assert_eq!(grid_set.base().cell_size_cm(), 5);
    assert_eq!(grid_set.building().cell_size_cm(), 50);
    assert_eq!(grid_set.building_cell_size_in_base_cells(), 10);
}

#[test]
fn rejects_zero_cell_size() {
    let error = Validate::validate(&GridConfig {
        base_cell_size_cm: 0,
        building_cell_size_cm: 50,
    })
    .unwrap_err();

    assert!(matches!(
        error,
        GridConfigValidationError::CellSizeMustBePositive {
            field: "base_cell_size_cm"
        }
    ));
}

#[test]
fn rejects_building_cell_that_is_not_aligned_to_base_grid() {
    let error = Validate::validate(&GridConfig {
        base_cell_size_cm: 6,
        building_cell_size_cm: 50,
    })
    .unwrap_err();

    assert!(matches!(
        error,
        GridConfigValidationError::BuildingCellNotMultipleOfBase {
            base_cell_size_cm: 6,
            building_cell_size_cm: 50
        }
    ));
}

#[test]
fn default_grid_config_has_design_cell_sizes() {
    let config = GridConfig::default();

    assert_eq!(config.base_cell_size_cm, 5);
    assert_eq!(config.building_cell_size_cm, 50);
    assert_eq!(config.base_cells_per_building_cell(), 10);
}

#[test]
fn rejects_zero_building_cell_size() {
    let error = ValidateConfig::validate(&GridConfig {
        base_cell_size_cm: 5,
        building_cell_size_cm: 0,
    })
    .unwrap_err();

    assert!(matches!(
        error,
        GridConfigValidationError::CellSizeMustBePositive {
            field: "building_cell_size_cm"
        }
    ));
}

#[test]
fn invalid_config_gives_no_grid_set() {
    assert!(GridSet::from_config(GridConfig {
        base_cell_size_cm: 6,
        building_cell_size_cm: 50,
    })
    .is_err());
    assert!(GridConfig {
        base_cell_size_cm: 0,
        building_cell_size_cm: 0,
    }
    .into_grid_set()
    .is_err());
}

#[test]
fn grid_set_tiles_building_cells_with_base_cells() {
    let grid_set = GridConfig {
        base_cell_size_cm: 4,
        building_cell_size_cm: 36,
    }
    .transform_to_runtime()
    .unwrap();

    assert_eq!(grid_set.base().cell_size_cm(), 4);
    assert_eq!(grid_set.building().cell_size_cm(), 36);
    assert_eq!(grid_set.building_cell_size_in_base_cells(), 9);
}

#[test]
fn grid_requires_positive_cell_size() {
    assert_eq!(Grid::new(5).unwrap().cell_size_cm(), 5);
    assert!(matches!(
        Grid::new(0),
        Err(GridConfigValidationError::CellSizeMustBePositive {
            field: "base_cell_size_cm"
        })
    ));
}

#[test]
fn grid_coord_holds_its_axes() {
    let coord = GridCoord::new(2, -1, 10);

    assert_eq!((coord.x, coord.y, coord.z), (2, -1, 10));
    assert_eq!(GridCoord::default(), GridCoord::new(0, 0, 0));
}
