use crate::foundation::config::{TransformToRuntimeResourceConfig, Validate, ValidateConfig};
use crate::grid::grid::{spec_grid_set_from_config, GridSet};
use vstd::prelude::*;

verus! {

pub const DEFAULT_BASE_CELL_SIZE_CM: u32 = 5;

pub const DEFAULT_BUILDING_CELL_SIZE_CM: u32 = 50;

/// Cell sizes of the two grids, in centimeters: the base grid, and the
/// coarser building grid laid over it.
#[derive(Clone, Copy, Debug, Eq, PartialEq, Structural)]
pub struct GridConfig {
    pub base_cell_size_cm: u32,
    pub building_cell_size_cm: u32,
}

impl Default for GridConfig {
    fn default() -> (r: Self)
        ensures
            r == (GridConfig {
                base_cell_size_cm: DEFAULT_BASE_CELL_SIZE_CM,
                building_cell_size_cm: DEFAULT_BUILDING_CELL_SIZE_CM,
            }),
    {
        Self {
            base_cell_size_cm: DEFAULT_BASE_CELL_SIZE_CM,
            building_cell_size_cm: DEFAULT_BUILDING_CELL_SIZE_CM,
        }
    }
}

/// Why a grid configuration is invalid.
#[derive(Debug)]
pub enum GridConfigValidationError {
    /// The named cell size is 0.
    CellSizeMustBePositive { field: &'static str },
    /// A building cell is not a whole number of base cells.
    BuildingCellNotMultipleOfBase { base_cell_size_cm: u32, building_cell_size_cm: u32 },
}

/// Both cell sizes are positive, and a building cell is a whole number of
/// base cells. The base size is checked first.
pub open spec fn spec_grid_config_validation(config: GridConfig) -> Result<(), GridConfigValidationError> {
    if config.base_cell_size_cm == 0 {
        Err(GridConfigValidationError::CellSizeMustBePositive { field: "base_cell_size_cm" })
    } else if config.building_cell_size_cm == 0 {
        Err(GridConfigValidationError::CellSizeMustBePositive { field: "building_cell_size_cm" })
    } else if config.building_cell_size_cm % config.base_cell_size_cm != 0 {
        Err(
            GridConfigValidationError::BuildingCellNotMultipleOfBase {
                base_cell_size_cm: config.base_cell_size_cm,
                building_cell_size_cm: config.building_cell_size_cm,
            },
        )
    } else {
        Ok(())
    }
}

fn validate_positive(field: &'static str, value: u32) -> (r: Result<(), GridConfigValidationError>)
    ensures
        r == (if value == 0 {
            Err(GridConfigValidationError::CellSizeMustBePositive { field })
        } else {
            Ok(())
        }),
{
    if value == 0 {
        return Err(GridConfigValidationError::CellSizeMustBePositive { field });
    }
    Ok(())
}

/// A grid configuration is valid exactly when both cell sizes are positive
/// and a building cell is a whole number of base cells. A zero size is
/// reported by the field that holds it, the base size first; otherwise a
/// building size that is no multiple of the base size is reported with both
/// sizes.
pub proof fn lemma_grid_config_valid_iff(config: GridConfig)
    ensures
        spec_grid_config_validation(config) is Ok <==> (config.base_cell_size_cm > 0
            && config.building_cell_size_cm > 0 && config.building_cell_size_cm
            % config.base_cell_size_cm == 0),
        config.base_cell_size_cm == 0 ==> (spec_grid_config_validation(config) matches Err(
            GridConfigValidationError::CellSizeMustBePositive { field },
        ) && field@ == "base_cell_size_cm"@),
        config.base_cell_size_cm > 0 && config.building_cell_size_cm == 0
            ==> (spec_grid_config_validation(config) matches Err(
            GridConfigValidationError::CellSizeMustBePositive { field },
        ) && field@ == "building_cell_size_cm"@),
        config.base_cell_size_cm > 0 && config.building_cell_size_cm > 0
            && config.building_cell_size_cm % config.base_cell_size_cm != 0
            ==> (spec_grid_config_validation(config) matches Err(
            GridConfigValidationError::BuildingCellNotMultipleOfBase {
                base_cell_size_cm,
                building_cell_size_cm,
            },
        ) && base_cell_size_cm == config.base_cell_size_cm && building_cell_size_cm
            == config.building_cell_size_cm),
{
}

impl GridConfig {
    /// How many base cells span one building cell.
    pub fn base_cells_per_building_cell(self) -> (r: u32)
        requires
            self.base_cell_size_cm > 0,
        ensures
            r == self.building_cell_size_cm / self.base_cell_size_cm,
    {
        self.building_cell_size_cm / self.base_cell_size_cm
    }

    /// The grids that this configuration describes, or why it is invalid.
    pub fn into_grid_set(self) -> (r: Result<GridSet, GridConfigValidationError>)
        ensures
            r == spec_grid_set_from_config(self),
            r is Ok <==> spec_grid_config_validation(self) is Ok,
            r matches Ok(set) ==> set.spec_base().spec_cell_size_cm() == self.base_cell_size_cm
                && set.spec_building().spec_cell_size_cm() == self.building_cell_size_cm,
            r matches Err(e) ==> spec_grid_config_validation(self) == Err::<(), GridConfigValidationError>(e),
            r is Ok <==> (self.base_cell_size_cm > 0 && self.building_cell_size_cm > 0
                && self.building_cell_size_cm % self.base_cell_size_cm == 0),
    {
        GridSet::from_config(self)
    }

    fn check(&self) -> (r: Result<(), GridConfigValidationError>)
        ensures
            r == spec_grid_config_validation(*self),
            r is Ok <==> (self.base_cell_size_cm > 0 && self.building_cell_size_cm > 0
                && self.building_cell_size_cm % self.base_cell_size_cm == 0),
    {
        validate_positive("base_cell_size_cm", self.base_cell_size_cm)?;
        validate_positive("building_cell_size_cm", self.building_cell_size_cm)?;
        if self.building_cell_size_cm % self.base_cell_size_cm != 0 {
            return Err(
                GridConfigValidationError::BuildingCellNotMultipleOfBase {
                    base_cell_size_cm: self.base_cell_size_cm,
                    building_cell_size_cm: self.building_cell_size_cm,
                },
            );
        }
        Ok(())
    }
}

impl Validate for GridConfig {
    type Error = GridConfigValidationError;

    open spec fn obeys_validation_spec() -> bool {
        true
    }

    open spec fn validation(&self) -> Result<(), GridConfigValidationError> {
        spec_grid_config_validation(*self)
    }

    fn validate(&self) -> (r: Result<(), GridConfigValidationError>) {
        self.check()
    }
}

impl ValidateConfig for GridConfig {
    type Error = GridConfigValidationError;

    open spec fn obeys_config_validation_spec() -> bool {
        true
    }

    open spec fn config_validation(&self) -> Result<(), GridConfigValidationError> {
        spec_grid_config_validation(*self)
    }

    fn validate(&self) -> (r: Result<(), GridConfigValidationError>) {
        self.check()
    }
}

impl TransformToRuntimeResourceConfig for GridConfig {
    type Runtime = GridSet;
    type Error = GridConfigValidationError;

    open spec fn obeys_transform_spec() -> bool {
        true
    }

    open spec fn spec_transform(&self) -> Result<GridSet, GridConfigValidationError> {
        spec_grid_set_from_config(*self)
    }

    fn transform_to_runtime(&self) -> (r: Result<GridSet, GridConfigValidationError>) {
        GridSet::from_config(*self)
    }
}

} // verus!
