use crate::foundation::config::Validate;
use crate::grid::config::{spec_grid_config_validation, GridConfig, GridConfigValidationError};
use vstd::prelude::*;

verus! {

/// A regular grid of cubic cells of one size, in centimeters.
#[derive(Clone, Copy, Debug, Eq, PartialEq)]
pub struct Grid {
    cell_size_cm: u32,
}

impl Grid {
    #[verifier::type_invariant]
    spec fn cell_is_positive(self) -> bool {
        self.cell_size_cm > 0
    }

    pub closed spec fn spec_cell_size_cm(self) -> u32 {
        self.cell_size_cm
    }

    /// A grid of cells of `cell_size_cm`, which must be positive.
    pub fn new(cell_size_cm: u32) -> (r: Result<Self, GridConfigValidationError>)
        ensures
            r is Ok <==> cell_size_cm > 0,
            r matches Ok(grid) ==> grid.spec_cell_size_cm() == cell_size_cm,
            r matches Err(e) ==> e == (GridConfigValidationError::CellSizeMustBePositive {
                field: "base_cell_size_cm",
            }),
    {
        let config = GridConfig { base_cell_size_cm: cell_size_cm, building_cell_size_cm: cell_size_cm };
        let config = Validate::validated(config)?;
        Ok(Self { cell_size_cm: config.base_cell_size_cm })
    }

    pub fn cell_size_cm(self) -> (r: u32)
        ensures
            r == self.spec_cell_size_cm(),
            r > 0,
    {
        proof {
            use_type_invariant(&self);
        }
        self.cell_size_cm
    }
}

/// The base grid and the building grid laid over it.
#[derive(Clone, Copy, Debug, Eq, PartialEq)]
pub struct GridSet {
    base: Grid,
    building: Grid,
}

/// The grids that a valid configuration describes, or why it is invalid.
pub open spec fn spec_grid_set_from_config(config: GridConfig) -> Result<GridSet, GridConfigValidationError> {
    match spec_grid_config_validation(config) {
        Err(e) => Err(e),
        Ok(()) => Ok(choose|set: GridSet| set.describes(config)),
    }
}

impl GridSet {
    #[verifier::type_invariant]
    spec fn building_cells_are_whole_base_cells(self) -> bool {
        self.building.cell_size_cm % self.base.cell_size_cm == 0
    }

    /// Whether the grids have the cell sizes that `config` names.
    pub closed spec fn describes(self, config: GridConfig) -> bool {
        &&& self.base.cell_size_cm == config.base_cell_size_cm
        &&& self.building.cell_size_cm == config.building_cell_size_cm
    }

    pub closed spec fn spec_base(self) -> Grid {
        self.base
    }

    pub closed spec fn spec_building(self) -> Grid {
        self.building
    }

    pub fn from_config(config: GridConfig) -> (r: Result<Self, GridConfigValidationError>)
        ensures
            r == spec_grid_set_from_config(config),
            r is Ok <==> spec_grid_config_validation(config) is Ok,
            r matches Ok(set) ==> set.spec_base().spec_cell_size_cm() == config.base_cell_size_cm
                && set.spec_building().spec_cell_size_cm() == config.building_cell_size_cm,
    {
        let config = Validate::validated(config)?;
        let set = Self {
            base: Grid { cell_size_cm: config.base_cell_size_cm },
            building: Grid { cell_size_cm: config.building_cell_size_cm },
        };
        proof {
            lemma_grid_set_determined_by_config(set, choose|s: GridSet| s.describes(config), config);
        }
        Ok(set)
    }

    pub fn base(self) -> (r: Grid)
        ensures
            r == self.spec_base(),
    {
        self.base
    }

    pub fn building(self) -> (r: Grid)
        ensures
            r == self.spec_building(),
    {
        self.building
    }

    /// How many base cells span one building cell: building cells are whole
    /// numbers of base cells.
    pub fn building_cell_size_in_base_cells(self) -> (r: u32)
        ensures
            r == self.spec_building().spec_cell_size_cm() / self.spec_base().spec_cell_size_cm(),
            r * self.spec_base().spec_cell_size_cm() == self.spec_building().spec_cell_size_cm(),
            r >= 1,
    {
        proof {
            use_type_invariant(&self);
            use_type_invariant(&self.base);
            use_type_invariant(&self.building);
        }
        let ratio = self.building.cell_size_cm / self.base.cell_size_cm;
        proof {
            let b = self.base.cell_size_cm as int;
            let d = self.building.cell_size_cm as int;
            vstd::arithmetic::div_mod::lemma_fundamental_div_mod(d, b);
            assert(ratio >= 1 && ratio * b == d) by (nonlinear_arith)
                requires
                    ratio == d / b,
                    d % b == 0,
                    d > 0,
                    b > 0,
                    d == b * (d / b) + d % b,
            ;
        }
        ratio
    }
}

/// Two grid sets that describe one configuration are the same.
proof fn lemma_grid_set_determined_by_config(a: GridSet, b: GridSet, config: GridConfig)
    requires
        a.describes(config),
        b.describes(config),
    ensures
        a == b,
{
}

} // verus!
