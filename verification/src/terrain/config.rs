use crate::foundation::config::{TransformToRuntimeResourceConfig, ValidateConfig};
use crate::terrain::bounds::TerrainBounds;
use vstd::prelude::*;

verus! {

/// Size of the square terrain, in meters.
#[derive(Clone, Copy, Debug, Eq, PartialEq, Structural)]
pub struct TerrainConfig {
    pub side_length_meters: u32,
}

impl Default for TerrainConfig {
    fn default() -> (r: Self)
        ensures
            r == (TerrainConfig { side_length_meters: 32 }),
    {
        Self { side_length_meters: 32 }
    }
}

/// Why a terrain configuration is invalid.
#[derive(Debug, Eq, PartialEq, Structural)]
pub enum TerrainConfigValidationError {
    SideLengthMustBePositive,
}

impl ValidateConfig for TerrainConfig {
    type Error = TerrainConfigValidationError;

    open spec fn obeys_config_validation_spec() -> bool {
        true
    }

    open spec fn config_validation(&self) -> Result<(), TerrainConfigValidationError> {
        if self.side_length_meters == 0 {
            Err(TerrainConfigValidationError::SideLengthMustBePositive)
        } else {
            Ok(())
        }
    }

    fn validate(&self) -> (r: Result<(), TerrainConfigValidationError>)
        ensures
            r is Ok <==> self.side_length_meters > 0,
    {
        if self.side_length_meters == 0 {
            return Err(TerrainConfigValidationError::SideLengthMustBePositive);
        }
        Ok(())
    }
}

/// A terrain configuration is valid exactly when its side is positive: any
/// positive side, odd or even, is accepted, and a zero side is reported as
/// such. A valid configuration describes bounds with that side.
pub proof fn lemma_terrain_config_valid_iff(config: TerrainConfig)
    ensures
        config.config_validation() is Ok <==> config.side_length_meters > 0,
        config.side_length_meters == 0 ==> config.config_validation() == Err::<
            (),
            TerrainConfigValidationError,
        >(TerrainConfigValidationError::SideLengthMustBePositive),
{
}

impl TransformToRuntimeResourceConfig for TerrainConfig {
    type Runtime = TerrainBounds;
    type Error = TerrainConfigValidationError;

    open spec fn obeys_transform_spec() -> bool {
        true
    }

    open spec fn spec_transform(&self) -> Result<TerrainBounds, TerrainConfigValidationError> {
        Ok(TerrainBounds::spec_from_config(*self))
    }

    fn transform_to_runtime(&self) -> (r: Result<TerrainBounds, TerrainConfigValidationError>) {
        TerrainBounds::from_config(*self)
    }
}

} // verus!
