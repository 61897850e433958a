use crate::terrain::config::TerrainConfig;
use vstd::prelude::*;

verus! {

/// The rendered terrain is current when neither its configuration nor the
/// landform changed and exactly one terrain root exists, rendered from the
/// current configuration.
pub open spec fn rendered_terrain_is_current(
    config: TerrainConfig,
    config_changed: bool,
    landform_changed: bool,
    rendered: Seq<TerrainConfig>,
) -> bool {
    &&& !config_changed
    &&& !landform_changed
    &&& rendered.len() == 1
    &&& rendered[0] == config
}

/// Whether the terrain must be rebuilt for `config`, given what changed and
/// the configurations that the existing terrain roots were rendered from.
pub fn needs_terrain_rebuild(
    config: TerrainConfig,
    config_changed: bool,
    landform_changed: bool,
    rendered: &[TerrainConfig],
) -> (r: bool)
    ensures
        r == !rendered_terrain_is_current(config, config_changed, landform_changed, rendered@),
{
    if config_changed || landform_changed || rendered.len() != 1 {
        return true;
    }
    rendered[0] != config
}

} // verus!
