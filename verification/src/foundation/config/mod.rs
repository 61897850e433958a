mod asset;
mod error;
mod format;
mod lifecycle;
mod output;
mod path;
mod pipeline;
mod plugin;
mod resolution;
mod ron;
mod validation;

pub use asset::{finish_config_asset_load, ConfigAsset, ConfigAssetLoader};
pub use error::ConfigLoadError;
pub use format::ConfigFormatLoader;
pub use lifecycle::{ConfigSource, ConfigState, ConfigStatus, InitialLoadPolicy};
pub use output::{
    ConfigOutput, RawResourceOutput, RuntimeResourceOutput, TransformToRuntimeResourceConfig,
};
pub use path::{joined_path, ConfigPath, ASSET_ROOT_DIR};
pub(crate) use path::path_from_components;
pub use plugin::ConfigPlugin;
pub use pipeline::{
    finish_config_load, finish_validated_config_load, load_config_bytes, load_validated_config_bytes,
};
pub use ron::{
    spec_ron_load, RonConfigFormatError, RonConfigFormatLoader, RonConfigPlugin, RonDeserialize,
};
pub use validation::{
    ConfigValidation, NoConfigValidation, NoConfigValidationError, Validate, ValidateConfig,
    WithValidation,
};
pub use resolution::{
    commit_config_output, event_requests_refresh, handle_config_load_failure,
    lemma_added_asset_replaces_fallback, lemma_failed_reload_keeps_output,
    lemma_failed_republish_keeps_output, lemma_loaded_asset_is_published_whatever_policy,
    lemma_policy_matters_only_on_failure, lemma_only_modification_refreshes_asset_output,
    lemma_other_assets_are_ignored, lemma_published_output_stays_published,
    lemma_published_source_names_config_path, lemma_resolution_over_frames, plan_config_output,
    refresh_requested, spec_committed_status, spec_event_requests_refresh,
    spec_plan_config_output, spec_resolve_frames, CommitOutcome, ConfigAssetEvent,
    ConfigAssetEventKind, ConfigFrame, ConfigOutputPlan,
};
