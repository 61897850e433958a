use pioneer::foundation::config::{
    ConfigPath, ConfigPlugin, ConfigSource, ConfigState, ConfigStatus, InitialLoadPolicy,
    RonConfigFormatLoader, RonConfigPlugin,
};
use pioneer::grid::GridConfig;
use std::path::Path;

#[test]
fn config_path_names_its_file_below_the_asset_root() {
    let path = ConfigPath::new("config/grid.ron");

    assert_eq!(path.asset_path(), "config/grid.ron");
    assert_eq!(
        path.file_system_path(),
        Path::new("assets").join("config/grid.ron")
    );
}

#[test]
fn config_source_names_its_path() {
    let path = ConfigPath::new("config/terrain.ron");

    assert_eq!(ConfigSource::Asset(path).path(), path);
    assert_eq!(ConfigSource::DefaultFallback(path).path(), path);
}

#[test]
fn config_state_starts_loading() {
    let state: ConfigState<GridConfig> = ConfigState::default();

    assert!(!state.is_resolved());
    assert_eq!(state.status(), &ConfigStatus::Loading);
    assert_eq!(state.source(), None);
}

#[test]
fn load_policies_hold_their_fallback() {
    assert!(matches!(
        InitialLoadPolicy::<GridConfig>::required(),
        InitialLoadPolicy::Required
    ));
    assert!(matches!(
        InitialLoadPolicy::<GridConfig>::fallback_to_default(),
        InitialLoadPolicy::FallbackToDefault { default } if default == GridConfig::default()
    ));
    let policy = InitialLoadPolicy::fallback_with(|| GridConfig {
        base_cell_size_cm: 2,
        building_cell_size_cm: 8,
    });
    let (config, source) = policy.handle_load_failure(ConfigPath::new("config/grid.ron"));
    assert_eq!(config.building_cell_size_cm, 8);
    assert_eq!(
        source,
        ConfigSource::DefaultFallback(ConfigPath::new("config/grid.ron"))
    );
}

#[test]
fn plugin_builder_keeps_path_and_policy() {
    let path = ConfigPath::new("config/grid.ron");
    let plugin: ConfigPlugin<GridConfig, RonConfigFormatLoader<GridConfig>, _, _> =
        RonConfigPlugin::<GridConfig>::new(path);
    assert!(matches!(plugin.input_policy(), InitialLoadPolicy::Required));

    let plugin = plugin
        .with_validation()
        .with_runtime_transformer()
        .fallback_to_default();
    assert_eq!(plugin.path(), path);
    assert!(matches!(
        plugin.input_policy(),
        InitialLoadPolicy::FallbackToDefault { .. }
    ));

    let plugin = plugin.with_input_policy(InitialLoadPolicy::required());
    assert!(matches!(plugin.input_policy(), InitialLoadPolicy::Required));
}
