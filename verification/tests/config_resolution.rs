use pioneer::foundation::config::{
    commit_config_output, event_requests_refresh, plan_config_output, CommitOutcome,
    ConfigAssetEvent, ConfigAssetEventKind, ConfigOutput, ConfigOutputPlan, ConfigPath,
    ConfigPlugin, ConfigSource, ConfigState, ConfigStatus, InitialLoadPolicy, RawResourceOutput,
    RonConfigPlugin, RuntimeResourceOutput, TransformToRuntimeResourceConfig,
};
use pioneer::grid::{GridConfig, GridSet};
use std::fmt::{Debug, Display, Formatter};

fn test_config_path() -> ConfigPath {
    ConfigPath::new("config/grid.ron")
}

fn missing_config_path() -> ConfigPath {
    ConfigPath::new("config/missing-config.ron")
}

fn missing_grid_config_path() -> ConfigPath {
    ConfigPath::new("config/missing-grid.ron")
}

/// Drives the resolution decisions of one configuration the way the
/// application's update system does, one `update` per frame.
struct Resolver<T, O: ConfigOutput<T>> {
    path: ConfigPath,
    policy: InitialLoadPolicy<T>,
    state: ConfigState<O::Output>,
    asset: Option<T>,
    failures: Vec<bool>,
    events: Vec<ConfigAssetEvent>,
    output: Option<O::Output>,
}

impl<T: Clone, O: ConfigOutput<T>> Resolver<T, O>
where
    O::Error: Debug,
{
    fn new<L, V>(plugin: ConfigPlugin<T, L, V, O>) -> Self {
        Self {
            path: plugin.path(),
            policy: plugin.input_policy().clone(),
            state: ConfigState::default(),
            asset: None,
            failures: Vec::new(),
            events: Vec::new(),
            output: None,
        }
    }

    fn insert_asset(&mut self, config: T) {
        let kind = if self.asset.is_some() {
            ConfigAssetEventKind::Modified
        } else {
            ConfigAssetEventKind::Added
        };
        self.asset = Some(config);
        self.events.push(ConfigAssetEvent {
            kind,
            for_config_asset: true,
        });
    }

    fn insert_other_asset(&mut self, added: bool) {
        let kind = if added {
            ConfigAssetEventKind::Added
        } else {
            ConfigAssetEventKind::Modified
        };
        self.events.push(ConfigAssetEvent {
            kind,
            for_config_asset: false,
        });
    }

    fn write_load_failure(&mut self) {
        self.failures.push(true);
    }

    fn update(&mut self) {
        let mut load_failed = false;
        while !self.failures.is_empty() {
            if self.failures.remove(0) {
                load_failed = true;
                break;
            }
        }
        let events: Vec<ConfigAssetEvent> = if !load_failed && self.state.is_resolved() {
            self.events.drain(..).collect()
        } else {
            Vec::new()
        };
        let plan = plan_config_output(
            &self.state,
            &self.policy,
            self.path,
            load_failed,
            &events,
            self.asset.is_some(),
        );
        let produced = match plan {
            ConfigOutputPlan::Idle | ConfigOutputPlan::KeepLastOutput => return,
            ConfigOutputPlan::RequiredConfigFailed => panic!("required config failed to load"),
            ConfigOutputPlan::ProduceFallback { .. } => {
                let (config, _) = self.policy.clone().handle_load_failure(self.path);
                O::produce(&config)
            }
            ConfigOutputPlan::ProduceInitial { .. } | ConfigOutputPlan::ProduceRefresh { .. } => {
                O::produce(self.asset.as_ref().unwrap())
            }
        };
        match commit_config_output(&mut self.state, &plan, produced) {
            CommitOutcome::Publish(output) => self.output = Some(output),
            CommitOutcome::InitialOutputFailed(error) => panic!("initial output failed: {error:?}"),
            CommitOutcome::KeepLastOutput(_) => {}
        }
    }
}

#[derive(Clone, Debug)]
struct TransformingTestConfig {
    base_cell_size_cm: u32,
    building_cell_size_cm: u32,
}

impl TransformToRuntimeResourceConfig for TransformingTestConfig {
    type Runtime = RuntimeTestConfig;
    type Error = TestTransformError;

    fn transform_to_runtime(&self) -> Result<Self::Runtime, Self::Error> {
        if self.base_cell_size_cm == 0 {
            return Err(TestTransformError);
        }

        Ok(RuntimeTestConfig {
            base_cells_per_building_cell: self.building_cell_size_cm / self.base_cell_size_cm,
        })
    }
}

#[derive(Debug)]
struct TestTransformError;

impl Display for TestTransformError {
    fn fmt(&self, formatter: &mut Formatter<'_>) -> std::fmt::Result {
        formatter.write_str("base cell size must be greater than zero")
    }
}

#[derive(Debug, Eq, PartialEq)]
struct RuntimeTestConfig {
    base_cells_per_building_cell: u32,
}

#[derive(Clone, Debug)]
struct RawTestConfig {
    base_cell_size_cm: u32,
    building_cell_size_cm: u32,
}

fn runtime_config_app(
    path: ConfigPath,
) -> Resolver<TransformingTestConfig, RuntimeResourceOutput> {
    Resolver::new(
        RonConfigPlugin::<TransformingTestConfig>::new(path)
            .with_runtime_transformer()
            .fallback_with(|| TransformingTestConfig {
                base_cell_size_cm: 5,
                building_cell_size_cm: 50,
            }),
    )
}

fn resolved_runtime_config_app() -> Resolver<TransformingTestConfig, RuntimeResourceOutput> {
    let mut app = runtime_config_app(test_config_path());
    app.update();
    app.insert_asset(TransformingTestConfig {
        base_cell_size_cm: 5,
        building_cell_size_cm: 50,
    });
    app.update();
    app
}

#[test]
fn added_asset_requests_refresh_only_while_serving_fallback() {
    let event = ConfigAssetEvent {
        kind: ConfigAssetEventKind::Added,
        for_config_asset: true,
    };

    assert!(!event_requests_refresh(
        &event,
        ConfigSource::Asset(test_config_path())
    ));
    assert!(event_requests_refresh(
        &event,
        ConfigSource::DefaultFallback(test_config_path())
    ));
}

#[test]
fn modified_asset_always_requests_refresh() {
    let event = ConfigAssetEvent {
        kind: ConfigAssetEventKind::Modified,
        for_config_asset: true,
    };

    assert!(event_requests_refresh(
        &event,
        ConfigSource::Asset(test_config_path())
    ));
    assert!(event_requests_refresh(
        &event,
        ConfigSource::DefaultFallback(test_config_path())
    ));
}

#[test]
fn events_of_other_assets_never_request_refresh() {
    for kind in [
        ConfigAssetEventKind::Added,
        ConfigAssetEventKind::Modified,
        ConfigAssetEventKind::Removed,
        ConfigAssetEventKind::Unused,
        ConfigAssetEventKind::LoadedWithDependencies,
    ] {
        let event = ConfigAssetEvent {
            kind,
            for_config_asset: false,
        };
        assert!(!event_requests_refresh(
            &event,
            ConfigSource::DefaultFallback(test_config_path())
        ));
    }
}

#[test]
fn loaded_config_is_transformed_into_runtime_resource() {
    let mut app = runtime_config_app(test_config_path());
    app.update();

    app.insert_asset(TransformingTestConfig {
        base_cell_size_cm: 5,
        building_cell_size_cm: 50,
    });

    app.update();

    assert_eq!(
        app.output.as_ref().unwrap().base_cells_per_building_cell,
        10
    );
    assert_eq!(
        app.state.status(),
        &ConfigStatus::Resolved {
            source: ConfigSource::Asset(test_config_path())
        }
    );
}

#[test]
fn fallback_config_is_transformed_when_asset_load_fails() {
    let mut app = runtime_config_app(missing_config_path());
    app.update();

    app.write_load_failure();
    app.update();

    assert_eq!(
        app.output.as_ref().unwrap().base_cells_per_building_cell,
        10
    );
    assert_eq!(
        app.state.status(),
        &ConfigStatus::Resolved {
            source: ConfigSource::DefaultFallback(missing_config_path())
        }
    );
}

#[test]
fn fallback_raw_config_resolves_raw_config_resource() {
    let mut app: Resolver<RawTestConfig, RawResourceOutput> = Resolver::new(
        RonConfigPlugin::<RawTestConfig>::new(missing_config_path()).fallback_with(|| {
            RawTestConfig {
                base_cell_size_cm: 5,
                building_cell_size_cm: 50,
            }
        }),
    );
    app.update();

    app.write_load_failure();
    app.update();

    let config = app.output.as_ref().unwrap();
    assert_eq!(config.base_cell_size_cm, 5);
    assert_eq!(config.building_cell_size_cm, 50);
    assert_eq!(
        app.state.status(),
        &ConfigStatus::Resolved {
            source: ConfigSource::DefaultFallback(missing_config_path())
        }
    );
}

#[test]
fn modified_config_asset_updates_runtime_resource() {
    let mut app = resolved_runtime_config_app();
    app.insert_asset(TransformingTestConfig {
        base_cell_size_cm: 5,
        building_cell_size_cm: 100,
    });

    app.update();
    app.update();

    assert_eq!(
        app.output,
        Some(RuntimeTestConfig {
            base_cells_per_building_cell: 20
        })
    );
}

#[test]
fn modified_unrelated_config_asset_is_ignored() {
    let mut app = resolved_runtime_config_app();
    app.insert_other_asset(true);
    app.update();

    app.insert_other_asset(false);
    app.update();
    app.update();

    assert_eq!(
        app.output,
        Some(RuntimeTestConfig {
            base_cells_per_building_cell: 10
        })
    );
}

#[test]
fn failed_reload_keeps_last_resolved_output() {
    let mut app = resolved_runtime_config_app();
    app.write_load_failure();

    app.update();

    assert_eq!(
        app.output,
        Some(RuntimeTestConfig {
            base_cells_per_building_cell: 10
        })
    );
    assert_eq!(
        app.state.source(),
        Some(ConfigSource::Asset(test_config_path()))
    );
}

#[test]
fn failed_reload_transform_keeps_last_resolved_output() {
    let mut app = resolved_runtime_config_app();
    app.insert_asset(TransformingTestConfig {
        base_cell_size_cm: 0,
        building_cell_size_cm: 100,
    });

    app.update();
    app.update();

    assert_eq!(
        app.output,
        Some(RuntimeTestConfig {
            base_cells_per_building_cell: 10
        })
    );
    assert_eq!(
        app.state.source(),
        Some(ConfigSource::Asset(test_config_path()))
    );
}

#[test]
fn added_config_asset_recovers_from_default_fallback() {
    let mut app = runtime_config_app(missing_config_path());
    app.update();
    app.write_load_failure();
    app.update();

    app.insert_asset(TransformingTestConfig {
        base_cell_size_cm: 5,
        building_cell_size_cm: 100,
    });
    app.update();
    app.update();

    assert_eq!(
        app.output,
        Some(RuntimeTestConfig {
            base_cells_per_building_cell: 20
        })
    );
    assert_eq!(
        app.state.source(),
        Some(ConfigSource::Asset(missing_config_path()))
    );
}

#[test]
fn loaded_grid_config_is_applied_as_grid_set_resource() {
    let mut app: Resolver<GridConfig, RuntimeResourceOutput> = Resolver::new(
        RonConfigPlugin::<GridConfig>::new(test_config_path())
            .with_validation()
            .with_runtime_transformer()
            .fallback_to_default(),
    );
    app.update();

    app.insert_asset(GridConfig::default());

    app.update();
    app.update();

    let grid_set: &GridSet = app.output.as_ref().unwrap();
    assert_eq!(grid_set.building_cell_size_in_base_cells(), 10);
    assert!(app.state.is_resolved());
    assert_eq!(
        app.state.status(),
        &ConfigStatus::Resolved {
            source: ConfigSource::Asset(test_config_path())
        }
    );
}

#[test]
fn fallback_grid_config_uses_default_when_asset_load_fails() {
    let mut app: Resolver<GridConfig, RuntimeResourceOutput> = Resolver::new(
        RonConfigPlugin::<GridConfig>::new(missing_grid_config_path())
            .with_validation()
            .with_runtime_transformer()
            .fallback_to_default(),
    );
    app.update();

    app.write_load_failure();

    app.update();
    app.update();

    let grid_set: &GridSet = app.output.as_ref().unwrap();
    assert_eq!(grid_set.building_cell_size_in_base_cells(), 10);
    assert_eq!(
        app.state.status(),
        &ConfigStatus::Resolved {
            source: ConfigSource::DefaultFallback(missing_grid_config_path())
        }
    );
}

#[test]
fn fallback_grid_config_without_runtime_resolves_grid_config_resource() {
    let mut app: Resolver<GridConfig, RawResourceOutput> = Resolver::new(
        RonConfigPlugin::<GridConfig>::new(missing_grid_config_path())
            .with_validation()
            .fallback_to_default(),
    );
    app.update();

    app.write_load_failure();

    app.update();

    assert_eq!(app.output, Some(GridConfig::default()));
    assert_eq!(
        app.state.status(),
        &ConfigStatus::Resolved {
            source: ConfigSource::DefaultFallback(missing_grid_config_path())
        }
    );
}

#[test]
fn required_config_failure_is_fatal() {
    let plugin = RonConfigPlugin::<RawTestConfig>::new(missing_config_path());
    let state: ConfigState<RawTestConfig> = ConfigState::default();

    let plan = plan_config_output(
        &state,
        plugin.input_policy(),
        plugin.path(),
        true,
        &[],
        false,
    );

    assert_eq!(plan, ConfigOutputPlan::RequiredConfigFailed);
}

#[test]
fn load_failures_of_other_assets_are_skipped() {
    let mut app = runtime_config_app(missing_config_path());
    app.failures.push(false);
    app.update();

    assert_eq!(app.state.status(), &ConfigStatus::Loading);
    assert!(app.output.is_none());
}
