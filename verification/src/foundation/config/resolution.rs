//! The decisions that keep a published configuration output in step with its
//! asset: what to publish when the asset loads or fails, and when a change
//! of the asset republishes it.
use crate::foundation::config::lifecycle::{ConfigSource, ConfigState, ConfigStatus, InitialLoadPolicy};
use crate::foundation::config::path::ConfigPath;
use vstd::prelude::*;

verus! {

/// The kind of a change that the asset store reports for an asset.
#[derive(Clone, Copy, Debug, Eq, PartialEq)]
pub enum ConfigAssetEventKind {
    Added,
    Modified,
    Removed,
    Unused,
    LoadedWithDependencies,
}

/// A change reported by the asset store, with whether it concerns the
/// configuration's own asset.
#[derive(Clone, Copy, Debug, Eq, PartialEq)]
pub struct ConfigAssetEvent {
    pub kind: ConfigAssetEventKind,
    pub for_config_asset: bool,
}

/// A modification of the configuration's asset always republishes it; its
/// addition does so only while the published output is a fallback.
pub open spec fn spec_event_requests_refresh(event: ConfigAssetEvent, source: ConfigSource) -> bool {
    event.for_config_asset && (event.kind is Modified || (event.kind is Added
        && source is DefaultFallback))
}

/// Whether any of `events` asks for the output published from `source` to be
/// republished.
pub open spec fn refresh_requested(events: Seq<ConfigAssetEvent>, source: ConfigSource) -> bool {
    exists|i: int| 0 <= i < events.len() && spec_event_requests_refresh(#[trigger] events[i], source)
}

pub fn event_requests_refresh(event: &ConfigAssetEvent, source: ConfigSource) -> (r: bool)
    ensures
        r == spec_event_requests_refresh(*event, source),
{
    event.for_config_asset && (match event.kind {
        ConfigAssetEventKind::Modified => true,
        ConfigAssetEventKind::Added => match source {
            ConfigSource::DefaultFallback(_) => true,
            ConfigSource::Asset(_) => false,
        },
        _ => false,
    })
}

/// What to do for a configuration in one update.
#[derive(Clone, Copy, Debug, Eq, PartialEq)]
pub enum ConfigOutputPlan {
    /// Nothing changes.
    Idle,
    /// A reload failed after an output was published: keep that output.
    KeepLastOutput,
    /// The initial load failed and the configuration is required: fatal.
    RequiredConfigFailed,
    /// Publish the fallback value, as the initial output.
    ProduceFallback { source: ConfigSource },
    /// Publish the loaded asset, as the initial output.
    ProduceInitial { source: ConfigSource },
    /// Republish the changed asset over the published output.
    ProduceRefresh { source: ConfigSource },
}

impl ConfigOutputPlan {
    /// Whether the plan asks for an output to be produced.
    pub open spec fn produces(self) -> bool {
        ||| self is ProduceFallback
        ||| self is ProduceInitial
        ||| self is ProduceRefresh
    }

    /// The source of the output that the plan produces.
    pub open spec fn spec_source(self) -> ConfigSource
        recommends
            self.produces(),
    {
        match self {
            ConfigOutputPlan::ProduceFallback { source } => source,
            ConfigOutputPlan::ProduceInitial { source } => source,
            ConfigOutputPlan::ProduceRefresh { source } => source,
            _ => arbitrary(),
        }
    }
}

/// The plan for one update of a configuration at `path` in `status`.
///
/// `load_failed` says whether the asset store reported a failed load of the
/// configuration's asset, `events` are its reports of changes (read only
/// once an output is published), and `asset_loaded` whether the asset is
/// available.
pub open spec fn spec_plan_config_output(
    status: ConfigStatus,
    falls_back: bool,
    path: ConfigPath,
    load_failed: bool,
    events: Seq<ConfigAssetEvent>,
    asset_loaded: bool,
) -> ConfigOutputPlan {
    if load_failed {
        match status {
            ConfigStatus::Resolved { .. } => ConfigOutputPlan::KeepLastOutput,
            ConfigStatus::Loading => if falls_back {
                ConfigOutputPlan::ProduceFallback { source: ConfigSource::DefaultFallback(path) }
            } else {
                ConfigOutputPlan::RequiredConfigFailed
            },
        }
    } else {
        match status {
            ConfigStatus::Loading => if asset_loaded {
                ConfigOutputPlan::ProduceInitial { source: ConfigSource::Asset(path) }
            } else {
                ConfigOutputPlan::Idle
            },
            ConfigStatus::Resolved { source } => if refresh_requested(events, source)
                && asset_loaded {
                ConfigOutputPlan::ProduceRefresh { source: ConfigSource::Asset(path) }
            } else {
                ConfigOutputPlan::Idle
            },
        }
    }
}

/// Decides what one update does for the configuration at `path`.
pub fn plan_config_output<T, O>(
    state: &ConfigState<O>,
    policy: &InitialLoadPolicy<T>,
    path: ConfigPath,
    load_failed: bool,
    events: &[ConfigAssetEvent],
    asset_loaded: bool,
) -> (r: ConfigOutputPlan)
    ensures
        r == spec_plan_config_output(
            state@,
            *policy is FallbackToDefault,
            path,
            load_failed,
            events@,
            asset_loaded,
        ),
        state@ is Loading && !load_failed && asset_loaded ==> r == (ConfigOutputPlan::ProduceInitial {
            source: ConfigSource::Asset(path),
        }),
        state@ is Loading && !load_failed && !asset_loaded ==> r == ConfigOutputPlan::Idle,
{
    if load_failed {
        return handle_config_load_failure(state, policy, path);
    }
    match state.status() {
        ConfigStatus::Loading => if asset_loaded {
            ConfigOutputPlan::ProduceInitial { source: ConfigSource::Asset(path) }
        } else {
            ConfigOutputPlan::Idle
        },
        ConfigStatus::Resolved { source } => {
            let source = *source;
            let mut requested = false;
            let mut i: usize = 0;
            while i < events.len()
                invariant
                    i <= events.len(),
                    requested == exists|j: int|
                        0 <= j < i && spec_event_requests_refresh(#[trigger] events@[j], source),
                decreases events.len() - i,
            {
                let hit = event_requests_refresh(&events[i], source);
                requested = requested || hit;
                i = i + 1;
            }
            if requested && asset_loaded {
                ConfigOutputPlan::ProduceRefresh { source: ConfigSource::Asset(path) }
            } else {
                ConfigOutputPlan::Idle
            }
        },
    }
}

/// What a failed load of the configuration's asset leads to.
pub fn handle_config_load_failure<T, O>(
    state: &ConfigState<O>,
    policy: &InitialLoadPolicy<T>,
    path: ConfigPath,
) -> (r: ConfigOutputPlan)
    ensures
        r == spec_plan_config_output(
            state@,
            *policy is FallbackToDefault,
            path,
            true,
            Seq::empty(),
            false,
        ),
{
    if state.is_resolved() {
        ConfigOutputPlan::KeepLastOutput
    } else {
        match policy {
            InitialLoadPolicy::Required => ConfigOutputPlan::RequiredConfigFailed,
            InitialLoadPolicy::FallbackToDefault { .. } => ConfigOutputPlan::ProduceFallback {
                source: ConfigSource::DefaultFallback(path),
            },
        }
    }
}

/// What comes of producing the output that a plan asked for.
#[derive(Debug)]
pub enum CommitOutcome<O, E> {
    /// Publish this output.
    Publish(O),
    /// The initial output could not be produced: fatal.
    InitialOutputFailed(E),
    /// A republished output could not be produced: keep the last one.
    KeepLastOutput(E),
}

/// The status after committing the result of `plan`, which produced an
/// output when `produced_ok`.
pub open spec fn spec_committed_status(
    status: ConfigStatus,
    plan: ConfigOutputPlan,
    produced_ok: bool,
) -> ConfigStatus {
    if plan.produces() && produced_ok {
        ConfigStatus::Resolved { source: plan.spec_source() }
    } else {
        status
    }
}

/// Records the result of producing the output that `plan` asked for.
pub fn commit_config_output<O, E>(
    state: &mut ConfigState<O>,
    plan: &ConfigOutputPlan,
    produced: Result<O, E>,
) -> (r: CommitOutcome<O, E>)
    requires
        plan.produces(),
    ensures
        final(state)@ == spec_committed_status(old(state)@, *plan, produced is Ok),
        produced matches Ok(o) ==> r == CommitOutcome::<O, E>::Publish(o),
        produced matches Err(e) ==> (*plan is ProduceRefresh ==> r == CommitOutcome::<
            O,
            E,
        >::KeepLastOutput(e)),
        produced matches Err(e) ==> (!(*plan is ProduceRefresh) ==> r == CommitOutcome::<
            O,
            E,
        >::InitialOutputFailed(e)),
{
    let source = match plan {
        ConfigOutputPlan::ProduceFallback { source } => *source,
        ConfigOutputPlan::ProduceInitial { source } => *source,
        ConfigOutputPlan::ProduceRefresh { source } => *source,
        _ => unreached(),
    };
    match produced {
        Ok(output) => {
            state.resolve(source);
            CommitOutcome::Publish(output)
        },
        Err(error) => match plan {
            ConfigOutputPlan::ProduceRefresh { .. } => CommitOutcome::KeepLastOutput(error),
            _ => CommitOutcome::InitialOutputFailed(error),
        },
    }
}

/// A loading configuration publishes its asset as soon as the asset is
/// available and no load failure was reported, whatever its policy for a
/// failed load, and waits while the asset is not available.
pub proof fn lemma_loaded_asset_is_published_whatever_policy(
    falls_back: bool,
    path: ConfigPath,
    events: Seq<ConfigAssetEvent>,
    asset_loaded: bool,
)
    ensures
        asset_loaded ==> spec_plan_config_output(
            ConfigStatus::Loading,
            falls_back,
            path,
            false,
            events,
            asset_loaded,
        ) == (ConfigOutputPlan::ProduceInitial { source: ConfigSource::Asset(path) }),
        !asset_loaded ==> spec_plan_config_output(
            ConfigStatus::Loading,
            falls_back,
            path,
            false,
            events,
            asset_loaded,
        ) == ConfigOutputPlan::Idle,
        asset_loaded ==> spec_committed_status(
            ConfigStatus::Loading,
            ConfigOutputPlan::ProduceInitial { source: ConfigSource::Asset(path) },
            true,
        ) == (ConfigStatus::Resolved { source: ConfigSource::Asset(path) }),
{
}

/// The policy for a failed initial load decides nothing unless a load
/// failed: without a reported failure, a required configuration and one
/// with a fallback are planned alike.
pub proof fn lemma_policy_matters_only_on_failure(
    status: ConfigStatus,
    path: ConfigPath,
    events: Seq<ConfigAssetEvent>,
    asset_loaded: bool,
)
    ensures
        spec_plan_config_output(status, true, path, false, events, asset_loaded)
            == spec_plan_config_output(status, false, path, false, events, asset_loaded),
{
}

/// Once an output is published, no update makes the configuration take its
/// fallback, fail fatally or return to loading, whatever it brings.
pub proof fn lemma_published_output_stays_published(
    status: ConfigStatus,
    falls_back: bool,
    path: ConfigPath,
    load_failed: bool,
    events: Seq<ConfigAssetEvent>,
    asset_loaded: bool,
    produced_ok: bool,
)
    requires
        status is Resolved,
    ensures
        ({
            let plan = spec_plan_config_output(
                status,
                falls_back,
                path,
                load_failed,
                events,
                asset_loaded,
            );
            &&& !(plan is RequiredConfigFailed)
            &&& !(plan is ProduceFallback)
            &&& !(plan is ProduceInitial)
            &&& spec_committed_status(status, plan, produced_ok) is Resolved
        }),
{
}

/// One update of a configuration: whether a load failure was reported, the
/// change reports, whether the asset is available, and whether producing
/// the requested output succeeded.
pub type ConfigFrame = (bool, Seq<ConfigAssetEvent>, bool, bool);

/// The status after the updates `frames`, from `status`.
pub open spec fn spec_resolve_frames(
    status: ConfigStatus,
    falls_back: bool,
    path: ConfigPath,
    frames: Seq<ConfigFrame>,
) -> ConfigStatus
    decreases frames.len(),
{
    if frames.len() == 0 {
        status
    } else {
        let frame = frames[0];
        let plan = spec_plan_config_output(status, falls_back, path, frame.0, frame.1, frame.2);
        spec_resolve_frames(
            spec_committed_status(status, plan, frame.3),
            falls_back,
            path,
            frames.drop_first(),
        )
    }
}

/// However many updates follow, a published configuration stays published,
/// and every source it is published from names its own path.
pub proof fn lemma_resolution_over_frames(
    status: ConfigStatus,
    falls_back: bool,
    path: ConfigPath,
    frames: Seq<ConfigFrame>,
)
    requires
        status matches ConfigStatus::Resolved { source } ==> source.spec_path() == path,
    ensures
        status is Resolved ==> spec_resolve_frames(status, falls_back, path, frames) is Resolved,
        spec_resolve_frames(status, falls_back, path, frames) matches ConfigStatus::Resolved {
            source,
        } ==> source.spec_path() == path,
    decreases frames.len(),
{
    if frames.len() > 0 {
        let frame = frames[0];
        let plan = spec_plan_config_output(status, falls_back, path, frame.0, frame.1, frame.2);
        let next = spec_committed_status(status, plan, frame.3);
        lemma_published_source_names_config_path(
            status,
            falls_back,
            path,
            frame.0,
            frame.1,
            frame.2,
            frame.3,
        );
        if status is Resolved {
            lemma_published_output_stays_published(
                status,
                falls_back,
                path,
                frame.0,
                frame.1,
                frame.2,
                frame.3,
            );
        }
        lemma_resolution_over_frames(next, falls_back, path, frames.drop_first());
    }
}

/// A failed reload keeps the published output and its source.
pub proof fn lemma_failed_reload_keeps_output(
    status: ConfigStatus,
    falls_back: bool,
    path: ConfigPath,
    events: Seq<ConfigAssetEvent>,
    asset_loaded: bool,
    produced_ok: bool,
)
    requires
        status is Resolved,
    ensures
        spec_plan_config_output(status, falls_back, path, true, events, asset_loaded)
            == ConfigOutputPlan::KeepLastOutput,
        spec_committed_status(status, ConfigOutputPlan::KeepLastOutput, produced_ok) == status,
{
}

/// A republished output that cannot be produced leaves the published one, and
/// its source, in place.
pub proof fn lemma_failed_republish_keeps_output(status: ConfigStatus, plan: ConfigOutputPlan)
    ensures
        spec_committed_status(status, plan, false) == status,
{
}

/// Every published output names the configuration's own path as its source.
pub proof fn lemma_published_source_names_config_path(
    status: ConfigStatus,
    falls_back: bool,
    path: ConfigPath,
    load_failed: bool,
    events: Seq<ConfigAssetEvent>,
    asset_loaded: bool,
    produced_ok: bool,
)
    requires
        status matches ConfigStatus::Resolved { source } ==> source.spec_path() == path,
    ensures
        spec_committed_status(
            status,
            spec_plan_config_output(status, falls_back, path, load_failed, events, asset_loaded),
            produced_ok,
        ) matches ConfigStatus::Resolved { source } ==> source.spec_path() == path,
{
}

/// While the fallback is published, the configuration's asset replaces it as
/// soon as the asset store reports it added.
pub proof fn lemma_added_asset_replaces_fallback(
    path: ConfigPath,
    falls_back: bool,
    events: Seq<ConfigAssetEvent>,
    i: int,
)
    requires
        0 <= i < events.len(),
        events[i] == (ConfigAssetEvent {
            kind: ConfigAssetEventKind::Added,
            for_config_asset: true,
        }),
    ensures
        ({
            let status = ConfigStatus::Resolved { source: ConfigSource::DefaultFallback(path) };
            let plan = spec_plan_config_output(status, falls_back, path, false, events, true);
            &&& plan == (ConfigOutputPlan::ProduceRefresh { source: ConfigSource::Asset(path) })
            &&& spec_committed_status(status, plan, true) == (ConfigStatus::Resolved {
                source: ConfigSource::Asset(path),
            })
        }),
{
    assert(spec_event_requests_refresh(events[i], ConfigSource::DefaultFallback(path)));
}

/// Changes of other assets never republish the configuration.
pub proof fn lemma_other_assets_are_ignored(
    status: ConfigStatus,
    falls_back: bool,
    path: ConfigPath,
    events: Seq<ConfigAssetEvent>,
    asset_loaded: bool,
)
    requires
        forall|i: int| 0 <= i < events.len() ==> !(#[trigger] events[i]).for_config_asset,
    ensures
        !(spec_plan_config_output(
            status,
            falls_back,
            path,
            false,
            events,
            asset_loaded,
        ) is ProduceRefresh),
{
}

/// While the asset itself is published, its addition alone does not
/// republish it; a modification does.
pub proof fn lemma_only_modification_refreshes_asset_output(path: ConfigPath, event: ConfigAssetEvent)
    requires
        event.for_config_asset,
    ensures
        spec_event_requests_refresh(event, ConfigSource::Asset(path)) <==> event.kind is Modified,
        spec_event_requests_refresh(event, ConfigSource::DefaultFallback(path)) <==> (
        event.kind is Modified || event.kind is Added),
{
}

} // verus!
