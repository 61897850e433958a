use crate::foundation::config::path::ConfigPath;
use std::marker::PhantomData;
use vstd::prelude::*;

verus! {

/// What happens when a configuration fails to load before any value of it
/// was published.
#[derive(Clone, Debug)]
pub enum InitialLoadPolicy<T> {
    /// The configuration must load; a failure is fatal.
    Required,
    /// A failure publishes `default` instead.
    FallbackToDefault { default: T },
}

impl<T> InitialLoadPolicy<T> {
    pub fn required() -> (r: Self)
        ensures
            r is Required,
    {
        Self::Required
    }

    /// Falls back to the value that `default` makes. `default` is called
    /// once, when the policy is built, and the value it makes is kept.
    pub fn fallback_with<F: Fn() -> T>(default: F) -> (r: Self)
        requires
            default.requires(()),
        ensures
            r matches Self::FallbackToDefault { default: d } && default.ensures((), d),
    {
        Self::FallbackToDefault { default: default() }
    }

    /// Falls back to `T::default()`, which is called once, when the policy is
    /// built, and the value it makes is kept.
    pub fn fallback_to_default() -> (r: Self) where T: Default
        ensures
            r matches Self::FallbackToDefault { default } && call_ensures(T::default, (), default),
    {
        Self::FallbackToDefault { default: T::default() }
    }

    /// The value and source published when the initial load failed. Only a
    /// fallback policy has one: a required configuration that failed is
    /// fatal.
    pub fn handle_load_failure(self, path: ConfigPath) -> (r: (T, ConfigSource))
        requires
            self is FallbackToDefault,
        ensures
            self matches Self::FallbackToDefault { default } && r.0 == default,
            r.1 == ConfigSource::DefaultFallback(path),
    {
        match self {
            Self::FallbackToDefault { default } => (default, ConfigSource::DefaultFallback(path)),
            Self::Required => (unreached(), ConfigSource::DefaultFallback(path)),
        }
    }
}

/// Where a published configuration value came from.
#[derive(Clone, Copy, Debug, Eq, PartialEq)]
pub enum ConfigSource {
    /// The asset at the path.
    Asset(ConfigPath),
    /// The fallback used because the asset at the path failed to load.
    DefaultFallback(ConfigPath),
}

impl ConfigSource {
    pub open spec fn spec_path(self) -> ConfigPath {
        match self {
            ConfigSource::Asset(path) => path,
            ConfigSource::DefaultFallback(path) => path,
        }
    }

    pub fn path(self) -> (r: ConfigPath)
        ensures
            r == self.spec_path(),
    {
        match self {
            ConfigSource::Asset(path) => path,
            ConfigSource::DefaultFallback(path) => path,
        }
    }
}

/// Whether a configuration output has been published yet.
#[derive(Clone, Debug, Eq, PartialEq)]
pub enum ConfigStatus {
    Loading,
    Resolved { source: ConfigSource },
}

/// The resolution state of one configuration output `T`.
pub struct ConfigState<T> {
    status: ConfigStatus,
    _marker: PhantomData<T>,
}

impl<T> View for ConfigState<T> {
    type V = ConfigStatus;

    closed spec fn view(&self) -> ConfigStatus {
        self.status
    }
}

impl<T> Default for ConfigState<T> {
    fn default() -> (r: Self)
        ensures
            r@ == ConfigStatus::Loading,
    {
        Self { status: ConfigStatus::Loading, _marker: PhantomData }
    }
}

impl<T> ConfigState<T> {
    pub fn is_resolved(&self) -> (r: bool)
        ensures
            r == (self@ is Resolved),
    {
        match self.status {
            ConfigStatus::Loading => false,
            ConfigStatus::Resolved { .. } => true,
        }
    }

    pub fn status(&self) -> (r: &ConfigStatus)
        ensures
            *r == self@,
    {
        &self.status
    }

    /// Records that an output from `source` has been published.
    pub(crate) fn resolve(&mut self, source: ConfigSource)
        ensures
            final(self)@ == (ConfigStatus::Resolved { source }),
    {
        self.status = ConfigStatus::Resolved { source };
    }

    pub fn source(&self) -> (r: Option<ConfigSource>)
        ensures
            r == match self@ {
                ConfigStatus::Loading => None,
                ConfigStatus::Resolved { source } => Some(source),
            },
    {
        match self.status {
            ConfigStatus::Loading => None,
            ConfigStatus::Resolved { source } => Some(source),
        }
    }
}

} // verus!
