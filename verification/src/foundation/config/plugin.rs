use crate::foundation::config::lifecycle::InitialLoadPolicy;
use crate::foundation::config::output::{RawResourceOutput, RuntimeResourceOutput, TransformToRuntimeResourceConfig};
use crate::foundation::config::path::ConfigPath;
use crate::foundation::config::validation::{NoConfigValidation, ValidateConfig, WithValidation};
use std::marker::PhantomData;
use vstd::prelude::*;

verus! {

/// How one configuration is loaded and published: the asset path, the
/// policy for an initial load failure, the format `L`, the validation step
/// `V` and the published output `O`.
pub struct ConfigPlugin<T, L, V, O> {
    path: ConfigPath,
    input_policy: InitialLoadPolicy<T>,
    _loader: PhantomData<L>,
    _validation: PhantomData<V>,
    _output: PhantomData<O>,
}

impl<T, L> ConfigPlugin<T, L, NoConfigValidation, RawResourceOutput> {
    /// A required configuration at `path`, unvalidated, published as is.
    pub fn new(path: ConfigPath) -> (r: Self)
        ensures
            r.spec_path() == path,
            r.spec_input_policy() is Required,
    {
        Self {
            path,
            input_policy: InitialLoadPolicy::required(),
            _loader: PhantomData,
            _validation: PhantomData,
            _output: PhantomData,
        }
    }
}

impl<T, L, V, O> ConfigPlugin<T, L, V, O> {
    pub closed spec fn spec_path(&self) -> ConfigPath {
        self.path
    }

    pub closed spec fn spec_input_policy(&self) -> InitialLoadPolicy<T> {
        self.input_policy
    }

    pub fn path(&self) -> (r: ConfigPath)
        ensures
            r == self.spec_path(),
    {
        self.path
    }

    pub fn input_policy(&self) -> (r: &InitialLoadPolicy<T>)
        ensures
            *r == self.spec_input_policy(),
    {
        &self.input_policy
    }

    /// Validates the configuration with its own `ValidateConfig` impl.
    pub fn with_validation(self) -> (r: ConfigPlugin<T, L, WithValidation, O>) where
        T: ValidateConfig,

        ensures
            r.spec_path() == self.spec_path(),
            r.spec_input_policy() == self.spec_input_policy(),
    {
        ConfigPlugin {
            path: self.path,
            input_policy: self.input_policy,
            _loader: PhantomData,
            _validation: PhantomData,
            _output: PhantomData,
        }
    }

    pub fn with_input_policy(self, input_policy: InitialLoadPolicy<T>) -> (r: Self)
        ensures
            r.spec_path() == self.spec_path(),
            r.spec_input_policy() == input_policy,
    {
        let mut plugin = self;
        plugin.input_policy = input_policy;
        plugin
    }

    /// Falls back to the value that `default` makes when the initial load
    /// fails.
    pub fn fallback_with<F: Fn() -> T>(self, default: F) -> (r: Self)
        requires
            default.requires(()),
        ensures
            r.spec_path() == self.spec_path(),
            r.spec_input_policy() matches InitialLoadPolicy::FallbackToDefault { default: d }
                && default.ensures((), d),
    {
        self.with_input_policy(InitialLoadPolicy::fallback_with(default))
    }

    /// Falls back to `T::default()` when the initial load fails.
    pub fn fallback_to_default(self) -> (r: Self) where T: Default
        ensures
            r.spec_path() == self.spec_path(),
            r.spec_input_policy() matches InitialLoadPolicy::FallbackToDefault { default }
                && call_ensures(T::default, (), default),
    {
        self.with_input_policy(InitialLoadPolicy::fallback_to_default())
    }
}

impl<T, L, V> ConfigPlugin<T, L, V, RawResourceOutput> {
    /// Publishes the runtime value that the configuration transforms into.
    pub fn with_runtime_transformer(self) -> (r: ConfigPlugin<T, L, V, RuntimeResourceOutput>) where
        T: TransformToRuntimeResourceConfig,

        ensures
            r.spec_path() == self.spec_path(),
            r.spec_input_policy() == self.spec_input_policy(),
    {
        ConfigPlugin {
            path: self.path,
            input_policy: self.input_policy,
            _loader: PhantomData,
            _validation: PhantomData,
            _output: PhantomData,
        }
    }
}

} // verus!
