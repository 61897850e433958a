use core::convert::Infallible;
use vstd::prelude::*;

verus! {

/// A configuration that publishes a runtime value built from it, rather than
/// itself.
///
/// An implementation that specifies its transformation sets
/// `obeys_transform_spec` and says in `spec_transform` what
/// `transform_to_runtime` gives; of any other, nothing is known.
pub trait TransformToRuntimeResourceConfig {
    type Runtime;
    type Error;

    /// Whether `transform_to_runtime` gives `spec_transform`.
    open spec fn obeys_transform_spec() -> bool {
        false
    }

    /// What `transform_to_runtime` gives for this configuration.
    open spec fn spec_transform(&self) -> Result<Self::Runtime, Self::Error> {
        arbitrary()
    }

    fn transform_to_runtime(&self) -> (r: Result<Self::Runtime, Self::Error>)
        ensures
            Self::obeys_transform_spec() ==> r == self.spec_transform(),
    ;
}

/// What a configuration plugin publishes for a configuration value `T`.
pub trait ConfigOutput<T> {
    type Output;
    type Error;

    /// Whether `out` is a result that `produce` may give for `raw`.
    spec fn produced(raw: T, out: Result<Self::Output, Self::Error>) -> bool;

    fn produce(raw: &T) -> (r: Result<Self::Output, Self::Error>)
        ensures
            Self::produced(*raw, r),
    ;
}

/// Publishes a copy of the configuration value itself.
#[derive(Default)]
pub struct RawResourceOutput;

/// Publishes the runtime value that the configuration transforms into.
#[derive(Default)]
pub struct RuntimeResourceOutput;

impl<T: Clone> ConfigOutput<T> for RawResourceOutput {
    type Output = T;
    type Error = Infallible;

    open spec fn produced(raw: T, out: Result<T, Infallible>) -> bool {
        out matches Ok(copy) && cloned(raw, copy)
    }

    fn produce(raw: &T) -> (r: Result<T, Infallible>) {
        Ok(raw.clone())
    }
}

impl<T: TransformToRuntimeResourceConfig> ConfigOutput<T> for RuntimeResourceOutput {
    type Output = T::Runtime;
    type Error = T::Error;

    open spec fn produced(raw: T, out: Result<T::Runtime, T::Error>) -> bool {
        T::obeys_transform_spec() ==> out == raw.spec_transform()
    }

    fn produce(raw: &T) -> (r: Result<T::Runtime, T::Error>) {
        raw.transform_to_runtime()
    }
}

} // verus!
