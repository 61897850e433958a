use crate::foundation::config::error::ConfigLoadError;
use crate::foundation::config::format::ConfigFormatLoader;
use crate::foundation::config::validation::ConfigValidation;
use std::marker::PhantomData;
use vstd::prelude::*;

verus! {

/// A loaded configuration value, as the asset store holds it.
pub struct ConfigAsset<T> {
    value: T,
}

impl<T> ConfigAsset<T> {
    pub closed spec fn spec_value(&self) -> T {
        self.value
    }

    pub fn new(value: T) -> (r: Self)
        ensures
            r.spec_value() == value,
    {
        Self { value }
    }

    pub fn value(&self) -> (r: &T)
        ensures
            *r == self.spec_value(),
    {
        &self.value
    }
}

/// Turns the bytes of a configuration asset into a validated value: a format
/// `F` and a validation step `V` for values of `T`.
pub struct ConfigAssetLoader<T, F, V> {
    format_loader: F,
    validation: V,
    _marker: PhantomData<T>,
}

impl<T, F: Default, V: Default> Default for ConfigAssetLoader<T, F, V> {
    fn default() -> Self {
        Self { format_loader: F::default(), validation: V::default(), _marker: PhantomData }
    }
}

/// Validates the format loader's outcome `loaded` with `validation`, and tags
/// either failure with the asset path.
pub fn finish_config_asset_load<T, FE, V: ConfigValidation<T>>(
    loaded: Result<T, FE>,
    validation: &V,
    path: &str,
) -> (r: Result<ConfigAsset<T>, ConfigLoadError<FE, V::Error>>)
    ensures
        loaded matches Err(e) ==> (r matches Err(ConfigLoadError::Format { path: p, source }) && p@
            == path@ && source == e),
        loaded matches Ok(c) ==> (r matches Ok(asset) ==> asset.spec_value() == c),
        loaded matches Ok(c) ==> (r matches Err(e) ==> (e matches ConfigLoadError::Validation {
            path: p,
            ..
        } && p@ == path@)),
        V::obeys_validate_spec() ==> (loaded matches Ok(c) ==> (validation.spec_validate(&c)
            matches Ok(()) ==> (r matches Ok(asset) && asset.spec_value() == c))),
        V::obeys_validate_spec() ==> (loaded matches Ok(c) ==> (validation.spec_validate(&c)
            matches Err(v) ==> (r matches Err(ConfigLoadError::Validation { path: p, source })
            && p@ == path@ && source == v))),
{
    match loaded {
        Err(source) => Err(ConfigLoadError::Format { path: path.to_owned(), source }),
        Ok(config) => match validation.validate(&config) {
            Ok(()) => Ok(ConfigAsset::new(config)),
            Err(source) => Err(ConfigLoadError::Validation { path: path.to_owned(), source }),
        },
    }
}

impl<T, F: ConfigFormatLoader<T>, V: ConfigValidation<T>> ConfigAssetLoader<T, F, V> {
    pub closed spec fn spec_validation(&self) -> V {
        self.validation
    }

    /// Loads the bytes read from the asset at `path`.
    ///
    /// The format loader is handed `bytes`: for a format that states its
    /// loading, a parse failure comes back as a format error carrying the
    /// loader's error, and a parsed value is validated. Whatever the format
    /// loader returns, an asset comes back only when its value passed
    /// validation, and every failure is tagged with `path`.
    pub fn load_bytes(&self, bytes: &[u8], path: &str) -> (r: Result<
        ConfigAsset<T>,
        ConfigLoadError<F::Error, V::Error>,
    >)
        ensures
            F::obeys_load_spec() ==> match F::spec_load(bytes@) {
                Err(e) => r matches Err(ConfigLoadError::Format { path: p, source }) && p@ == path@
                    && source == e,
                Ok(c) => V::obeys_validate_spec() ==> match self.spec_validation().spec_validate(&c) {
                    Ok(()) => r matches Ok(asset) && asset.spec_value() == c,
                    Err(v) => r matches Err(ConfigLoadError::Validation { path: p, source }) && p@
                        == path@ && source == v,
                },
            },
            V::obeys_validate_spec() ==> (r matches Ok(asset) ==> self.spec_validation().spec_validate(
                &asset.spec_value(),
            ) is Ok),
            r matches Err(e) ==> (e matches ConfigLoadError::Format { path: p, .. } && p@ == path@)
                || (e matches ConfigLoadError::Validation { path: p, .. } && p@ == path@),
    {
        let loaded = self.format_loader.load(bytes);
        finish_config_asset_load(loaded, &self.validation, path)
    }

    /// The extensions of the format loader.
    pub fn extensions(&self) -> (r: &'static [&'static str])
        ensures
            F::obeys_extensions_spec() ==> r@.map_values(|e: &str| e@) == F::spec_extensions(),
    {
        self.format_loader.extensions()
    }
}

} // verus!
