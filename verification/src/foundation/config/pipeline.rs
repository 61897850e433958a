use crate::foundation::config::error::ConfigLoadError;
use crate::foundation::config::format::ConfigFormatLoader;
use crate::foundation::config::validation::{NoConfigValidationError, Validate};
use vstd::prelude::*;

verus! {

/// Tags the outcome of a format loader with the asset path it came from.
pub fn finish_config_load<T, E>(loaded: Result<T, E>, path: &str) -> (r: Result<
    T,
    ConfigLoadError<E, NoConfigValidationError>,
>)
    ensures
        r matches Ok(c) ==> loaded == Ok::<T, E>(c),
        loaded matches Ok(c) ==> r == Ok::<T, ConfigLoadError<E, NoConfigValidationError>>(c),
        loaded matches Err(e) ==> (r matches Err(ConfigLoadError::Format { path: p, source }) && p@
            == path@ && source == e),
{
    match loaded {
        Ok(config) => Ok(config),
        Err(source) => Err(ConfigLoadError::Format { path: path.to_owned(), source }),
    }
}

/// Validates the outcome of a format loader, tagging either error with the
/// asset path it came from.
pub fn finish_validated_config_load<T: Validate, E>(loaded: Result<T, E>, path: &str) -> (r: Result<
    T,
    ConfigLoadError<E, T::Error>,
>)
    ensures
        loaded matches Err(e) ==> (r matches Err(ConfigLoadError::Format { path: p, source }) && p@
            == path@ && source == e),
        loaded matches Ok(c) ==> (r matches Ok(v) ==> v == c),
        loaded matches Ok(c) ==> (r matches Err(e) ==> (e matches ConfigLoadError::Validation {
            path: p,
            ..
        } && p@ == path@)),
        T::obeys_validation_spec() ==> (loaded matches Ok(c) ==> (c.validation() matches Ok(())
            ==> r == Ok::<T, ConfigLoadError<E, T::Error>>(c))),
        T::obeys_validation_spec() ==> (loaded matches Ok(c) ==> (c.validation() matches Err(v)
            ==> (r matches Err(ConfigLoadError::Validation { path: p, source }) && p@ == path@
            && source == v))),
{
    match loaded {
        Err(source) => Err(ConfigLoadError::Format { path: path.to_owned(), source }),
        Ok(config) => match config.validate() {
            Ok(()) => Ok(config),
            Err(source) => Err(ConfigLoadError::Validation { path: path.to_owned(), source }),
        },
    }
}

/// Loads a configuration from `bytes` with the format `F`, without
/// validation.
///
/// Whatever the format loader returns, a failure comes back as a format
/// error tagged with `path`, and a success comes back unchanged (see
/// `finish_config_load`); for a format that specifies its loading, that
/// outcome is stated for `spec_load`.
pub fn load_config_bytes<T, F: ConfigFormatLoader<T>>(bytes: &[u8], path: &str) -> (r: Result<
    T,
    ConfigLoadError<F::Error, NoConfigValidationError>,
>)
    ensures
        r matches Err(e) ==> (e matches ConfigLoadError::Format { path: p, .. } && p@ == path@),
        F::obeys_load_spec() ==> match F::spec_load(bytes@) {
            Ok(c) => r == Ok::<T, ConfigLoadError<F::Error, NoConfigValidationError>>(c),
            Err(e) => r matches Err(ConfigLoadError::Format { path: p, source }) && p@ == path@
                && source == e,
        },
{
    let loaded = F::default().load(bytes);
    finish_config_load(loaded, path)
}

/// Loads a configuration from `bytes` with the format `F` and validates it.
///
/// The format loader is handed `bytes`: for a format that states its loading,
/// a parse failure comes back as a format error carrying the loader's error,
/// and a parsed value is validated. Whatever the format loader returns, a
/// value comes back only when it passed validation, and every failure is
/// tagged with `path`.
pub fn load_validated_config_bytes<T: Validate, F: ConfigFormatLoader<T>>(
    bytes: &[u8],
    path: &str,
) -> (r: Result<T, ConfigLoadError<F::Error, T::Error>>)
    ensures
        F::obeys_load_spec() ==> match F::spec_load(bytes@) {
            Err(e) => r matches Err(ConfigLoadError::Format { path: p, source }) && p@ == path@
                && source == e,
            Ok(c) => T::obeys_validation_spec() ==> match c.validation() {
                Ok(()) => r == Ok::<T, ConfigLoadError<F::Error, T::Error>>(c),
                Err(v) => r matches Err(ConfigLoadError::Validation { path: p, source }) && p@
                    == path@ && source == v,
            },
        },
        T::obeys_validation_spec() ==> (r matches Ok(c) ==> c.validation() is Ok),
        r matches Err(e) ==> (e matches ConfigLoadError::Format { path: p, .. } && p@ == path@)
            || (e matches ConfigLoadError::Validation { path: p, .. } && p@ == path@),
{
    let loaded = F::default().load(bytes);
    finish_validated_config_load(loaded, path)
}

} // verus!
