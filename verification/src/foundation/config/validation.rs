use vstd::prelude::*;

verus! {

/// A configuration value that can check its own invariants.
///
/// An implementation that specifies its check sets `obeys_validation_spec`
/// and says in `validation` what `validate` reports; of any other, nothing
/// is known.
pub trait Validate: Sized {
    type Error;

    /// Whether `validate` reports `validation`.
    open spec fn obeys_validation_spec() -> bool {
        false
    }

    /// What `validate` reports for this value.
    open spec fn validation(&self) -> Result<(), Self::Error> {
        arbitrary()
    }

    fn validate(&self) -> (r: Result<(), Self::Error>)
        ensures
            Self::obeys_validation_spec() ==> r == self.validation(),
    ;

    /// Hands the value back when it is valid.
    fn validated(self) -> (r: Result<Self, Self::Error>)
        ensures
            Self::obeys_validation_spec() ==> r == match self.validation() {
                Ok(()) => Ok(self),
                Err(e) => Err(e),
            },
            r matches Ok(v) ==> v == self,
    {
        match self.validate() {
            Ok(()) => Ok(self),
            Err(e) => Err(e),
        }
    }
}

/// A configuration value that can check its own invariants before a plugin
/// publishes it.
///
/// An implementation that specifies its check sets
/// `obeys_config_validation_spec` and says in `config_validation` what
/// `validate` reports; of any other, nothing is known.
pub trait ValidateConfig: Sized {
    type Error;

    /// Whether `validate` reports `config_validation`.
    open spec fn obeys_config_validation_spec() -> bool {
        false
    }

    /// What `validate` reports for this value.
    open spec fn config_validation(&self) -> Result<(), Self::Error> {
        arbitrary()
    }

    fn validate(&self) -> (r: Result<(), Self::Error>)
        ensures
            Self::obeys_config_validation_spec() ==> r == self.config_validation(),
    ;

    /// Hands the value back when it is valid.
    fn validated(self) -> (r: Result<Self, Self::Error>)
        ensures
            Self::obeys_config_validation_spec() ==> r == match self.config_validation() {
                Ok(()) => Ok(self),
                Err(e) => Err(e),
            },
            r matches Ok(v) ==> v == self,
    {
        match self.validate() {
            Ok(()) => Ok(self),
            Err(e) => Err(e),
        }
    }
}

/// The validation step of a configuration plugin.
///
/// An implementation that specifies its check sets `obeys_validate_spec`
/// and says in `spec_validate` what `validate` reports; of any other,
/// nothing is known.
pub trait ConfigValidation<T>: Default {
    type Error;

    /// Whether `validate` reports `spec_validate`.
    open spec fn obeys_validate_spec() -> bool {
        false
    }

    /// What `validate` reports for `config`.
    open spec fn spec_validate(&self, config: &T) -> Result<(), Self::Error> {
        arbitrary()
    }

    fn validate(&self, config: &T) -> (r: Result<(), Self::Error>)
        ensures
            Self::obeys_validate_spec() ==> r == self.spec_validate(config),
    ;
}

/// Validation that accepts every configuration.
#[derive(Default)]
pub struct NoConfigValidation;

/// The error of a validation that never fails: no value of it is ever made
/// outside this module, and `NoConfigValidation` makes none.
#[derive(Debug)]
pub struct NoConfigValidationError {
    _never: (),
}

impl<T> ConfigValidation<T> for NoConfigValidation {
    type Error = NoConfigValidationError;

    open spec fn obeys_validate_spec() -> bool {
        true
    }

    open spec fn spec_validate(&self, config: &T) -> Result<(), Self::Error> {
        Ok(())
    }

    fn validate(&self, _config: &T) -> (r: Result<(), Self::Error>) {
        Ok(())
    }
}

/// Validation through the configuration's own `ValidateConfig` impl.
#[derive(Default)]
pub struct WithValidation;

impl<T: ValidateConfig> ConfigValidation<T> for WithValidation {
    type Error = T::Error;

    open spec fn obeys_validate_spec() -> bool {
        T::obeys_config_validation_spec()
    }

    open spec fn spec_validate(&self, config: &T) -> Result<(), Self::Error> {
        config.config_validation()
    }

    fn validate(&self, config: &T) -> (r: Result<(), Self::Error>) {
        config.validate()
    }
}

} // verus!
