use vstd::prelude::*;

verus! {

/// An I/O failure while reading a configuration, carried through opaquely.
#[verifier::external_type_specification]
#[verifier::external_body]
pub struct ExIoError(std::io::Error);

/// Why a configuration could not be loaded, with the asset path it came from.
#[derive(Debug)]
pub enum ConfigLoadError<FormatError, ValidationError> {
    /// The bytes could not be read.
    Read { path: String, source: std::io::Error },
    /// The bytes are not a value of the storage format.
    Format { path: String, source: FormatError },
    /// The value was loaded and failed validation.
    Validation { path: String, source: ValidationError },
}

} // verus!
