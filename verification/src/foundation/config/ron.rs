use crate::foundation::config::format::ConfigFormatLoader;
use crate::foundation::config::output::RawResourceOutput;
use crate::foundation::config::plugin::ConfigPlugin;
use crate::foundation::config::validation::NoConfigValidation;
use std::marker::PhantomData;
use vstd::prelude::*;

verus! {

/// A RON parse failure, with the position where it happened.
#[verifier::external_type_specification]
#[verifier::external_body]
pub struct ExSpannedError(ron::error::SpannedError);

/// Why RON bytes did not give a configuration.
#[derive(Debug)]
pub enum RonConfigFormatError {
    Parse(ron::error::SpannedError),
}

/// A configuration type that can be read from RON text.
///
/// Implementations deserialize with `ron::de::from_bytes`; the serde impls
/// of configuration types live beside them, outside this crate's verified
/// code. An implementation that specifies its parse sets
/// `obeys_ron_parse_spec` and says in `ron_parse` what `from_ron_bytes`
/// returns; of any other, nothing is known.
pub trait RonDeserialize: Sized {
    /// Whether `from_ron_bytes` returns `ron_parse`.
    open spec fn obeys_ron_parse_spec() -> bool {
        false
    }

    /// What `from_ron_bytes` returns for `bytes`.
    open spec fn ron_parse(bytes: Seq<u8>) -> Result<Self, ron::error::SpannedError> {
        arbitrary()
    }

    fn from_ron_bytes(bytes: &[u8]) -> (r: Result<Self, ron::error::SpannedError>)
        ensures
            Self::obeys_ron_parse_spec() ==> r == Self::ron_parse(bytes@),
    ;
}

/// The outcome of loading RON `bytes` as a `T`: the parsed value, or the
/// parse error as a format error.
pub open spec fn spec_ron_load<T: RonDeserialize>(bytes: Seq<u8>) -> Result<T, RonConfigFormatError> {
    match T::ron_parse(bytes) {
        Ok(config) => Ok(config),
        Err(error) => Err(RonConfigFormatError::Parse(error)),
    }
}

/// A configuration plugin for configurations stored as RON.
pub type RonConfigPlugin<T, V = NoConfigValidation, O = RawResourceOutput> = ConfigPlugin<
    T,
    RonConfigFormatLoader<T>,
    V,
    O,
>;

/// Loads configurations stored as RON.
pub struct RonConfigFormatLoader<T> {
    _marker: PhantomData<T>,
}

impl<T> Default for RonConfigFormatLoader<T> {
    fn default() -> Self {
        Self { _marker: PhantomData }
    }
}

impl<T: RonDeserialize> ConfigFormatLoader<T> for RonConfigFormatLoader<T> {
    type Error = RonConfigFormatError;

    open spec fn obeys_load_spec() -> bool {
        T::obeys_ron_parse_spec()
    }

    open spec fn spec_load(bytes: Seq<u8>) -> Result<T, RonConfigFormatError> {
        spec_ron_load::<T>(bytes)
    }

    open spec fn obeys_extensions_spec() -> bool {
        true
    }

    open spec fn spec_extensions() -> Seq<Seq<char>> {
        seq!["ron"@]
    }

    fn load(&self, bytes: &[u8]) -> (r: Result<T, RonConfigFormatError>) {
        match T::from_ron_bytes(bytes) {
            Ok(config) => Ok(config),
            Err(error) => Err(RonConfigFormatError::Parse(error)),
        }
    }

    fn extensions(&self) -> (r: &'static [&'static str]) {
        let extensions: &'static [&'static str] = &["ron"];
        proof {
            assert(extensions@.map_values(|e: &str| e@) =~= seq!["ron"@]);
        }
        extensions
    }
}

} // verus!
