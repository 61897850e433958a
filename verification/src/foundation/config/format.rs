use vstd::prelude::*;

verus! {

/// Turns the stored bytes of a configuration into a value.
///
/// Implemented by users for each storage format. An implementation that
/// specifies its format sets `obeys_load_spec` and says in `spec_load` what
/// `load` returns, and sets `obeys_extensions_spec` and says in
/// `spec_extensions` which extensions it claims; of any other, nothing is
/// known.
pub trait ConfigFormatLoader<T>: Default {
    type Error;

    /// Whether `load` returns `spec_load`.
    open spec fn obeys_load_spec() -> bool {
        false
    }

    /// What `load` returns for `bytes`.
    open spec fn spec_load(bytes: Seq<u8>) -> Result<T, Self::Error> {
        arbitrary()
    }

    /// Whether `extensions` returns `spec_extensions`.
    open spec fn obeys_extensions_spec() -> bool {
        false
    }

    /// The extensions that the format claims.
    open spec fn spec_extensions() -> Seq<Seq<char>> {
        arbitrary()
    }

    fn load(&self, bytes: &[u8]) -> (r: Result<T, Self::Error>)
        ensures
            Self::obeys_load_spec() ==> r == Self::spec_load(bytes@),
    ;

    /// File extensions that this format claims.
    fn extensions(&self) -> (r: &'static [&'static str])
        ensures
            Self::obeys_extensions_spec() ==> r@.map_values(|e: &str| e@)
                == Self::spec_extensions(),
    ;
}

} // verus!
