use std::path::PathBuf;
use vstd::prelude::*;

verus! {

/// The directory, relative to the working directory, that holds every asset.
pub const ASSET_ROOT_DIR: &'static str = "assets";

/// Location of a configuration asset, relative to the asset root.
#[derive(Clone, Copy, Debug, Eq, PartialEq)]
pub struct ConfigPath {
    asset_path: &'static str,
}

impl ConfigPath {
    /// The path as the asset server knows it.
    pub closed spec fn spec_asset_path(self) -> &'static str {
        self.asset_path
    }

    pub fn new(asset_path: &'static str) -> (r: Self)
        ensures
            r.spec_asset_path() == asset_path,
    {
        Self { asset_path }
    }

    pub fn asset_path(self) -> (r: &'static str)
        ensures
            r == self.spec_asset_path(),
    {
        self.asset_path
    }

    /// The path of the file on disk: the asset path below the asset root.
    pub fn file_system_path(self) -> (r: PathBuf)
        ensures
            r == joined_path(ASSET_ROOT_DIR@, self.spec_asset_path()@),
    {
        path_from_components(ASSET_ROOT_DIR, self.asset_path)
    }
}

/// A file system path, carried through opaquely.
#[verifier::external_type_specification]
#[verifier::external_body]
pub struct ExPathBuf(PathBuf);

/// The path that `PathBuf::from_iter` builds from the components `root` and
/// `relative`: `relative` pushed onto `root`.
pub uninterp spec fn joined_path(root: Seq<char>, relative: Seq<char>) -> PathBuf;

/// Trusted: calls `PathBuf::from_iter` on the two components, which pushes
/// `relative` onto `root`. The contract claims only that the result is
/// determined by the text of the two components; what it holds is not stated.
#[verifier::external_body]
pub(crate) fn path_from_components(root: &str, relative: &str) -> (r: PathBuf)
    ensures
        r == joined_path(root@, relative@),
{
    PathBuf::from_iter([root, relative])
}

} // verus!
