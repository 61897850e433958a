use crate::foundation::config::{joined_path, path_from_components};
use crate::foundation::config::ASSET_ROOT_DIR;
use std::path::PathBuf;
use vstd::prelude::*;
use vstd::string::StringSliceAdditionalSpecFns;

verus! {

/// The byte that separates an asset's file path from a label inside it.
pub const ASSET_LABEL_SEPARATOR: u8 = 35;

/// The file part of the UTF-8 bytes of an asset path: everything before the
/// first `#`, which starts a label within the file.
pub open spec fn is_asset_file_part(file: Seq<u8>, path: Seq<u8>) -> bool {
    &&& file.is_prefix_of(path)
    &&& !file.contains(ASSET_LABEL_SEPARATOR)
    &&& file.len() < path.len() ==> path[file.len() as int] == ASSET_LABEL_SEPARATOR
}

/// The file that an asset path names: the path up to its first `#`.
pub fn asset_file_path(asset_path: &str) -> (r: &str)
    ensures
        is_asset_file_part(r.spec_bytes(), asset_path.spec_bytes()),
{
    let bytes = asset_path.as_bytes();
    let mut end: usize = 0;
    while end < bytes.len()
        invariant
            bytes@ == asset_path.spec_bytes(),
            end <= bytes@.len(),
            forall|j: int| 0 <= j < end ==> bytes@[j] != ASSET_LABEL_SEPARATOR,
        ensures
            end <= bytes@.len(),
            forall|j: int| 0 <= j < end ==> bytes@[j] != ASSET_LABEL_SEPARATOR,
            end < bytes@.len() ==> bytes@[end as int] == ASSET_LABEL_SEPARATOR,
        decreases bytes@.len() - end,
    {
        if bytes[end] == ASSET_LABEL_SEPARATOR {
            break;
        }
        end = end + 1;
    }
    proof {
        vstd::utf8::encode_utf8_valid_utf8(asset_path@);
        if end < bytes@.len() {
            vstd::utf8::is_char_boundary_iff_not_is_continuation_byte(bytes@, end as int);
        } else {
            vstd::utf8::is_char_boundary_start_end_of_seq(bytes@);
        }
    }
    let (file, _label) = asset_path.split_at(end);
    proof {
        let file_bytes = file.spec_bytes();
        assert(file_bytes =~= bytes@.subrange(0, end as int));
        if file_bytes.contains(ASSET_LABEL_SEPARATOR) {
            let k = choose|k: int| 0 <= k < file_bytes.len() && file_bytes[k] == ASSET_LABEL_SEPARATOR;
            assert(bytes@[k] == ASSET_LABEL_SEPARATOR);
        }
    }
    file
}

/// Where the file of the asset at `asset_path` lies on disk: its file part
/// below the asset root.
pub fn local_asset_path(asset_path: &str) -> (r: PathBuf)
    ensures
        exists|file: &str|
            #[trigger] is_asset_file_part(file.spec_bytes(), asset_path.spec_bytes()) && r
                == joined_path(ASSET_ROOT_DIR@, file@),
{
    let file = asset_file_path(asset_path);
    let r = path_from_components(ASSET_ROOT_DIR, file);
    assert(is_asset_file_part(file.spec_bytes(), asset_path.spec_bytes()));
    r
}

/// What becomes of an optional world asset that is still loading.
#[derive(Clone, Copy, Debug, Eq, PartialEq, Structural)]
pub enum OptionalAssetAction {
    /// It loaded with its dependencies: attach it to the world.
    Attach,
    /// It or one of its dependencies failed to load: drop it.
    Skip,
    /// Neither yet: look again in the next update.
    Wait,
}

/// The action for an optional world asset, tested in order: loaded with its
/// dependencies, then its own load failed, then a dependency's load failed.
pub open spec fn spec_optional_world_asset_action(
    loaded_with_dependencies: bool,
    load_failed: bool,
    dependency_load_failed: bool,
) -> OptionalAssetAction {
    if loaded_with_dependencies {
        OptionalAssetAction::Attach
    } else if load_failed || dependency_load_failed {
        OptionalAssetAction::Skip
    } else {
        OptionalAssetAction::Wait
    }
}

/// Decides what to do with an optional world asset from the asset store's
/// report of its load.
pub fn optional_world_asset_action(
    loaded_with_dependencies: bool,
    load_failed: bool,
    dependency_load_failed: bool,
) -> (r: OptionalAssetAction)
    ensures
        r == spec_optional_world_asset_action(
            loaded_with_dependencies,
            load_failed,
            dependency_load_failed,
        ),
{
    if loaded_with_dependencies {
        return OptionalAssetAction::Attach;
    }
    if load_failed {
        return OptionalAssetAction::Skip;
    }
    if dependency_load_failed {
        return OptionalAssetAction::Skip;
    }
    OptionalAssetAction::Wait
}

} // verus!
