use pioneer::asset_guard::is_git_lfs_pointer;

#[test]
fn detects_git_lfs_pointer() {
    assert!(is_git_lfs_pointer(
        b"version https://git-lfs.github.com/spec/v1\noid sha256:test\nsize 123\n"
    ));
}

#[test]
fn accepts_non_lfs_content() {
    assert!(!is_git_lfs_pointer(b"glTF\x02\0\0\0"));
}

#[test]
fn short_or_altered_prefix_is_not_a_pointer() {
    assert!(!is_git_lfs_pointer(b"version https://git-lfs"));
    assert!(!is_git_lfs_pointer(b""));
    assert!(!is_git_lfs_pointer(b"version https://git-lfs.github.com/spec/v2\n"));
    assert!(is_git_lfs_pointer(b"version https://git-lfs.github.com/spec/v1"));
}

use pioneer::asset_guard::{advance_prefix_read, PrefixRead, GIT_LFS_POINTER_PREFIX};
use pioneer::bsn_assets::{
    asset_file_path, local_asset_path, optional_world_asset_action, OptionalAssetAction,
};
use std::path::Path;

#[test]
fn prefix_read_stops_when_full_or_at_end() {
    let wanted = GIT_LFS_POINTER_PREFIX.len();

    assert_eq!(
        advance_prefix_read(0, wanted, 10),
        PrefixRead::Continue { filled: 10 }
    );
    assert_eq!(
        advance_prefix_read(10, wanted, wanted - 10),
        PrefixRead::Done { filled: wanted }
    );
    assert_eq!(advance_prefix_read(7, wanted, 0), PrefixRead::Done { filled: 7 });
}

#[test]
fn asset_file_path_drops_the_label() {
    assert_eq!(
        asset_file_path("models/standard/standard-cube-1m.glb#Scene0"),
        "models/standard/standard-cube-1m.glb"
    );
    assert_eq!(asset_file_path("config/grid.ron"), "config/grid.ron");
    assert_eq!(asset_file_path("a#b#c"), "a");
    assert_eq!(asset_file_path("#label"), "");
    assert_eq!(asset_file_path("modèle/é.glb#Scene1"), "modèle/é.glb");
}

#[test]
fn local_asset_path_is_below_the_asset_root() {
    assert_eq!(
        local_asset_path("models/standard/standard-cube-1m.glb#Scene0"),
        Path::new("assets").join("models/standard/standard-cube-1m.glb")
    );
}

#[test]
fn optional_world_asset_is_attached_skipped_or_awaited() {
    assert_eq!(optional_world_asset_action(true, false, false), OptionalAssetAction::Attach);
    assert_eq!(optional_world_asset_action(true, true, true), OptionalAssetAction::Attach);
    assert_eq!(optional_world_asset_action(false, true, false), OptionalAssetAction::Skip);
    assert_eq!(optional_world_asset_action(false, false, true), OptionalAssetAction::Skip);
    assert_eq!(optional_world_asset_action(false, true, true), OptionalAssetAction::Skip);
    assert_eq!(optional_world_asset_action(false, false, false), OptionalAssetAction::Wait);
}
