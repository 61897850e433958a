pub mod asset_guard;
pub mod bsn_assets;
pub mod foundation;
pub mod grid;
pub mod terrain;
