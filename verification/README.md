# Pioneer

Pioneer is a planet exploration and building game on the Bevy engine. This
crate holds the parts of its logic that are proved correct with Verus, and a
Bevy application around them.

## Layout

- `src/` — the verified library, crate `pioneer`.
  - `foundation::config` — configuration assets: the path of a configuration,
    the format-loading and validation pipeline, the plugin builder, and the
    decisions that keep a published configuration output in step with its
    asset (initial load, fallback on failure, refresh on change, keeping the
    last output when a reload fails).
  - `grid` — grid configuration, its validation, and the base and building
    grids it describes.
  - `terrain` — terrain configuration and bounds, footprint containment, the
    chunks that cover the terrain, the layout of a chunk's samples, the octave
    count of a plains landform, mesh index narrowing, and when the rendered
    terrain must be rebuilt.
  - `asset_guard`, `bsn_assets` — recognising Git LFS pointer files, the
    file part of an asset path, and what becomes of an optional world asset
    as it loads.
- `tests/` — tests of the library.
- `app/` — the game: Bevy plugins and systems, floating-point geometry,
  noise landforms, marching-cubes meshing and camera movement, calling the
  library for every decision above.

The library states its laws as public proof functions (`lemma_*`) beside the
functions they are about.
