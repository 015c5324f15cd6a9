# terrain_editor

The logic of a small terrain editor built on bevy, as a verified library.

- `src/grid.rs`: the triangle index buffer of a regular terrain grid (two triangles per
  quad, counter-clockwise seen from above), with proofs that every index names a vertex
  and that every triangle faces up.
- `src/heightmap.rs`: 16-bit heightmaps stored in the red (low byte) and green (high
  byte) channels of an RGBA image; files are decoded with the `image` crate, the format
  guessed from their magic bytes.
- `src/camera.rs`: when the fly camera grabs the cursor, and which way the keys move it.
- `src/status.rs`: the event an import attempt reports and its status line.
- `app/`: the bevy program around the library: scene set-up, egui panels, file dialogs,
  and the floating-point geometry of the meshes.
