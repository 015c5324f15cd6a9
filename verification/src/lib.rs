//! Terrain editing logic: the triangle layout of a terrain grid, the decoding of
//! 16-bit heightmaps stored in the red and green channels of an RGBA image, and the
//! input decisions of an editor-style fly camera.

pub mod camera;
pub mod grid;
pub mod heightmap;
pub mod status;
