//! Procedural voxel terrain: chunk coordinates, the dense per-chunk voxel
//! store, the layered terrain generator and the face-culled chunk mesher.
//!
//! Every function here works on plain integer data. Noise sampling, windowing
//! and rendering belong to the host program, which hands quantised samples in
//! and takes mesh buffers out.

pub mod map;
pub mod utils;
