//! A verified model of a GPU marching-cubes meshing pipeline.
//!
//! The library models the per-volume device resource lifecycle, the fixed
//! eight-slot binding layout, the per-round dispatch decisions and the
//! readback handshake that carries staged results from the GPU-execution
//! domain back to the control domain over a message channel.

pub mod atomics;
pub mod channels;
pub mod gpu_buffer;
pub mod gpu_voxel_material;
pub mod gpu_voxel_material_bind_group;
pub mod voxel_mesh_compute_pipeline;
pub mod volumetric_bundle;
pub mod voxel;
pub mod voxel_material;

use vstd::prelude::*;

verus! {

/// Side length of the default chunk used by the demonstration driver.
pub const CHUNK_SZ: u32 = 32;

} // verus!
