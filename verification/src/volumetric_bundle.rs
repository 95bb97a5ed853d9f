//! The marker and bundle under which a volume enters the pipeline.

use vstd::prelude::*;

use crate::voxel_material::VoxelMaterial;

verus! {

/// Marks a volume as subject to meshing; the GPU-execution domain builds
/// resources for every volume that carries it.
#[derive(Clone, Copy, PartialEq, Eq, Structural, Debug)]
pub struct Volumetric;

/// Everything a freshly spawned volume carries: the marker and its voxel
/// material.
pub struct VolumetricBundle {
    pub volumetric: Volumetric,
    pub material: VoxelMaterial,
}

impl VolumetricBundle {
    /// Bundles a voxel material for spawning.
    pub fn new(voxel_material: VoxelMaterial) -> (r: VolumetricBundle)
        ensures
            r.material == voxel_material,
    {
        VolumetricBundle { volumetric: Volumetric, material: voxel_material }
    }
}

} // verus!
