//! The compute pipeline and the per-round dispatch node.
//!
//! The pipeline owns the eight-slot binding layout and the handle of the
//! queued compute program. The node walks the volumes it knows about once
//! per round: when the compiled program is not ready yet the whole round is
//! deferred, and a volume missing either its resources or its binding set
//! is skipped for the round — never a failure, since both are rebuilt next
//! round.

use vstd::prelude::*;

use crate::gpu_voxel_material::{refreshed, GpuVoxelMaterial, VERTEX_ELEM_BYTES};
use crate::gpu_voxel_material_bind_group::{bindings_built, GpuVoxelMaterialBindGroups};
use crate::voxel_material::{VolumeIdentifier, VoxelMaterial, VoxelMaterialComponents};

verus! {

/// Workgroups dispatched along each axis of the grid.
pub const WORKGROUPS_PER_AXIS: u32 = 8;

/// Slot count of the compute program's binding layout.
pub const LAYOUT_SLOTS: u64 = 8;

/// One slot of the binding layout.
#[derive(Clone, Copy, PartialEq, Eq, Structural, Debug)]
pub struct BindGroupLayoutEntry {
    pub slot: u32,
}

/// The binding layout a compute program declares: one entry per slot, in
/// slot order.
pub struct BindGroupLayout {
    pub entries: Vec<BindGroupLayoutEntry>,
}

/// The compute pipeline: its binding layout and the handle under which the
/// compiled program was queued. Created once; the compiled program is
/// resolved by handle each round and may not be ready yet.
pub struct VoxelMeshComputePipeline {
    pub bind_group_1_layout: BindGroupLayout,
    pub pipeline: u64,
}

impl VoxelMeshComputePipeline {
    /// Queues the compute program under `pipeline` and declares the
    /// eight-slot layout it consumes.
    pub fn new(pipeline: u64) -> (r: VoxelMeshComputePipeline)
        ensures
            r.pipeline == pipeline,
            r.bind_group_1_layout.entries@.len() == LAYOUT_SLOTS,
            forall|i: int|
                0 <= i < LAYOUT_SLOTS ==> (#[trigger] r.bind_group_1_layout.entries@[i]).slot
                    == i,
    {
        let mut entries: Vec<BindGroupLayoutEntry> = Vec::new();
        let mut slot: u32 = 0;
        while slot < 8
            invariant
                slot <= 8,
                entries@.len() == slot,
                forall|i: int| 0 <= i < slot ==> (#[trigger] entries@[i]).slot == i,
            decreases 8 - slot,
        {
            entries.push(BindGroupLayoutEntry { slot });
            slot = slot + 1;
        }
        VoxelMeshComputePipeline { bind_group_1_layout: BindGroupLayout { entries }, pipeline }
    }
}

/// What the round did for one volume.
#[derive(Clone, Copy, PartialEq, Eq, Structural, Debug)]
pub enum VolumeDispatchOutcome {
    /// A compute pass was recorded: the fixed workgroup grid was dispatched
    /// and a copy of `copy_bytes` bytes from the vertex output buffer into
    /// the volume's staging buffer was enqueued.
    Dispatched { workgroups_x: u32, workgroups_y: u32, workgroups_z: u32, copy_bytes: u64 },
    /// The volume lacked its resources or its binding set this round; it is
    /// skipped and retried next round once both maps are rebuilt.
    SkippedMissingState,
}

/// What one round does for volume `k`: a dispatch with the fixed grid and a
/// staging copy of one vertex record per chunk unit when both per-volume
/// maps know the volume, a logged skip otherwise.
pub open spec fn dispatch_outcome(
    k: VolumeIdentifier,
    resources: Map<VolumeIdentifier, GpuVoxelMaterial>,
    bind_groups: Map<VolumeIdentifier, GpuVoxelMaterialBindGroups>,
) -> VolumeDispatchOutcome {
    if resources.contains_key(k) && bind_groups.contains_key(k) {
        VolumeDispatchOutcome::Dispatched {
            workgroups_x: WORKGROUPS_PER_AXIS,
            workgroups_y: WORKGROUPS_PER_AXIS,
            workgroups_z: WORKGROUPS_PER_AXIS,
            copy_bytes: ((resources[k].chunk_size as nat) * (VERTEX_ELEM_BYTES as nat)) as u64,
        }
    } else {
        VolumeDispatchOutcome::SkippedMissingState
    }
}

/// Skip on missing state: a volume that has device resources but no binding
/// set — or a binding set but no resources — is skipped for the round; the
/// round itself goes on and never fails.
pub proof fn lemma_skip_on_missing_state(
    k: VolumeIdentifier,
    resources: Map<VolumeIdentifier, GpuVoxelMaterial>,
    bind_groups: Map<VolumeIdentifier, GpuVoxelMaterialBindGroups>,
)
    requires
        !resources.contains_key(k) || !bind_groups.contains_key(k),
    ensures
        dispatch_outcome(k, resources, bind_groups)
            == VolumeDispatchOutcome::SkippedMissingState,
{
}

/// A full round leaves no stored volume behind: once this round's refresh
/// rebuilt the resources against the store and the binding rebuild caught
/// up with those resources, every stored volume dispatches the fixed grid
/// with a staging copy of one vertex record per chunk unit. A skip can
/// only come from a transient frame where one of the two steps has not
/// run yet.
pub proof fn lemma_round_completes(
    k: VolumeIdentifier,
    store: Map<VolumeIdentifier, VoxelMaterial>,
    resources: Map<VolumeIdentifier, GpuVoxelMaterial>,
    bind_groups: Map<VolumeIdentifier, GpuVoxelMaterialBindGroups>,
    edge: Seq<u32>,
    tri: Seq<i32>,
)
    requires
        refreshed(resources, store, edge, tri),
        bindings_built(bind_groups, resources),
        store.contains_key(k),
    ensures
        dispatch_outcome(k, resources, bind_groups) == (VolumeDispatchOutcome::Dispatched {
            workgroups_x: WORKGROUPS_PER_AXIS,
            workgroups_y: WORKGROUPS_PER_AXIS,
            workgroups_z: WORKGROUPS_PER_AXIS,
            copy_bytes: ((store[k]@.chunk_size as nat) * (VERTEX_ELEM_BYTES as nat)) as u64,
        }),
{
}

/// A volume known to both per-round maps dispatches the fixed workgroup
/// grid, and its staging copy moves exactly one vertex record per chunk
/// unit — the staging buffer's full reservation, no more and no less.
pub proof fn lemma_copy_fills_staging(
    k: VolumeIdentifier,
    resources: Map<VolumeIdentifier, GpuVoxelMaterial>,
    bind_groups: Map<VolumeIdentifier, GpuVoxelMaterialBindGroups>,
)
    requires
        resources.contains_key(k),
        bind_groups.contains_key(k),
        resources[k]@.wf(),
    ensures
        dispatch_outcome(k, resources, bind_groups) == (VolumeDispatchOutcome::Dispatched {
            workgroups_x: WORKGROUPS_PER_AXIS,
            workgroups_y: WORKGROUPS_PER_AXIS,
            workgroups_z: WORKGROUPS_PER_AXIS,
            copy_bytes: resources[k]@.vertices_staging.size_bytes() as u64,
        }),
{
}

/// The per-round orchestrator: holds the volumes known to the render graph
/// and records one compute pass and staging copy per ready volume.
pub struct VoxelMeshComputeNode {
    pub voxel_material_query: Vec<VolumeIdentifier>,
}

impl VoxelMeshComputeNode {
    /// A node that knows no volumes yet.
    pub fn new() -> (r: VoxelMeshComputeNode)
        ensures
            r.voxel_material_query@.len() == 0,
    {
        VoxelMeshComputeNode { voxel_material_query: Vec::new() }
    }

    /// Refreshes the set of volumes the node iterates each round.
    pub fn update(&mut self, volumes: Vec<VolumeIdentifier>)
        ensures
            final(self).voxel_material_query@ == volumes@,
    {
        self.voxel_material_query = volumes;
    }

    /// Runs one round: if the compiled program is not ready the round is
    /// deferred with no work recorded; otherwise every known volume either
    /// gets its dispatch and staging copy or is skipped for missing state.
    pub fn run(
        &self,
        pipeline_ready: bool,
        gpu_voxel_materials: &VoxelMaterialComponents<GpuVoxelMaterial>,
        voxel_bind_groups: &VoxelMaterialComponents<GpuVoxelMaterialBindGroups>,
    ) -> (r: Vec<(VolumeIdentifier, VolumeDispatchOutcome)>)
        requires
            gpu_voxel_materials.wf(),
            voxel_bind_groups.wf(),
        ensures
            !pipeline_ready ==> r@.len() == 0,
            pipeline_ready ==> r@.len() == self.voxel_material_query@.len() && forall|i: int|
                0 <= i < r@.len() ==> (#[trigger] r@[i]).0 == self.voxel_material_query@[i]
                    && r@[i].1 == dispatch_outcome(
                    self.voxel_material_query@[i],
                    gpu_voxel_materials@,
                    voxel_bind_groups@,
                ),
    {
        let mut r: Vec<(VolumeIdentifier, VolumeDispatchOutcome)> = Vec::new();
        if !pipeline_ready {
            return r;
        }
        let mut i: usize = 0;
        while i < self.voxel_material_query.len()
            invariant
                i <= self.voxel_material_query@.len(),
                gpu_voxel_materials.wf(),
                voxel_bind_groups.wf(),
                r@.len() == i,
                forall|j: int|
                    0 <= j < i ==> (#[trigger] r@[j]).0 == self.voxel_material_query@[j]
                        && r@[j].1 == dispatch_outcome(
                        self.voxel_material_query@[j],
                        gpu_voxel_materials@,
                        voxel_bind_groups@,
                    ),
            decreases self.voxel_material_query@.len() - i,
        {
            let id = self.voxel_material_query[i];
            let gpu_voxel_material = gpu_voxel_materials.get(&id);
            let voxel_bind_group = voxel_bind_groups.get(&id);
            match (gpu_voxel_material, voxel_bind_group) {
                (Some(gpu_voxel_material), Some(_voxel_bind_group)) => {
                    let copy_bytes: u64 = (gpu_voxel_material.chunk_size as u64)
                        * VERTEX_ELEM_BYTES;
                    r.push(
                        (
                            id,
                            VolumeDispatchOutcome::Dispatched {
                                workgroups_x: WORKGROUPS_PER_AXIS,
                                workgroups_y: WORKGROUPS_PER_AXIS,
                                workgroups_z: WORKGROUPS_PER_AXIS,
                                copy_bytes,
                            },
                        ),
                    );
                },
                _ => {
                    r.push((id, VolumeDispatchOutcome::SkippedMissingState));
                },
            }
            i = i + 1;
        }
        r
    }
}

} // verus!
