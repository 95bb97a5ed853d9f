//! The resource-binding set of one volume's device resources.
//!
//! A binding set exposes all eight bindable buffers of one
//! `GpuVoxelMaterial` to the compute program, in a fixed slot order:
//! 0 = edge table, 1 = triangle table, 2 = voxels, 3 = append counters,
//! 4 = vertices, 5 = normals, 6 = indices, 7 = texture coordinates. It
//! references the buffers without owning them and is rebuilt whenever the
//! resources are.

use vstd::prelude::*;

use crate::gpu_buffer::lemma_bindable_nonempty;
use crate::gpu_voxel_material::{resources_wf, GpuVoxelMaterial, GpuVoxelMaterialView};
use crate::voxel_material::{among, among_keys, VolumeIdentifier, VoxelMaterialComponents};
use crate::voxel_mesh_compute_pipeline::{VoxelMeshComputePipeline, LAYOUT_SLOTS};

verus! {

/// One buffer binding: a slot index and the byte size of the buffer handle
/// bound there.
#[derive(Clone, Copy, PartialEq, Eq, Structural, Debug)]
pub struct BindGroupEntry {
    pub slot: u32,
    pub size_bytes: u64,
}

/// One resource-binding set: what a single compute dispatch sees.
pub struct BindGroup {
    pub entries: Vec<BindGroupEntry>,
}

impl View for BindGroup {
    type V = Seq<BindGroupEntry>;

    open spec fn view(&self) -> Seq<BindGroupEntry> {
        self.entries@
    }
}

/// The binding set one resource bundle produces, in the fixed slot order.
pub open spec fn bind_group_of(r: GpuVoxelMaterialView) -> Seq<BindGroupEntry> {
    seq![
        BindGroupEntry { slot: 0, size_bytes: r.edge_table.size_bytes() as u64 },
        BindGroupEntry { slot: 1, size_bytes: r.tri_table.size_bytes() as u64 },
        BindGroupEntry { slot: 2, size_bytes: r.voxels.size_bytes() as u64 },
        BindGroupEntry { slot: 3, size_bytes: r.atomics.size_bytes() as u64 },
        BindGroupEntry { slot: 4, size_bytes: r.vertices.size_bytes() as u64 },
        BindGroupEntry { slot: 5, size_bytes: r.normals.size_bytes() as u64 },
        BindGroupEntry { slot: 6, size_bytes: r.indices.size_bytes() as u64 },
        BindGroupEntry { slot: 7, size_bytes: r.uvs.size_bytes() as u64 },
    ]
}

/// Binding completeness: resources that completed their upload always bind
/// exactly eight slots, in slot order, each referencing a non-empty buffer
/// handle.
pub proof fn lemma_binding_completeness(r: GpuVoxelMaterialView)
    requires
        r.uploaded(),
    ensures
        bind_group_of(r).len() == 8,
        forall|i: int|
            0 <= i < 8 ==> (#[trigger] bind_group_of(r)[i]).slot == i && bind_group_of(r)[
                i
            ].size_bytes > 0,
{
    lemma_bindable_nonempty(r.edge_table);
    lemma_bindable_nonempty(r.tri_table);
    lemma_bindable_nonempty(r.voxels);
    lemma_bindable_nonempty(r.atomics);
    lemma_bindable_nonempty(r.vertices);
    lemma_bindable_nonempty(r.normals);
    lemma_bindable_nonempty(r.indices);
    lemma_bindable_nonempty(r.uvs);
}

/// The binding sets of one volume, one group per layout set the program
/// declares.
pub struct GpuVoxelMaterialBindGroups(pub [BindGroup; 1]);

impl View for GpuVoxelMaterialBindGroups {
    type V = Seq<BindGroupEntry>;

    open spec fn view(&self) -> Seq<BindGroupEntry> {
        self.0@[0]@
    }
}

/// Every binding set in the map matches its volume's current resources.
pub open spec fn bindings_built(
    bind_groups: Map<VolumeIdentifier, GpuVoxelMaterialBindGroups>,
    resources: Map<VolumeIdentifier, GpuVoxelMaterial>,
) -> bool {
    forall|k: VolumeIdentifier|
        #![trigger bind_groups.contains_key(k)]
        #![trigger bind_groups[k]]
        resources.contains_key(k) ==> bind_groups.contains_key(k) && bind_groups[k]@
            == bind_group_of(resources[k]@)
}

impl GpuVoxelMaterialBindGroups {
    /// Binds all eight buffers of one uploaded resource bundle in the fixed
    /// slot order. Binding a buffer that was never uploaded is a
    /// programming error, which the precondition rules out.
    pub fn new(
        voxel_pipeline: &VoxelMeshComputePipeline,
        gpu_voxel_material: &GpuVoxelMaterial,
    ) -> (r: GpuVoxelMaterialBindGroups)
        requires
            voxel_pipeline.bind_group_1_layout.entries@.len() == LAYOUT_SLOTS,
            gpu_voxel_material@.uploaded(),
        ensures
            r@ == bind_group_of(gpu_voxel_material@),
            r@.len() == 8,
            forall|i: int|
                0 <= i < 8 ==> (#[trigger] r@[i]).slot == i && r@[i].size_bytes > 0,
    {
        proof {
            lemma_binding_completeness(gpu_voxel_material@);
        }
        let mut entries: Vec<BindGroupEntry> = Vec::new();
        entries.push(
            BindGroupEntry { slot: 0, size_bytes: gpu_voxel_material.edge_table_buffer.size_bytes() },
        );
        entries.push(
            BindGroupEntry { slot: 1, size_bytes: gpu_voxel_material.tri_table_buffer.size_bytes() },
        );
        entries.push(
            BindGroupEntry { slot: 2, size_bytes: gpu_voxel_material.voxels_buffer.size_bytes() },
        );
        entries.push(
            BindGroupEntry { slot: 3, size_bytes: gpu_voxel_material.atomics_buffer.size_bytes() },
        );
        entries.push(
            BindGroupEntry { slot: 4, size_bytes: gpu_voxel_material.vertices_buffer.size_bytes() },
        );
        entries.push(
            BindGroupEntry { slot: 5, size_bytes: gpu_voxel_material.normals_buffer.size_bytes() },
        );
        entries.push(
            BindGroupEntry { slot: 6, size_bytes: gpu_voxel_material.indices_buffer.size_bytes() },
        );
        entries.push(
            BindGroupEntry { slot: 7, size_bytes: gpu_voxel_material.uvs_buffer.size_bytes() },
        );
        let r = GpuVoxelMaterialBindGroups([BindGroup { entries }]);
        proof {
            assert(r@ =~= bind_group_of(gpu_voxel_material@));
        }
        r
    }

    /// Builds the binding set of each newly observed volume among `added`
    /// that already has device resources; other volumes keep their binding
    /// sets untouched.
    pub fn initialise(
        voxel_material_bind_groups: &mut VoxelMaterialComponents<GpuVoxelMaterialBindGroups>,
        gpu_voxel_materials: &VoxelMaterialComponents<GpuVoxelMaterial>,
        voxel_pipeline: &VoxelMeshComputePipeline,
        added: &Vec<VolumeIdentifier>,
    )
        requires
            old(voxel_material_bind_groups).wf(),
            gpu_voxel_materials.wf(),
            resources_wf(gpu_voxel_materials@),
            voxel_pipeline.bind_group_1_layout.entries@.len() == LAYOUT_SLOTS,
        ensures
            final(voxel_material_bind_groups).wf(),
            forall|k: VolumeIdentifier|
                #![trigger final(voxel_material_bind_groups)@.contains_key(k)]
                #![trigger final(voxel_material_bind_groups)@[k]]
                added@.contains(k) && gpu_voxel_materials@.contains_key(k)
                    ==> final(voxel_material_bind_groups)@.contains_key(k)
                    && final(voxel_material_bind_groups)@[k]@
                    == bind_group_of(gpu_voxel_materials@[k]@),
            forall|k: VolumeIdentifier|
                #![trigger final(voxel_material_bind_groups)@.contains_key(k)]
                #![trigger final(voxel_material_bind_groups)@[k]]
                !(added@.contains(k) && gpu_voxel_materials@.contains_key(k))
                    ==> final(voxel_material_bind_groups)@.contains_key(k)
                    == old(voxel_material_bind_groups)@.contains_key(k)
                    && (old(voxel_material_bind_groups)@.contains_key(k)
                    ==> final(voxel_material_bind_groups)@[k]
                    == old(voxel_material_bind_groups)@[k]),
    {
        let mut j: usize = 0;
        while j < added.len()
            invariant
                j <= added@.len(),
                voxel_material_bind_groups.wf(),
                gpu_voxel_materials.wf(),
                resources_wf(gpu_voxel_materials@),
                voxel_pipeline.bind_group_1_layout.entries@.len() == LAYOUT_SLOTS,
                forall|k: VolumeIdentifier|
                    #![trigger voxel_material_bind_groups@.contains_key(k)]
                    #![trigger voxel_material_bind_groups@[k]]
                    among(added@, j as int, k) && gpu_voxel_materials@.contains_key(k)
                        ==> voxel_material_bind_groups@.contains_key(k)
                        && voxel_material_bind_groups@[k]@
                        == bind_group_of(gpu_voxel_materials@[k]@),
                forall|k: VolumeIdentifier|
                    #![trigger voxel_material_bind_groups@.contains_key(k)]
                    #![trigger voxel_material_bind_groups@[k]]
                    !(among(added@, j as int, k) && gpu_voxel_materials@.contains_key(k))
                        ==> voxel_material_bind_groups@.contains_key(k)
                        == old(voxel_material_bind_groups)@.contains_key(k)
                        && (old(voxel_material_bind_groups)@.contains_key(k)
                        ==> voxel_material_bind_groups@[k]
                        == old(voxel_material_bind_groups)@[k]),
            decreases added@.len() - j,
        {
            let id = added[j];
            let ghost prior = voxel_material_bind_groups@;
            if let Some(gpu_voxel_material) = gpu_voxel_materials.get(&id) {
                let voxel_bind_groups = GpuVoxelMaterialBindGroups::new(
                    voxel_pipeline,
                    gpu_voxel_material,
                );
                voxel_material_bind_groups.insert(id, voxel_bind_groups);
            }
            proof {
                assert forall|k: VolumeIdentifier|
                    #![trigger voxel_material_bind_groups@.contains_key(k)]
                    #![trigger voxel_material_bind_groups@[k]]
                    among(added@, j + 1, k) && gpu_voxel_materials@.contains_key(k)
                        implies voxel_material_bind_groups@.contains_key(k)
                        && voxel_material_bind_groups@[k]@
                        == bind_group_of(gpu_voxel_materials@[k]@) by {
                    let i = choose|i: int| 0 <= i < j + 1 && added@[i] == k;
                    assert(0 <= i < j + 1 && added@[i] == k);
                    if i < j {
                        assert(0 <= i < j && added@[i] == k);
                        assert(among(added@, j as int, k));
                        assert(prior[k]@ == bind_group_of(gpu_voxel_materials@[k]@)
                            && prior.contains_key(k));
                        assert(k != id ==> voxel_material_bind_groups@[k] == prior[k]);
                    } else {
                        assert(k == added@[j as int]);
                        assert(k == id);
                    }
                }
                assert forall|k: VolumeIdentifier|
                    #![trigger voxel_material_bind_groups@.contains_key(k)]
                    #![trigger voxel_material_bind_groups@[k]]
                    !(among(added@, j + 1, k) && gpu_voxel_materials@.contains_key(k))
                        implies voxel_material_bind_groups@.contains_key(k) == old(
                    voxel_material_bind_groups,
                )@.contains_key(k) && (old(voxel_material_bind_groups)@.contains_key(k)
                    ==> voxel_material_bind_groups@[k] == old(voxel_material_bind_groups)@[k]) by {
                    if among(added@, j as int, k) {
                        let i = choose|i: int| 0 <= i < j && added@[i] == k;
                        assert(0 <= i < j + 1 && added@[i] == k);
                        assert(among(added@, j + 1, k));
                    }
                    if k == added@[j as int] {
                        assert(0 <= j < j + 1 && added@[j as int] == k);
                        assert(among(added@, j + 1, k));
                    }
                    assert(prior.contains_key(k) == old(voxel_material_bind_groups)@.contains_key(
                        k,
                    ) && (old(voxel_material_bind_groups)@.contains_key(k) ==> prior[k] == old(
                        voxel_material_bind_groups,
                    )@[k]));
                }
            }
            j = j + 1;
        }
        proof {
            assert forall|k: VolumeIdentifier| added@.contains(k) implies among(
                added@,
                added@.len() as int,
                k,
            ) by {
                let i = choose|i: int| 0 <= i < added@.len() && added@[i] == k;
                assert(0 <= i < added@.len() && added@[i] == k);
            }
        }
    }

    /// Rebuilds the binding set of every volume that has device resources,
    /// so each round's bindings pick up that round's resource rebuild.
    pub fn prepare(
        voxel_material_bind_groups: &mut VoxelMaterialComponents<GpuVoxelMaterialBindGroups>,
        gpu_voxel_materials: &VoxelMaterialComponents<GpuVoxelMaterial>,
        voxel_pipeline: &VoxelMeshComputePipeline,
    )
        requires
            old(voxel_material_bind_groups).wf(),
            gpu_voxel_materials.wf(),
            resources_wf(gpu_voxel_materials@),
            voxel_pipeline.bind_group_1_layout.entries@.len() == LAYOUT_SLOTS,
        ensures
            final(voxel_material_bind_groups).wf(),
            bindings_built(final(voxel_material_bind_groups)@, gpu_voxel_materials@),
            forall|k: VolumeIdentifier|
                #![trigger final(voxel_material_bind_groups)@.contains_key(k)]
                #![trigger final(voxel_material_bind_groups)@[k]]
                final(voxel_material_bind_groups)@.contains_key(k)
                    <==> old(voxel_material_bind_groups)@.contains_key(k)
                    || gpu_voxel_materials@.contains_key(k),
            forall|k: VolumeIdentifier|
                #![trigger final(voxel_material_bind_groups)@.contains_key(k)]
                #![trigger final(voxel_material_bind_groups)@[k]]
                !gpu_voxel_materials@.contains_key(k)
                    && old(voxel_material_bind_groups)@.contains_key(k)
                    ==> final(voxel_material_bind_groups)@[k]
                    == old(voxel_material_bind_groups)@[k],
    {
        let ghost resource_entries = gpu_voxel_materials.entries@;
        let mut j: usize = 0;
        while j < gpu_voxel_materials.entries.len()
            invariant
                j <= resource_entries.len(),
                gpu_voxel_materials.entries@ == resource_entries,
                voxel_material_bind_groups.wf(),
                gpu_voxel_materials.wf(),
                resources_wf(gpu_voxel_materials@),
                voxel_pipeline.bind_group_1_layout.entries@.len() == LAYOUT_SLOTS,
                forall|jj: int|
                    0 <= jj < j ==> voxel_material_bind_groups@.contains_key(
                        (#[trigger] resource_entries[jj]).0,
                    ) && voxel_material_bind_groups@[resource_entries[jj].0]@ == bind_group_of(
                        resource_entries[jj].1@,
                    ),
                forall|k: VolumeIdentifier|
                    #![trigger voxel_material_bind_groups@.contains_key(k)]
                    #![trigger voxel_material_bind_groups@[k]]
                    !among_keys(resource_entries, j as int, k)
                        ==> voxel_material_bind_groups@.contains_key(k)
                        == old(voxel_material_bind_groups)@.contains_key(k)
                        && (old(voxel_material_bind_groups)@.contains_key(k)
                        ==> voxel_material_bind_groups@[k]
                        == old(voxel_material_bind_groups)@[k]),
            decreases resource_entries.len() - j,
        {
            let id = gpu_voxel_materials.entries[j].0;
            proof {
                crate::voxel_material::lemma_map_of_index(resource_entries, j as int);
            }
            let voxel_bind_groups = GpuVoxelMaterialBindGroups::new(
                voxel_pipeline,
                &gpu_voxel_materials.entries[j].1,
            );
            voxel_material_bind_groups.insert(id, voxel_bind_groups);
            proof {
                assert forall|jj: int|
                    0 <= jj < j + 1 implies voxel_material_bind_groups@.contains_key(
                    (#[trigger] resource_entries[jj]).0,
                ) && voxel_material_bind_groups@[resource_entries[jj].0]@ == bind_group_of(
                    resource_entries[jj].1@,
                ) by {
                    if jj < j {
                        assert(resource_entries[jj].0 != resource_entries[j as int].0);
                    }
                }
                assert forall|k: VolumeIdentifier|
                    #![trigger voxel_material_bind_groups@.contains_key(k)]
                    #![trigger voxel_material_bind_groups@[k]]
                    !among_keys(resource_entries, j + 1, k)
                        implies voxel_material_bind_groups@.contains_key(k) == old(
                    voxel_material_bind_groups,
                )@.contains_key(k) && (old(voxel_material_bind_groups)@.contains_key(k)
                    ==> voxel_material_bind_groups@[k] == old(voxel_material_bind_groups)@[k]) by {
                    if among_keys(resource_entries, j as int, k) {
                        let i = choose|i: int|
                            0 <= i < j && (#[trigger] resource_entries[i]).0 == k;
                        assert(0 <= i < j + 1 && resource_entries[i].0 == k);
                        assert(among_keys(resource_entries, j + 1, k));
                    }
                    if k == resource_entries[j as int].0 {
                        assert(0 <= j < j + 1 && resource_entries[j as int].0 == k);
                        assert(among_keys(resource_entries, j + 1, k));
                    }
                }
            }
            j = j + 1;
        }
        proof {
            let n = resource_entries.len() as int;
            assert forall|k: VolumeIdentifier|
                #![trigger gpu_voxel_materials@.contains_key(k)]
                #![trigger voxel_material_bind_groups@.contains_key(k)]
                #![trigger voxel_material_bind_groups@[k]]
                gpu_voxel_materials@.contains_key(k)
                implies voxel_material_bind_groups@.contains_key(k)
                && voxel_material_bind_groups@[k]@ == bind_group_of(
                gpu_voxel_materials@[k]@,
            ) by {
                crate::voxel_material::lemma_map_of_contains(resource_entries, k);
                let jj = choose|jj: int|
                    0 <= jj < resource_entries.len() && (#[trigger] resource_entries[jj]).0 == k;
                crate::voxel_material::lemma_map_of_index(resource_entries, jj);
            }
            assert forall|k: VolumeIdentifier| among_keys(resource_entries, n, k)
                implies gpu_voxel_materials@.contains_key(k) by {
                let jj = choose|jj: int| 0 <= jj < n && (#[trigger] resource_entries[jj]).0 == k;
                crate::voxel_material::lemma_map_of_index(resource_entries, jj);
            }
            assert(bindings_built(voxel_material_bind_groups@, gpu_voxel_materials@));
        }
    }
}

} // verus!
