//! Device-resource lifecycle: reservation sizes, binding layout, and the
//! determinism of the per-round rebuild.

use compute_mesh::gpu_buffer::GpuBuffer;
use compute_mesh::gpu_voxel_material::GpuVoxelMaterial;
use compute_mesh::gpu_voxel_material_bind_group::GpuVoxelMaterialBindGroups;
use compute_mesh::voxel::Voxel;
use compute_mesh::voxel_material::{VoxelMaterial, VoxelMaterialComponents};
use compute_mesh::voxel_mesh_compute_pipeline::VoxelMeshComputePipeline;

fn edge_table() -> Vec<u32> {
    (0..256u32).collect()
}

fn tri_table() -> Vec<i32> {
    (0..4096).map(|i| (i % 16) - 1).collect()
}

fn solid_material(chunk_size: u32) -> VoxelMaterial {
    let count = (chunk_size as usize).pow(3);
    let voxels = (0..count).map(|_| Voxel::new(0, 1.0f32.to_bits())).collect();
    VoxelMaterial { voxels, chunk_size }
}

fn buffers_equal(a: &GpuBuffer, b: &GpuBuffer) -> bool {
    a.capacity_elems == b.capacity_elems
        && a.elem_bytes == b.elem_bytes
        && a.data == b.data
        && a.written == b.written
}

fn snapshots_equal(a: &GpuVoxelMaterial, b: &GpuVoxelMaterial) -> bool {
    a.chunk_size == b.chunk_size
        && buffers_equal(&a.voxels_buffer, &b.voxels_buffer)
        && buffers_equal(&a.edge_table_buffer, &b.edge_table_buffer)
        && buffers_equal(&a.tri_table_buffer, &b.tri_table_buffer)
        && buffers_equal(&a.vertices_buffer, &b.vertices_buffer)
        && buffers_equal(&a.normals_buffer, &b.normals_buffer)
        && buffers_equal(&a.uvs_buffer, &b.uvs_buffer)
        && buffers_equal(&a.indices_buffer, &b.indices_buffer)
        && buffers_equal(&a.atomics_buffer, &b.atomics_buffer)
        && buffers_equal(&a.vertices_staging_buffer, &b.vertices_staging_buffer)
}

#[test]
fn capacity_invariant_worst_case_reservation() {
    let material = solid_material(2);
    let resources = GpuVoxelMaterial::new(&material, &edge_table(), &tri_table());

    assert_eq!(resources.chunk_size, 2);
    assert_eq!(resources.voxels_buffer.capacity_elems, 8);
    assert_eq!(resources.voxels_buffer.elem_bytes, 8);
    assert_eq!(resources.voxels_buffer.data.len(), 16);
    assert!(resources.voxels_buffer.written);

    assert_eq!(resources.edge_table_buffer.capacity_elems, 256);
    assert_eq!(resources.edge_table_buffer.data.len(), 256);
    assert_eq!(resources.tri_table_buffer.capacity_elems, 256);
    assert_eq!(resources.tri_table_buffer.elem_bytes, 64);
    assert_eq!(resources.tri_table_buffer.data.len(), 4096);

    assert_eq!(resources.vertices_buffer.capacity_elems, 48);
    assert_eq!(resources.vertices_buffer.elem_bytes, 16);
    assert_eq!(resources.normals_buffer.capacity_elems, 48);
    assert_eq!(resources.uvs_buffer.capacity_elems, 48);
    assert_eq!(resources.indices_buffer.capacity_elems, 48);

    assert_eq!(resources.atomics_buffer.capacity_elems, 2);
    assert_eq!(resources.atomics_buffer.data, vec![0, 0]);
    assert_eq!(resources.vertices_staging_buffer.capacity_elems, 2);
    assert_eq!(resources.vertices_staging_buffer.elem_bytes, 16);

    // Uploading all chunk_size^3 voxels never exceeds the reservation.
    assert!(resources.voxels_buffer.data.len() as u64 * 4
        <= resources.voxels_buffer.capacity_elems * resources.voxels_buffer.elem_bytes);
}

#[test]
fn voxel_upload_interleaves_flags_and_density() {
    let material = VoxelMaterial { voxels: vec![Voxel::new(3, 0x3F00_0000)], chunk_size: 1 };
    let resources = GpuVoxelMaterial::new(&material, &edge_table(), &tri_table());
    assert_eq!(resources.voxels_buffer.data, vec![3, 0x3F00_0000]);
}

#[test]
fn binding_completeness_eight_slots_nonempty() {
    let material = solid_material(2);
    let mut resources = GpuVoxelMaterial::new(&material, &edge_table(), &tri_table());
    resources.upload_vertices();
    let pipeline = VoxelMeshComputePipeline::new(7);
    let bind_groups = GpuVoxelMaterialBindGroups::new(&pipeline, &resources);

    let entries = &bind_groups.0[0].entries;
    assert_eq!(entries.len(), 8);
    for (i, entry) in entries.iter().enumerate() {
        assert_eq!(entry.slot, i as u32);
        assert!(entry.size_bytes > 0);
    }
    // Fixed slot order: edge, triangle, voxels, counters, vertices,
    // normals, indices, texture coordinates.
    let sizes: Vec<u64> = entries.iter().map(|e| e.size_bytes).collect();
    assert_eq!(sizes, vec![1024, 16384, 64, 8, 768, 768, 192, 384]);
}

#[test]
fn round_idempotence_under_static_input() {
    let mut store = VoxelMaterialComponents::new();
    store.insert(11, solid_material(2));
    store.insert(12, solid_material(1));
    let edge = edge_table();
    let tri = tri_table();

    let mut first = VoxelMaterialComponents::new();
    GpuVoxelMaterial::extract(&mut first, &store, &edge, &tri);
    let mut second = VoxelMaterialComponents::new();
    GpuVoxelMaterial::extract(&mut second, &store, &edge, &tri);
    // A further round over the unchanged store must change nothing.
    GpuVoxelMaterial::extract(&mut second, &store, &edge, &tri);

    for id in [11u64, 12u64] {
        let a = first.get(&id).expect("volume rebuilt");
        let b = second.get(&id).expect("volume rebuilt");
        assert!(snapshots_equal(a, b));
    }
    assert_eq!(first.len(), 2);
    assert_eq!(second.len(), 2);
}

#[test]
fn initialize_only_builds_described_volumes() {
    let mut store = VoxelMaterialComponents::new();
    store.insert(5, solid_material(1));
    let edge = edge_table();
    let tri = tri_table();

    let mut resources = VoxelMaterialComponents::new();
    GpuVoxelMaterial::initialize(&mut resources, &store, &vec![5, 99], &edge, &tri);
    assert!(resources.get(&5).is_some());
    assert!(resources.get(&99).is_none());
    assert!(resources.get(&5).unwrap().vertices_buffer.written);
}

#[test]
fn extract_preserves_unknown_volumes() {
    let mut store = VoxelMaterialComponents::new();
    store.insert(1, solid_material(1));
    let edge = edge_table();
    let tri = tri_table();

    let mut resources = VoxelMaterialComponents::new();
    GpuVoxelMaterial::initialize(&mut resources, &store, &vec![1], &edge, &tri);

    // The store moves on to a different volume; the stale entry stays.
    let mut next_store = VoxelMaterialComponents::new();
    next_store.insert(2, solid_material(2));
    GpuVoxelMaterial::extract(&mut resources, &next_store, &edge, &tri);

    assert!(resources.get(&1).is_some());
    assert!(resources.get(&2).is_some());
    assert_eq!(resources.get(&2).unwrap().chunk_size, 2);
}

#[test]
fn component_map_insert_get_and_overwrite() {
    let mut components: VoxelMaterialComponents<u32> = VoxelMaterialComponents::new();
    assert_eq!(components.len(), 0);
    assert!(components.get(&7).is_none());

    components.insert(7, 70);
    components.insert(8, 80);
    assert_eq!(components.len(), 2);
    assert_eq!(components.get(&7), Some(&70));
    assert_eq!(components.get(&8), Some(&80));

    components.insert(7, 71);
    assert_eq!(components.len(), 2);
    assert_eq!(components.get(&7), Some(&71));

    if let Some(v) = components.get_mut(&8) {
        *v = 81;
    }
    assert_eq!(components.get(&8), Some(&81));
    assert!(components.get_mut(&9).is_none());
}

#[test]
fn capacity_invariant_largest_chunk_in_scope() {
    let material = solid_material(32);
    let resources = GpuVoxelMaterial::new(&material, &edge_table(), &tri_table());
    assert_eq!(resources.voxels_buffer.capacity_elems, 32768);
    assert_eq!(resources.voxels_buffer.data.len(), 65536);
    assert_eq!(resources.vertices_buffer.capacity_elems, 768);
    assert_eq!(resources.indices_buffer.capacity_elems, 768);
    assert_eq!(resources.vertices_staging_buffer.capacity_elems, 32);
}

#[test]
fn empty_store_leaves_resources_untouched() {
    let store: VoxelMaterialComponents<VoxelMaterial> = VoxelMaterialComponents::new();
    let mut resources = VoxelMaterialComponents::new();
    GpuVoxelMaterial::extract(&mut resources, &store, &edge_table(), &tri_table());
    assert_eq!(resources.len(), 0);
}

#[test]
fn voxel_defaults_to_fully_solid() {
    let voxel = Voxel::default();
    assert_eq!(voxel.flags, 0);
    assert_eq!(voxel.density_bits, 1.0f32.to_bits());
    let voxel = Voxel::new(9, 0.5f32.to_bits());
    assert_eq!(voxel.flags, 9);
    assert_eq!(voxel.density_bits, 0.5f32.to_bits());
}
