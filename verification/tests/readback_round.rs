//! The dispatch round and the cross-domain readback handshake.

use compute_mesh::channels::{create_readback_channel, words_of_bytes};
use compute_mesh::gpu_voxel_material::GpuVoxelMaterial;
use compute_mesh::gpu_voxel_material_bind_group::GpuVoxelMaterialBindGroups;
use compute_mesh::voxel::Voxel;
use compute_mesh::voxel_material::{VoxelMaterial, VoxelMaterialComponents};
use compute_mesh::voxel_mesh_compute_pipeline::{
    VolumeDispatchOutcome, VoxelMeshComputeNode, VoxelMeshComputePipeline,
};

fn edge_table() -> Vec<u32> {
    (0..256u32).collect()
}

fn tri_table() -> Vec<i32> {
    (0..4096).map(|i| (i % 16) - 1).collect()
}

fn solid_material(chunk_size: u32) -> VoxelMaterial {
    let count = (chunk_size as usize).pow(3);
    let voxels = (0..count).map(|_| Voxel::new(0, 1.0f32.to_bits())).collect();
    VoxelMaterial { voxels, chunk_size }
}

#[test]
fn words_reassemble_little_endian() {
    let bytes = vec![0x78, 0x56, 0x34, 0x12, 0xEF, 0xBE, 0xAD, 0xDE];
    assert_eq!(words_of_bytes(&bytes), vec![0x1234_5678, 0xDEAD_BEEF]);
    assert_eq!(words_of_bytes(&Vec::new()), Vec::<u32>::new());
}

#[test]
fn readback_delivery_exactly_one_message_per_round() {
    let id: u64 = 42;
    let mut store = VoxelMaterialComponents::new();
    store.insert(id, solid_material(8));
    let edge = edge_table();
    let tri = tri_table();

    let mut resources = VoxelMaterialComponents::new();
    GpuVoxelMaterial::initialize(&mut resources, &store, &vec![id], &edge, &tri);
    let pipeline = VoxelMeshComputePipeline::new(1);
    let mut bind_groups = VoxelMaterialComponents::new();
    GpuVoxelMaterialBindGroups::initialise(&mut bind_groups, &resources, &pipeline, &vec![id]);

    let mut node = VoxelMeshComputeNode::new();
    node.update(vec![id]);
    let outcomes = node.run(true, &resources, &bind_groups);
    assert_eq!(outcomes.len(), 1);
    let copy_bytes = match outcomes[0].1 {
        VolumeDispatchOutcome::Dispatched { copy_bytes, .. } => copy_bytes,
        VolumeDispatchOutcome::SkippedMissingState => panic!("volume must dispatch"),
    };
    assert_eq!(copy_bytes, 8 * 16);

    let (sender, receiver) = create_readback_channel();
    let staged = vec![vec![0u8; copy_bytes as usize]];
    assert_eq!(sender.map_and_read_buffer(&staged), Ok(1));

    let message = receiver.receive().expect("one message after one round");
    assert_eq!(message.len(), 32);
    // No phantom duplicates: polling again without a new round yields none.
    assert!(receiver.receive().is_none());
    assert!(receiver.receive().is_none());
}

#[test]
fn skip_on_missing_binding_set() {
    let id: u64 = 3;
    let mut store = VoxelMaterialComponents::new();
    store.insert(id, solid_material(2));
    let edge = edge_table();
    let tri = tri_table();

    let mut resources = VoxelMaterialComponents::new();
    GpuVoxelMaterial::initialize(&mut resources, &store, &vec![id], &edge, &tri);
    // The bind step is omitted on purpose: the round must skip, not abort.
    let bind_groups: VoxelMaterialComponents<GpuVoxelMaterialBindGroups> =
        VoxelMaterialComponents::new();

    let mut node = VoxelMeshComputeNode::new();
    node.update(vec![id]);
    let outcomes = node.run(true, &resources, &bind_groups);
    assert_eq!(outcomes.len(), 1);
    assert_eq!(outcomes[0], (id, VolumeDispatchOutcome::SkippedMissingState));
}

#[test]
fn pipeline_not_ready_defers_the_round() {
    let id: u64 = 4;
    let mut store = VoxelMaterialComponents::new();
    store.insert(id, solid_material(2));
    let edge = edge_table();
    let tri = tri_table();

    let mut resources = VoxelMaterialComponents::new();
    GpuVoxelMaterial::initialize(&mut resources, &store, &vec![id], &edge, &tri);
    let pipeline = VoxelMeshComputePipeline::new(1);
    let mut bind_groups = VoxelMaterialComponents::new();
    GpuVoxelMaterialBindGroups::initialise(&mut bind_groups, &resources, &pipeline, &vec![id]);

    let mut node = VoxelMeshComputeNode::new();
    node.update(vec![id]);
    let outcomes = node.run(false, &resources, &bind_groups);
    assert!(outcomes.is_empty());
}

#[test]
fn end_to_end_uniform_solid_cube() {
    // One volume, chunk size 2: eight voxels, all fully solid with no
    // flags. One full round: rebuild, bind, dispatch, copy, publish, poll.
    let id: u64 = 7;
    let mut store = VoxelMaterialComponents::new();
    store.insert(id, solid_material(2));
    let edge = edge_table();
    let tri = tri_table();

    let mut resources = VoxelMaterialComponents::new();
    GpuVoxelMaterial::extract(&mut resources, &store, &edge, &tri);
    let volume = resources.get(&id).expect("volume extracted");
    assert_eq!(
        volume.voxels_buffer.data,
        vec![
            0,
            1.0f32.to_bits(),
            0,
            1.0f32.to_bits(),
            0,
            1.0f32.to_bits(),
            0,
            1.0f32.to_bits(),
            0,
            1.0f32.to_bits(),
            0,
            1.0f32.to_bits(),
            0,
            1.0f32.to_bits(),
            0,
            1.0f32.to_bits()
        ]
    );
    assert_eq!(volume.atomics_buffer.data, vec![0, 0]);

    let pipeline = VoxelMeshComputePipeline::new(9);
    assert_eq!(pipeline.bind_group_1_layout.entries.len(), 8);
    let mut bind_groups = VoxelMaterialComponents::new();
    GpuVoxelMaterialBindGroups::prepare(&mut bind_groups, &resources, &pipeline);

    let mut node = VoxelMeshComputeNode::new();
    node.update(vec![id]);
    let outcomes = node.run(true, &resources, &bind_groups);
    assert_eq!(outcomes.len(), 1);
    assert_eq!(
        outcomes[0].1,
        VolumeDispatchOutcome::Dispatched {
            workgroups_x: 8,
            workgroups_y: 8,
            workgroups_z: 8,
            copy_bytes: 32,
        }
    );

    let (sender, receiver) = create_readback_channel();
    let staged = vec![vec![0u8; 32]];
    assert_eq!(sender.map_and_read_buffer(&staged), Ok(1));
    let message = receiver.receive().expect("readback message");
    assert_eq!(message, vec![0u32; 8]);
    assert!(receiver.receive().is_none());
}

#[test]
fn dropped_receiver_reports_disconnection() {
    let (sender, receiver) = create_readback_channel();
    drop(receiver);
    let staged = vec![vec![0u8; 4]];
    let err = sender
        .map_and_read_buffer(&staged)
        .expect_err("send into a dropped consumer must fail");
    assert_eq!(err.messages_sent, 0);
}

#[test]
fn multiple_volumes_each_get_a_message() {
    let mut store = VoxelMaterialComponents::new();
    store.insert(1, solid_material(2));
    store.insert(2, solid_material(1));
    let edge = edge_table();
    let tri = tri_table();

    let mut resources = VoxelMaterialComponents::new();
    GpuVoxelMaterial::extract(&mut resources, &store, &edge, &tri);
    let pipeline = VoxelMeshComputePipeline::new(2);
    let mut bind_groups = VoxelMaterialComponents::new();
    GpuVoxelMaterialBindGroups::prepare(&mut bind_groups, &resources, &pipeline);

    let mut node = VoxelMeshComputeNode::new();
    node.update(vec![1, 2]);
    let outcomes = node.run(true, &resources, &bind_groups);
    assert_eq!(outcomes.len(), 2);

    let staged: Vec<Vec<u8>> = outcomes
        .iter()
        .map(|(_, outcome)| match outcome {
            VolumeDispatchOutcome::Dispatched { copy_bytes, .. } => vec![0u8; *copy_bytes as usize],
            VolumeDispatchOutcome::SkippedMissingState => panic!("both volumes must dispatch"),
        })
        .collect();
    let (sender, receiver) = create_readback_channel();
    assert_eq!(sender.map_and_read_buffer(&staged), Ok(2));
    assert_eq!(receiver.receive().expect("first volume's message").len(), 8);
    assert_eq!(receiver.receive().expect("second volume's message").len(), 4);
    assert!(receiver.receive().is_none());
}
