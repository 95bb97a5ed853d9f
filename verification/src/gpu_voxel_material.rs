//! Per-volume device resources and their lifecycle.
//!
//! `GpuVoxelMaterial` bundles every device buffer one volume's meshing round
//! needs: the uploaded voxel samples, the two static lookup tables, the
//! zero-reset append counters, the output arrays reserved for the worst
//! case, and the host-mappable staging buffer for readback. The bundle is
//! rebuilt wholesale from the latest descriptor every round; the rebuild is
//! a pure function of the descriptor and the tables, so two rounds over an
//! unchanged store yield identical snapshots.

use vstd::prelude::*;

use crate::atomics::Atomics;
use crate::gpu_buffer::{GpuBuffer, GpuBufferView};
use crate::voxel::Voxel;
use crate::voxel_material::{
    among, among_keys, cube_nat, VolumeIdentifier, VoxelMaterial, VoxelMaterialComponents,
    VoxelMaterialView,
};

verus! {

/// Bytes of one voxel record: flag bits and the density encoding.
pub const VOXEL_ELEM_BYTES: u64 = 8;

/// Rows of each marching-cubes lookup table.
pub const TABLE_ROWS: u64 = 256;

/// Bytes of one edge-table row.
pub const EDGE_ELEM_BYTES: u64 = 4;

/// Entries of one triangle-table row.
pub const TRI_ROW_ENTRIES: u64 = 16;

/// Bytes of one triangle-table row.
pub const TRI_ELEM_BYTES: u64 = 64;

/// Bytes of one output vertex record.
pub const VERTEX_ELEM_BYTES: u64 = 16;

/// Bytes of one output normal record.
pub const NORMAL_ELEM_BYTES: u64 = 16;

/// Bytes of one output texture-coordinate record.
pub const UV_ELEM_BYTES: u64 = 8;

/// Bytes of one output index record.
pub const INDEX_ELEM_BYTES: u64 = 4;

/// Element count of the append-counter buffer.
pub const ATOMICS_ELEMS: u64 = 2;

/// Bytes of one append counter.
pub const ATOMIC_ELEM_BYTES: u64 = 4;

/// Worst-case output records reserved per chunk unit.
pub const OUTPUTS_PER_CHUNK_UNIT: u64 = 24;

/// The voxel buffer's byte size must stay addressable; every other buffer is
/// smaller for any chunk size.
pub open spec fn sizes_fit(chunk_size: u32) -> bool {
    cube_nat(chunk_size) * (VOXEL_ELEM_BYTES as nat) <= u64::MAX
}

/// The words a voxel sequence uploads: flag bits then density encoding, per
/// sample.
pub open spec fn voxel_words(s: Seq<Voxel>) -> Seq<u32> {
    Seq::new(
        2 * s.len(),
        |i: int| if i % 2 == 0 { s[i / 2].flags } else { s[i / 2].density_bits },
    )
}

/// The words a triangle-table upload carries: each entry reinterpreted as an
/// unsigned word.
pub open spec fn table_words(t: Seq<i32>) -> Seq<u32> {
    Seq::new(t.len(), |i: int| t[i] as u32)
}

/// Ghost snapshot of one volume's device resources.
#[verifier::ext_equal]
pub ghost struct GpuVoxelMaterialView {
    pub chunk_size: u32,
    pub voxels: GpuBufferView,
    pub edge_table: GpuBufferView,
    pub tri_table: GpuBufferView,
    pub vertices: GpuBufferView,
    pub normals: GpuBufferView,
    pub uvs: GpuBufferView,
    pub indices: GpuBufferView,
    pub atomics: GpuBufferView,
    pub vertices_staging: GpuBufferView,
}

impl GpuVoxelMaterialView {
    /// The capacity invariant: every buffer is reserved for the worst case
    /// of its chunk size before anything is written, the append counters
    /// read zero, and no buffer holds more words than it reserved room for.
    pub open spec fn wf(&self) -> bool {
        &&& self.chunk_size >= 1
        &&& self.voxels.wf()
        &&& self.voxels.elem_bytes == VOXEL_ELEM_BYTES
        &&& self.voxels.capacity_elems == cube_nat(self.chunk_size)
        &&& self.edge_table.wf()
        &&& self.edge_table.elem_bytes == EDGE_ELEM_BYTES
        &&& self.edge_table.capacity_elems == TABLE_ROWS
        &&& self.tri_table.wf()
        &&& self.tri_table.elem_bytes == TRI_ELEM_BYTES
        &&& self.tri_table.capacity_elems == TABLE_ROWS
        &&& self.vertices.wf()
        &&& self.vertices.elem_bytes == VERTEX_ELEM_BYTES
        &&& self.vertices.capacity_elems == (self.chunk_size as nat) * (OUTPUTS_PER_CHUNK_UNIT as nat)
        &&& self.normals.wf()
        &&& self.normals.elem_bytes == NORMAL_ELEM_BYTES
        &&& self.normals.capacity_elems == (self.chunk_size as nat) * (OUTPUTS_PER_CHUNK_UNIT as nat)
        &&& self.uvs.wf()
        &&& self.uvs.elem_bytes == UV_ELEM_BYTES
        &&& self.uvs.capacity_elems == (self.chunk_size as nat) * (OUTPUTS_PER_CHUNK_UNIT as nat)
        &&& self.indices.wf()
        &&& self.indices.elem_bytes == INDEX_ELEM_BYTES
        &&& self.indices.capacity_elems == (self.chunk_size as nat) * (OUTPUTS_PER_CHUNK_UNIT as nat)
        &&& self.atomics.wf()
        &&& self.atomics.elem_bytes == ATOMIC_ELEM_BYTES
        &&& self.atomics.capacity_elems == ATOMICS_ELEMS
        &&& self.atomics.words == seq![0u32, 0u32]
        &&& self.vertices_staging.wf()
        &&& self.vertices_staging.elem_bytes == VERTEX_ELEM_BYTES
        &&& self.vertices_staging.capacity_elems == self.chunk_size
    }

    /// Upload completed: the input buffers carry their contents, the vertex
    /// output buffer was written, and all eight bindable buffers have a
    /// non-empty handle.
    pub open spec fn uploaded(&self) -> bool {
        &&& self.wf()
        &&& self.voxels.written
        &&& self.edge_table.written
        &&& self.tri_table.written
        &&& self.vertices.written
        &&& self.atomics.written
        &&& self.voxels.bindable()
        &&& self.edge_table.bindable()
        &&& self.tri_table.bindable()
        &&& self.vertices.bindable()
        &&& self.normals.bindable()
        &&& self.uvs.bindable()
        &&& self.indices.bindable()
        &&& self.atomics.bindable()
    }
}

/// The device snapshot a rebuild from one descriptor produces. The vertex
/// output buffer counts as written only after the explicit vertex upload
/// that follows creation.
pub open spec fn resources_of(
    m: VoxelMaterialView,
    edge: Seq<u32>,
    tri: Seq<i32>,
    vertices_written: bool,
) -> GpuVoxelMaterialView {
    GpuVoxelMaterialView {
        chunk_size: m.chunk_size,
        voxels: GpuBufferView {
            capacity_elems: cube_nat(m.chunk_size) as u64,
            elem_bytes: VOXEL_ELEM_BYTES,
            words: voxel_words(m.voxels),
            written: true,
        },
        edge_table: GpuBufferView {
            capacity_elems: TABLE_ROWS,
            elem_bytes: EDGE_ELEM_BYTES,
            words: edge,
            written: true,
        },
        tri_table: GpuBufferView {
            capacity_elems: TABLE_ROWS,
            elem_bytes: TRI_ELEM_BYTES,
            words: table_words(tri),
            written: true,
        },
        vertices: GpuBufferView {
            capacity_elems: ((m.chunk_size as nat) * (OUTPUTS_PER_CHUNK_UNIT as nat)) as u64,
            elem_bytes: VERTEX_ELEM_BYTES,
            words: Seq::empty(),
            written: vertices_written,
        },
        normals: GpuBufferView {
            capacity_elems: ((m.chunk_size as nat) * (OUTPUTS_PER_CHUNK_UNIT as nat)) as u64,
            elem_bytes: NORMAL_ELEM_BYTES,
            words: Seq::empty(),
            written: false,
        },
        uvs: GpuBufferView {
            capacity_elems: ((m.chunk_size as nat) * (OUTPUTS_PER_CHUNK_UNIT as nat)) as u64,
            elem_bytes: UV_ELEM_BYTES,
            words: Seq::empty(),
            written: false,
        },
        indices: GpuBufferView {
            capacity_elems: ((m.chunk_size as nat) * (OUTPUTS_PER_CHUNK_UNIT as nat)) as u64,
            elem_bytes: INDEX_ELEM_BYTES,
            words: Seq::empty(),
            written: false,
        },
        atomics: GpuBufferView {
            capacity_elems: ATOMICS_ELEMS,
            elem_bytes: ATOMIC_ELEM_BYTES,
            words: seq![0u32, 0u32],
            written: true,
        },
        vertices_staging: GpuBufferView {
            capacity_elems: m.chunk_size as u64,
            elem_bytes: VERTEX_ELEM_BYTES,
            words: Seq::empty(),
            written: false,
        },
    }
}

/// One volume's device buffers, rebuilt from its descriptor each round.
pub struct GpuVoxelMaterial {
    pub chunk_size: u32,
    pub voxels_buffer: GpuBuffer,
    pub edge_table_buffer: GpuBuffer,
    pub tri_table_buffer: GpuBuffer,
    pub vertices_buffer: GpuBuffer,
    pub normals_buffer: GpuBuffer,
    pub uvs_buffer: GpuBuffer,
    pub indices_buffer: GpuBuffer,
    pub atomics_buffer: GpuBuffer,
    pub vertices_staging_buffer: GpuBuffer,
}

impl View for GpuVoxelMaterial {
    type V = GpuVoxelMaterialView;

    open spec fn view(&self) -> GpuVoxelMaterialView {
        GpuVoxelMaterialView {
            chunk_size: self.chunk_size,
            voxels: self.voxels_buffer@,
            edge_table: self.edge_table_buffer@,
            tri_table: self.tri_table_buffer@,
            vertices: self.vertices_buffer@,
            normals: self.normals_buffer@,
            uvs: self.uvs_buffer@,
            indices: self.indices_buffer@,
            atomics: self.atomics_buffer@,
            vertices_staging: self.vertices_staging_buffer@,
        }
    }
}

/// Serializes voxel samples into upload words: flag bits then density
/// encoding, per sample.
fn voxel_words_vec(voxels: &Vec<Voxel>) -> (r: Vec<u32>)
    ensures
        r@ == voxel_words(voxels@),
{
    let mut r: Vec<u32> = Vec::new();
    let mut i: usize = 0;
    while i < voxels.len()
        invariant
            i <= voxels@.len(),
            r@.len() == 2 * i,
            forall|j: int|
                0 <= j < 2 * i ==> r@[j] == (if j % 2 == 0 {
                    voxels@[j / 2].flags
                } else {
                    voxels@[j / 2].density_bits
                }),
        decreases voxels@.len() - i,
    {
        r.push(voxels[i].flags);
        r.push(voxels[i].density_bits);
        i = i + 1;
    }
    proof {
        assert(r@ =~= voxel_words(voxels@));
    }
    r
}

/// Copies table words for upload.
fn copy_words(t: &Vec<u32>) -> (r: Vec<u32>)
    ensures
        r@ == t@,
{
    let mut r: Vec<u32> = Vec::new();
    let mut i: usize = 0;
    while i < t.len()
        invariant
            i <= t@.len(),
            r@ == t@.take(i as int),
        decreases t@.len() - i,
    {
        r.push(t[i]);
        proof {
            assert(r@ =~= t@.take(i + 1));
        }
        i = i + 1;
    }
    proof {
        assert(r@ =~= t@);
    }
    r
}

/// Reinterprets triangle-table entries as unsigned upload words.
fn table_words_vec(t: &Vec<i32>) -> (r: Vec<u32>)
    ensures
        r@ == table_words(t@),
{
    let mut r: Vec<u32> = Vec::new();
    let mut i: usize = 0;
    while i < t.len()
        invariant
            i <= t@.len(),
            r@.len() == i,
            forall|j: int| 0 <= j < i ==> r@[j] == t@[j] as u32,
        decreases t@.len() - i,
    {
        r.push(t[i] as u32);
        i = i + 1;
    }
    proof {
        assert(r@ =~= table_words(t@));
    }
    r
}

impl GpuVoxelMaterial {
    /// Builds the device resources of one volume: reserves every buffer for
    /// the worst case of the descriptor's chunk size, uploads the voxel
    /// samples and both lookup tables, resets the append counters, and
    /// leaves the output buffers unwritten.
    pub fn new(voxel_material: &VoxelMaterial, edge_table: &Vec<u32>, tri_table: &Vec<i32>) -> (r:
        GpuVoxelMaterial)
        requires
            voxel_material@.wf(),
            sizes_fit(voxel_material@.chunk_size),
            edge_table@.len() == TABLE_ROWS,
            tri_table@.len() == TABLE_ROWS * TRI_ROW_ENTRIES,
        ensures
            r@ == resources_of(voxel_material@, edge_table@, tri_table@, false),
            r@.wf(),
    {
        let c: u64 = voxel_material.chunk_size as u64;
        proof {
            assert(c * c <= 0xFFFF_FFFF * 0xFFFF_FFFF) by (nonlinear_arith)
                requires
                    c <= 0xFFFF_FFFF,
            ;
            assert(c * c * c == cube_nat(voxel_material@.chunk_size));
        }
        let c2: u64 = c * c;
        let cube: u64 = c2 * c;

        let mut voxels_buffer = GpuBuffer::reserve(cube, VOXEL_ELEM_BYTES);
        let voxel_data = voxel_words_vec(&voxel_material.voxels);
        voxels_buffer.write_words(voxel_data);

        let mut edge_table_buffer = GpuBuffer::reserve(TABLE_ROWS, EDGE_ELEM_BYTES);
        edge_table_buffer.write_words(copy_words(edge_table));

        let mut tri_table_buffer = GpuBuffer::reserve(TABLE_ROWS, TRI_ELEM_BYTES);
        tri_table_buffer.write_words(table_words_vec(tri_table));

        let out_elems: u64 = c * OUTPUTS_PER_CHUNK_UNIT;
        let vertices_buffer = GpuBuffer::reserve(out_elems, VERTEX_ELEM_BYTES);
        let normals_buffer = GpuBuffer::reserve(out_elems, NORMAL_ELEM_BYTES);
        let uvs_buffer = GpuBuffer::reserve(out_elems, UV_ELEM_BYTES);
        let indices_buffer = GpuBuffer::reserve(out_elems, INDEX_ELEM_BYTES);

        let mut atomics_buffer = GpuBuffer::reserve(ATOMICS_ELEMS, ATOMIC_ELEM_BYTES);
        let counters = Atomics::new();
        let mut counter_words: Vec<u32> = Vec::new();
        counter_words.push(counters.vertices_head);
        counter_words.push(counters.indices_head);
        proof {
            assert(counter_words@ =~= seq![0u32, 0u32]);
        }
        atomics_buffer.write_words(counter_words);

        let vertices_staging_buffer = GpuBuffer::reserve(c, VERTEX_ELEM_BYTES);

        let r = GpuVoxelMaterial {
            chunk_size: voxel_material.chunk_size,
            voxels_buffer,
            edge_table_buffer,
            tri_table_buffer,
            vertices_buffer,
            normals_buffer,
            uvs_buffer,
            indices_buffer,
            atomics_buffer,
            vertices_staging_buffer,
        };
        proof {
            assert(r@ =~= resources_of(voxel_material@, edge_table@, tri_table@, false));
        }
        r
    }

    /// Uploads the vertex output buffer's initial contents, completing the
    /// upload phase that binding requires.
    pub fn upload_vertices(&mut self)
        requires
            old(self)@.wf(),
        ensures
            final(self)@ == (GpuVoxelMaterialView {
                vertices: GpuBufferView {
                    capacity_elems: old(self)@.vertices.capacity_elems,
                    elem_bytes: old(self)@.vertices.elem_bytes,
                    words: old(self)@.vertices.words,
                    written: true,
                },
                ..old(self)@
            }),
            final(self)@.wf(),
    {
        self.vertices_buffer.written = true;
    }
}

/// Every descriptor the store holds is well formed and addressable.
pub open spec fn store_wf(store: Map<VolumeIdentifier, VoxelMaterial>) -> bool {
    forall|k: VolumeIdentifier|
        #![trigger store.contains_key(k)]
        #![trigger store[k]]
        store.contains_key(k) ==> store[k]@.wf() && sizes_fit(store[k]@.chunk_size)
}

/// Every resource bundle the map holds has completed its upload.
pub open spec fn resources_wf(resources: Map<VolumeIdentifier, GpuVoxelMaterial>) -> bool {
    forall|k: VolumeIdentifier|
        #![trigger resources.contains_key(k)]
        #![trigger resources[k]]
        resources.contains_key(k) ==> resources[k]@.uploaded()
}

/// Every volume the store knows has freshly rebuilt, fully uploaded device
/// resources matching its latest descriptor.
pub open spec fn refreshed(
    resources: Map<VolumeIdentifier, GpuVoxelMaterial>,
    store: Map<VolumeIdentifier, VoxelMaterial>,
    edge: Seq<u32>,
    tri: Seq<i32>,
) -> bool {
    forall|k: VolumeIdentifier|
        #![trigger store.contains_key(k)]
        #![trigger resources.contains_key(k)]
        #![trigger resources[k]]
        store.contains_key(k) ==> resources.contains_key(k) && resources[k]@ == resources_of(
            store[k]@,
            edge,
            tri,
            true,
        )
}

/// A rebuilt bundle has completed its upload once its vertex buffer was
/// written: every buffer is reserved, the inputs and counters carry their
/// words, and all eight bindable handles are non-empty.
pub proof fn lemma_resources_uploaded(m: VoxelMaterialView, edge: Seq<u32>, tri: Seq<i32>)
    requires
        m.wf(),
        sizes_fit(m.chunk_size),
        edge.len() == TABLE_ROWS,
        tri.len() == TABLE_ROWS * TRI_ROW_ENTRIES,
    ensures
        resources_of(m, edge, tri, true).wf(),
        resources_of(m, edge, tri, true).uploaded(),
        resources_of(m, edge, tri, false).wf(),
{
    assert(cube_nat(m.chunk_size) >= 1) by (nonlinear_arith)
        requires
            m.chunk_size >= 1,
    ;
}

/// Capacity invariant: for any positive chunk size the rebuilt bundle
/// reserves at least the worst-case element count of every buffer, and the
/// upload of all chunk-cubed voxel samples stays within the voxel buffer's
/// reservation.
pub proof fn lemma_capacity_invariant(
    m: VoxelMaterialView,
    edge: Seq<u32>,
    tri: Seq<i32>,
    vertices_written: bool,
)
    requires
        m.wf(),
        sizes_fit(m.chunk_size),
        edge.len() == TABLE_ROWS,
        tri.len() == TABLE_ROWS * TRI_ROW_ENTRIES,
    ensures
        resources_of(m, edge, tri, vertices_written).wf(),
        resources_of(m, edge, tri, vertices_written).voxels.capacity_elems >= cube_nat(
            m.chunk_size,
        ),
        resources_of(m, edge, tri, vertices_written).voxels.words.len() == 2 * cube_nat(
            m.chunk_size,
        ),
        resources_of(m, edge, tri, vertices_written).voxels.words.len() * 4 <= resources_of(
            m,
            edge,
            tri,
            vertices_written,
        ).voxels.size_bytes(),
        resources_of(m, edge, tri, vertices_written).vertices.capacity_elems >= (
        m.chunk_size as nat) * (OUTPUTS_PER_CHUNK_UNIT as nat),
        resources_of(m, edge, tri, vertices_written).normals.capacity_elems >= (
        m.chunk_size as nat) * (OUTPUTS_PER_CHUNK_UNIT as nat),
        resources_of(m, edge, tri, vertices_written).uvs.capacity_elems >= (m.chunk_size as nat)
            * (OUTPUTS_PER_CHUNK_UNIT as nat),
        resources_of(m, edge, tri, vertices_written).indices.capacity_elems >= (
        m.chunk_size as nat) * (OUTPUTS_PER_CHUNK_UNIT as nat),
        resources_of(m, edge, tri, vertices_written).edge_table.capacity_elems >= TABLE_ROWS,
        resources_of(m, edge, tri, vertices_written).tri_table.capacity_elems >= TABLE_ROWS,
        resources_of(m, edge, tri, vertices_written).atomics.capacity_elems >= ATOMICS_ELEMS,
        resources_of(m, edge, tri, vertices_written).vertices_staging.capacity_elems
            >= m.chunk_size,
{
}

/// Round idempotence under static input: whatever resources existed before
/// each of two rounds, refreshing against the same store, tables included,
/// leaves identical device snapshots for every stored volume. The
/// rebuild-from-scratch is deterministic, so a second round over unchanged
/// input changes nothing.
pub proof fn lemma_round_idempotent(
    r1: Map<VolumeIdentifier, GpuVoxelMaterial>,
    r2: Map<VolumeIdentifier, GpuVoxelMaterial>,
    store: Map<VolumeIdentifier, VoxelMaterial>,
    edge: Seq<u32>,
    tri: Seq<i32>,
)
    requires
        refreshed(r1, store, edge, tri),
        refreshed(r2, store, edge, tri),
    ensures
        forall|k: VolumeIdentifier|
            store.contains_key(k) ==> (#[trigger] r1[k])@ == r2[k]@,
{
}

/// Rebuilds one volume's resources from its descriptor and uploads the
/// vertex buffer, as both lifecycle entry points do.
fn rebuild_volume(voxel_material: &VoxelMaterial, edge_table: &Vec<u32>, tri_table: &Vec<i32>) -> (r:
    GpuVoxelMaterial)
    requires
        voxel_material@.wf(),
        sizes_fit(voxel_material@.chunk_size),
        edge_table@.len() == TABLE_ROWS,
        tri_table@.len() == TABLE_ROWS * TRI_ROW_ENTRIES,
    ensures
        r@ == resources_of(voxel_material@, edge_table@, tri_table@, true),
        r@.uploaded(),
{
    let mut r = GpuVoxelMaterial::new(voxel_material, edge_table, tri_table);
    r.upload_vertices();
    proof {
        assert(r@ =~= resources_of(voxel_material@, edge_table@, tri_table@, true));
        lemma_resources_uploaded(voxel_material@, edge_table@, tri_table@);
    }
    r
}

impl GpuVoxelMaterial {
    /// Creates and uploads device resources for each newly observed volume
    /// among `added` that the store describes; other volumes keep their
    /// resources untouched.
    pub fn initialize(
        gpu_voxel_materials: &mut VoxelMaterialComponents<GpuVoxelMaterial>,
        voxel_materials: &VoxelMaterialComponents<VoxelMaterial>,
        added: &Vec<VolumeIdentifier>,
        edge_table: &Vec<u32>,
        tri_table: &Vec<i32>,
    )
        requires
            old(gpu_voxel_materials).wf(),
            resources_wf(old(gpu_voxel_materials)@),
            voxel_materials.wf(),
            store_wf(voxel_materials@),
            edge_table@.len() == TABLE_ROWS,
            tri_table@.len() == TABLE_ROWS * TRI_ROW_ENTRIES,
        ensures
            final(gpu_voxel_materials).wf(),
            resources_wf(final(gpu_voxel_materials)@),
            forall|k: VolumeIdentifier|
                #![trigger final(gpu_voxel_materials)@.contains_key(k)]
                #![trigger final(gpu_voxel_materials)@[k]]
                added@.contains(k) && voxel_materials@.contains_key(k)
                    ==> final(gpu_voxel_materials)@.contains_key(k)
                    && final(gpu_voxel_materials)@[k]@
                    == resources_of(voxel_materials@[k]@, edge_table@, tri_table@, true),
            forall|k: VolumeIdentifier|
                #![trigger final(gpu_voxel_materials)@.contains_key(k)]
                #![trigger final(gpu_voxel_materials)@[k]]
                !(added@.contains(k) && voxel_materials@.contains_key(k))
                    ==> final(gpu_voxel_materials)@.contains_key(k)
                    == old(gpu_voxel_materials)@.contains_key(k)
                    && (old(gpu_voxel_materials)@.contains_key(k)
                    ==> final(gpu_voxel_materials)@[k] == old(gpu_voxel_materials)@[k]),
    {
        let mut j: usize = 0;
        while j < added.len()
            invariant
                j <= added@.len(),
                gpu_voxel_materials.wf(),
                resources_wf(gpu_voxel_materials@),
                voxel_materials.wf(),
                store_wf(voxel_materials@),
                edge_table@.len() == TABLE_ROWS,
                tri_table@.len() == TABLE_ROWS * TRI_ROW_ENTRIES,
                forall|k: VolumeIdentifier|
                    #![trigger gpu_voxel_materials@.contains_key(k)]
                    #![trigger gpu_voxel_materials@[k]]
                    among(added@, j as int, k) && voxel_materials@.contains_key(k)
                        ==> gpu_voxel_materials@.contains_key(k) && gpu_voxel_materials@[k]@
                        == resources_of(voxel_materials@[k]@, edge_table@, tri_table@, true),
                forall|k: VolumeIdentifier|
                    #![trigger gpu_voxel_materials@.contains_key(k)]
                    #![trigger gpu_voxel_materials@[k]]
                    !(among(added@, j as int, k) && voxel_materials@.contains_key(k))
                        ==> gpu_voxel_materials@.contains_key(k)
                        == old(gpu_voxel_materials)@.contains_key(k)
                        && (old(gpu_voxel_materials)@.contains_key(k)
                        ==> gpu_voxel_materials@[k] == old(gpu_voxel_materials)@[k]),
            decreases added@.len() - j,
        {
            let id = added[j];
            let ghost prior = gpu_voxel_materials@;
            if let Some(voxel_material) = voxel_materials.get(&id) {
                let gpu_voxel_material = rebuild_volume(voxel_material, edge_table, tri_table);
                gpu_voxel_materials.insert(id, gpu_voxel_material);
            }
            proof {
                assert forall|k: VolumeIdentifier|
                    #![trigger gpu_voxel_materials@.contains_key(k)]
                    #![trigger gpu_voxel_materials@[k]]
                    among(added@, j + 1, k) && voxel_materials@.contains_key(k)
                        implies gpu_voxel_materials@.contains_key(k) && gpu_voxel_materials@[k]@
                        == resources_of(voxel_materials@[k]@, edge_table@, tri_table@, true) by {
                    let i = choose|i: int| 0 <= i < j + 1 && added@[i] == k;
                    assert(0 <= i < j + 1 && added@[i] == k);
                    if i < j {
                        assert(0 <= i < j && added@[i] == k);
                        assert(among(added@, j as int, k));
                        assert(prior[k]@ == resources_of(
                            voxel_materials@[k]@,
                            edge_table@,
                            tri_table@,
                            true,
                        ) && prior.contains_key(k));
                        assert(gpu_voxel_materials@.contains_key(k));
                        assert(k != id ==> gpu_voxel_materials@[k] == prior[k]);
                    } else {
                        assert(k == added@[j as int]);
                        assert(k == id);
                        assert(gpu_voxel_materials@.contains_key(k));
                    }
                }
                assert forall|k: VolumeIdentifier|
                    #![trigger gpu_voxel_materials@.contains_key(k)]
                    #![trigger gpu_voxel_materials@[k]]
                    !(among(added@, j + 1, k) && voxel_materials@.contains_key(k))
                        implies gpu_voxel_materials@.contains_key(k) == old(
                    gpu_voxel_materials,
                )@.contains_key(k) && (old(gpu_voxel_materials)@.contains_key(k)
                    ==> gpu_voxel_materials@[k] == old(gpu_voxel_materials)@[k]) by {
                    if among(added@, j as int, k) {
                        let i = choose|i: int| 0 <= i < j && added@[i] == k;
                        assert(0 <= i < j + 1 && added@[i] == k);
                        assert(among(added@, j + 1, k));
                    }
                    if k == added@[j as int] {
                        assert(0 <= j < j + 1 && added@[j as int] == k);
                        assert(among(added@, j + 1, k));
                    }
                }
            }
            j = j + 1;
        }
        proof {
            assert forall|k: VolumeIdentifier| added@.contains(k) implies among(
                added@,
                added@.len() as int,
                k,
            ) by {
                let i = choose|i: int| 0 <= i < added@.len() && added@[i] == k;
                assert(0 <= i < added@.len() && added@[i] == k);
            }
        }
    }

    /// Refreshes every stored volume's device resources from the latest
    /// descriptor snapshot: an unconditional rebuild and re-upload, with no
    /// diffing. Resources of volumes the store no longer describes stay as
    /// they were.
    pub fn extract(
        gpu_voxel_materials: &mut VoxelMaterialComponents<GpuVoxelMaterial>,
        voxel_materials: &VoxelMaterialComponents<VoxelMaterial>,
        edge_table: &Vec<u32>,
        tri_table: &Vec<i32>,
    )
        requires
            old(gpu_voxel_materials).wf(),
            resources_wf(old(gpu_voxel_materials)@),
            voxel_materials.wf(),
            store_wf(voxel_materials@),
            edge_table@.len() == TABLE_ROWS,
            tri_table@.len() == TABLE_ROWS * TRI_ROW_ENTRIES,
        ensures
            final(gpu_voxel_materials).wf(),
            resources_wf(final(gpu_voxel_materials)@),
            refreshed(final(gpu_voxel_materials)@, voxel_materials@, edge_table@, tri_table@),
            forall|k: VolumeIdentifier|
                #![trigger final(gpu_voxel_materials)@.contains_key(k)]
                #![trigger final(gpu_voxel_materials)@[k]]
                final(gpu_voxel_materials)@.contains_key(k)
                    <==> old(gpu_voxel_materials)@.contains_key(k)
                    || voxel_materials@.contains_key(k),
            forall|k: VolumeIdentifier|
                #![trigger final(gpu_voxel_materials)@.contains_key(k)]
                #![trigger final(gpu_voxel_materials)@[k]]
                !voxel_materials@.contains_key(k) && old(gpu_voxel_materials)@.contains_key(k)
                    ==> final(gpu_voxel_materials)@[k] == old(gpu_voxel_materials)@[k],
    {
        let ghost store_entries = voxel_materials.entries@;
        let mut j: usize = 0;
        while j < voxel_materials.entries.len()
            invariant
                j <= store_entries.len(),
                voxel_materials.entries@ == store_entries,
                gpu_voxel_materials.wf(),
                resources_wf(gpu_voxel_materials@),
                voxel_materials.wf(),
                store_wf(voxel_materials@),
                edge_table@.len() == TABLE_ROWS,
                tri_table@.len() == TABLE_ROWS * TRI_ROW_ENTRIES,
                forall|jj: int|
                    0 <= jj < j ==> gpu_voxel_materials@.contains_key(
                        (#[trigger] store_entries[jj]).0,
                    ) && gpu_voxel_materials@[store_entries[jj].0]@ == resources_of(
                        store_entries[jj].1@,
                        edge_table@,
                        tri_table@,
                        true,
                    ),
                forall|k: VolumeIdentifier|
                    #![trigger gpu_voxel_materials@.contains_key(k)]
                    #![trigger gpu_voxel_materials@[k]]
                    !among_keys(store_entries, j as int, k)
                        ==> gpu_voxel_materials@.contains_key(k)
                        == old(gpu_voxel_materials)@.contains_key(k)
                        && (old(gpu_voxel_materials)@.contains_key(k)
                        ==> gpu_voxel_materials@[k] == old(gpu_voxel_materials)@[k]),
            decreases store_entries.len() - j,
        {
            let id = voxel_materials.entries[j].0;
            proof {
                crate::voxel_material::lemma_map_of_index(store_entries, j as int);
            }
            let gpu_voxel_material = rebuild_volume(
                &voxel_materials.entries[j].1,
                edge_table,
                tri_table,
            );
            gpu_voxel_materials.insert(id, gpu_voxel_material);
            proof {
                assert forall|jj: int| 0 <= jj < j + 1 implies gpu_voxel_materials@.contains_key(
                    (#[trigger] store_entries[jj]).0,
                ) && gpu_voxel_materials@[store_entries[jj].0]@ == resources_of(
                    store_entries[jj].1@,
                    edge_table@,
                    tri_table@,
                    true,
                ) by {
                    if jj < j {
                        assert(store_entries[jj].0 != store_entries[j as int].0);
                    }
                }
                assert forall|k: VolumeIdentifier|
                    #![trigger gpu_voxel_materials@.contains_key(k)]
                    #![trigger gpu_voxel_materials@[k]]
                    !among_keys(store_entries, j + 1, k)
                        implies gpu_voxel_materials@.contains_key(k) == old(
                    gpu_voxel_materials,
                )@.contains_key(k) && (old(gpu_voxel_materials)@.contains_key(k)
                    ==> gpu_voxel_materials@[k] == old(gpu_voxel_materials)@[k]) by {
                    if among_keys(store_entries, j as int, k) {
                        let i = choose|i: int|
                            0 <= i < j && (#[trigger] store_entries[i]).0 == k;
                        assert(0 <= i < j + 1 && store_entries[i].0 == k);
                        assert(among_keys(store_entries, j + 1, k));
                    }
                    if k == store_entries[j as int].0 {
                        assert(0 <= j < j + 1 && store_entries[j as int].0 == k);
                        assert(among_keys(store_entries, j + 1, k));
                    }
                }
            }
            j = j + 1;
        }
        proof {
            let n = store_entries.len() as int;
            assert forall|k: VolumeIdentifier|
                #![trigger voxel_materials@.contains_key(k)]
                #![trigger gpu_voxel_materials@.contains_key(k)]
                #![trigger gpu_voxel_materials@[k]]
                voxel_materials@.contains_key(k) implies gpu_voxel_materials@.contains_key(k)
                && gpu_voxel_materials@[k]@ == resources_of(
                voxel_materials@[k]@,
                edge_table@,
                tri_table@,
                true,
            ) by {
                crate::voxel_material::lemma_map_of_contains(store_entries, k);
                let jj = choose|jj: int|
                    0 <= jj < store_entries.len() && (#[trigger] store_entries[jj]).0 == k;
                crate::voxel_material::lemma_map_of_index(store_entries, jj);
            }
            assert forall|k: VolumeIdentifier| among_keys(store_entries, n, k)
                implies voxel_materials@.contains_key(k) by {
                let jj = choose|jj: int| 0 <= jj < n && (#[trigger] store_entries[jj]).0 == k;
                crate::voxel_material::lemma_map_of_index(store_entries, jj);
            }
            assert(refreshed(gpu_voxel_materials@, voxel_materials@, edge_table@, tri_table@));
        }
    }
}

} // verus!
