//! Volume descriptors and the per-volume component maps.
//!
//! A `VoxelMaterial` is the host-side description of one volume: its voxel
//! samples and its chunk size. `VoxelMaterialComponents` keys any per-volume
//! component by a volume identifier; it keeps keys unique and insertion order
//! stable, and is viewed as a `Map` in contracts.

use vstd::prelude::*;

use crate::voxel::Voxel;

verus! {

/// Opaque handle joining all per-volume maps.
pub type VolumeIdentifier = u64;

/// Ghost snapshot of one volume descriptor.
pub ghost struct VoxelMaterialView {
    pub voxels: Seq<Voxel>,
    pub chunk_size: u32,
}

/// The worst-case voxel count of a chunk: the cube of its size.
pub open spec fn cube_nat(chunk_size: u32) -> nat {
    chunk_size as nat * chunk_size as nat * chunk_size as nat
}

impl VoxelMaterialView {
    /// A descriptor is well formed when its chunk size is positive and it
    /// carries exactly one sample per cell of the cubic grid.
    pub open spec fn wf(&self) -> bool {
        &&& self.chunk_size >= 1
        &&& self.voxels.len() == cube_nat(self.chunk_size)
    }
}

/// Host-side description of one volume: the voxel samples of a cubic grid,
/// with the grid's side length.
pub struct VoxelMaterial {
    pub voxels: Vec<Voxel>,
    pub chunk_size: u32,
}

impl View for VoxelMaterial {
    type V = VoxelMaterialView;

    open spec fn view(&self) -> VoxelMaterialView {
        VoxelMaterialView { voxels: self.voxels@, chunk_size: self.chunk_size }
    }
}

/// The map a keyed entry sequence denotes; later entries override earlier
/// ones, so on sequences with distinct keys each entry is authoritative.
pub open spec fn map_of<C>(s: Seq<(VolumeIdentifier, C)>) -> Map<VolumeIdentifier, C>
    decreases s.len(),
{
    if s.len() == 0 {
        Map::empty()
    } else {
        map_of(s.drop_last()).insert(s.last().0, s.last().1)
    }
}

/// Some entry among the first `n` of `s` equals `k`.
pub open spec fn among(s: Seq<VolumeIdentifier>, n: int, k: VolumeIdentifier) -> bool {
    exists|i: int| 0 <= i < n && s[i] == k
}

/// Some entry among the first `n` of `s` carries key `k`.
pub open spec fn among_keys<C>(s: Seq<(VolumeIdentifier, C)>, n: int, k: VolumeIdentifier) -> bool {
    exists|i: int| 0 <= i < n && (#[trigger] s[i]).0 == k
}

/// No two entries share a key.
pub open spec fn distinct_keys<C>(s: Seq<(VolumeIdentifier, C)>) -> bool {
    forall|i: int, j: int|
        0 <= i < j < s.len() ==> (#[trigger] s[i]).0 != (#[trigger] s[j]).0
}

/// A key is in the denoted map exactly when some entry carries it.
pub proof fn lemma_map_of_contains<C>(s: Seq<(VolumeIdentifier, C)>, k: VolumeIdentifier)
    ensures
        map_of(s).contains_key(k) <==> exists|i: int| 0 <= i < s.len() && (#[trigger] s[i]).0 == k,
    decreases s.len(),
{
    if s.len() > 0 {
        lemma_map_of_contains(s.drop_last(), k);
        if s.last().0 == k {
            assert(s[s.len() - 1].0 == k);
        } else if map_of(s).contains_key(k) {
            let i = choose|i: int| 0 <= i < s.drop_last().len() && (#[trigger] s.drop_last()[i]).0 == k;
            assert(s[i].0 == k);
        } else {
            assert forall|i: int| 0 <= i < s.len() implies (#[trigger] s[i]).0 != k by {
                if i < s.len() - 1 {
                    assert(s.drop_last()[i].0 == s[i].0);
                }
            }
        }
    }
}

/// On a distinct-keyed sequence, the entry at any index gives the map's value
/// at its key.
pub proof fn lemma_map_of_index<C>(s: Seq<(VolumeIdentifier, C)>, i: int)
    requires
        distinct_keys(s),
        0 <= i < s.len(),
    ensures
        map_of(s).contains_key(s[i].0),
        map_of(s)[s[i].0] == s[i].1,
    decreases s.len(),
{
    if i == s.len() - 1 {
    } else {
        assert(distinct_keys(s.drop_last()));
        assert(s.drop_last()[i] == s[i]);
        lemma_map_of_index(s.drop_last(), i);
        assert(s[i].0 != s.last().0);
    }
}

/// Replacing the value at an index updates the denoted map at that key.
pub proof fn lemma_map_of_update<C>(s: Seq<(VolumeIdentifier, C)>, i: int, v: C)
    requires
        distinct_keys(s),
        0 <= i < s.len(),
    ensures
        map_of(s.update(i, (s[i].0, v))) == map_of(s).insert(s[i].0, v),
        distinct_keys(s.update(i, (s[i].0, v))),
    decreases s.len(),
{
    let k = s[i].0;
    let t = s.update(i, (k, v));
    assert forall|a: int, b: int| 0 <= a < b < t.len() implies (#[trigger] t[a]).0 != (#[trigger] t[b]).0 by {
        assert(t[a].0 == s[a].0);
        assert(t[b].0 == s[b].0);
    }
    if i == s.len() - 1 {
        assert(t.drop_last() =~= s.drop_last());
        assert(map_of(t) == map_of(s.drop_last()).insert(k, v));
        assert(map_of(s.drop_last()).insert(k, s[i].1).insert(k, v) =~= map_of(s.drop_last()).insert(k, v));
    } else {
        assert(t.drop_last() =~= s.drop_last().update(i, (k, v)));
        assert(distinct_keys(s.drop_last()));
        assert(s.drop_last()[i] == s[i]);
        lemma_map_of_update(s.drop_last(), i, v);
        assert(t.last() == s.last());
        assert(map_of(t) == map_of(s.drop_last()).insert(k, v).insert(s.last().0, s.last().1));
        assert(k != s.last().0);
        assert(map_of(s.drop_last()).insert(k, v).insert(s.last().0, s.last().1)
            =~= map_of(s.drop_last()).insert(s.last().0, s.last().1).insert(k, v));
    }
}

/// Appending a fresh key inserts it into the denoted map and keeps the keys
/// distinct.
pub proof fn lemma_map_of_push<C>(s: Seq<(VolumeIdentifier, C)>, k: VolumeIdentifier, v: C)
    requires
        distinct_keys(s),
        !map_of(s).contains_key(k),
    ensures
        map_of(s.push((k, v))) == map_of(s).insert(k, v),
        distinct_keys(s.push((k, v))),
    decreases s.len(),
{
    let t = s.push((k, v));
    assert(t.drop_last() =~= s);
    assert(t.last() == (k, v));
    lemma_map_of_contains(s, k);
    assert forall|a: int, b: int| 0 <= a < b < t.len() implies (#[trigger] t[a]).0 != (#[trigger] t[b]).0 by {
        if b < t.len() - 1 {
            assert(t[a] == s[a]);
            assert(t[b] == s[b]);
        } else {
            assert(t[a] == s[a]);
        }
    }
}

/// Per-volume components keyed by volume identifier. Keys are unique and
/// insertion order is kept, so a round that walks the entries visits each
/// volume exactly once in a stable order.
pub struct VoxelMaterialComponents<C> {
    pub entries: Vec<(VolumeIdentifier, C)>,
}

impl<C> View for VoxelMaterialComponents<C> {
    type V = Map<VolumeIdentifier, C>;

    open spec fn view(&self) -> Map<VolumeIdentifier, C> {
        map_of(self.entries@)
    }
}

impl<C> VoxelMaterialComponents<C> {
    /// Keys are pairwise distinct.
    pub open spec fn wf(&self) -> bool {
        distinct_keys(self.entries@)
    }

    /// An empty component map.
    pub fn new() -> (r: Self)
        ensures
            r.wf(),
            r@ == Map::<VolumeIdentifier, C>::empty(),
            r.entries@.len() == 0,
    {
        VoxelMaterialComponents { entries: Vec::new() }
    }

    /// How many volumes hold this component.
    pub fn len(&self) -> (r: usize)
        ensures
            r == self.entries@.len(),
    {
        self.entries.len()
    }

    /// Looks the component of one volume up.
    pub fn get(&self, k: &VolumeIdentifier) -> (r: Option<&C>)
        requires
            self.wf(),
        ensures
            match r {
                Some(v) => self@.contains_key(*k) && *v == self@[*k],
                None => !self@.contains_key(*k),
            },
    {
        let mut i: usize = 0;
        while i < self.entries.len()
            invariant
                i <= self.entries@.len(),
                self.wf(),
                forall|j: int| 0 <= j < i ==> (#[trigger] self.entries@[j]).0 != *k,
            decreases self.entries@.len() - i,
        {
            if self.entries[i].0 == *k {
                proof {
                    lemma_map_of_index(self.entries@, i as int);
                }
                return Some(&self.entries[i].1);
            }
            i = i + 1;
        }
        proof {
            lemma_map_of_contains(self.entries@, *k);
        }
        None
    }

    /// Borrows the component of one volume for mutation.
    pub fn get_mut(&mut self, k: &VolumeIdentifier) -> (r: Option<&mut C>)
        requires
            old(self).wf(),
        ensures
            final(self).wf(),
            r is Some <==> old(self)@.contains_key(*k),
            r matches Some(v) ==> *v == old(self)@[*k] && final(self)@ == old(self)@.insert(
                *k,
                *final(v),
            ) && final(self).entries@.len() == old(self).entries@.len(),
            r is None ==> final(self)@ == old(self)@ && final(self).entries@ == old(
                self,
            ).entries@,
    {
        let ghost s0 = self.entries@;
        let mut i: usize = 0;
        while i < self.entries.len()
            invariant
                i <= self.entries@.len(),
                self.entries@ == s0,
                s0 == old(self).entries@,
                distinct_keys(s0),
                forall|j: int| 0 <= j < i ==> (#[trigger] s0[j]).0 != *k,
            decreases self.entries@.len() - i,
        {
            if self.entries[i].0 == *k {
                proof {
                    lemma_map_of_index(s0, i as int);
                    assert forall|v: C|
                        map_of(s0.update(i as int, (s0[i as int].0, v))) == map_of(s0).insert(
                            s0[i as int].0,
                            v,
                        ) && distinct_keys(s0.update(i as int, (s0[i as int].0, v))) by {
                        lemma_map_of_update(s0, i as int, v);
                    }
                }
                let entry = &mut self.entries[i];
                return Some(&mut entry.1);
            }
            i = i + 1;
        }
        proof {
            lemma_map_of_contains(s0, *k);
        }
        None
    }

    /// Inserts or replaces the component of one volume. A fresh key goes to
    /// the end of the walk order; a present key keeps its place.
    pub fn insert(&mut self, k: VolumeIdentifier, v: C)
        requires
            old(self).wf(),
        ensures
            final(self).wf(),
            final(self)@ == old(self)@.insert(k, v),
            !old(self)@.contains_key(k) ==> final(self).entries@ == old(self).entries@.push((k, v)),
            old(self)@.contains_key(k) ==> final(self).entries@.len() == old(self).entries@.len()
                && (exists|i: int|
                    0 <= i < old(self).entries@.len() && (#[trigger] old(self).entries@[i]).0 == k
                        && final(self).entries@ == old(self).entries@.update(i, (k, v))),
    {
        let ghost s0 = self.entries@;
        let mut i: usize = 0;
        while i < self.entries.len()
            invariant
                i <= self.entries@.len(),
                self.entries@ == s0,
                s0 == old(self).entries@,
                distinct_keys(s0),
                forall|j: int| 0 <= j < i ==> (#[trigger] s0[j]).0 != k,
            decreases self.entries@.len() - i,
        {
            if self.entries[i].0 == k {
                proof {
                    lemma_map_of_index(s0, i as int);
                    lemma_map_of_update(s0, i as int, v);
                }
                self.entries[i] = (k, v);
                return ;
            }
            i = i + 1;
        }
        proof {
            lemma_map_of_contains(s0, k);
            lemma_map_of_push(s0, k, v);
        }
        self.entries.push((k, v));
    }
}

} // verus!
