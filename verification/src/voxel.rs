//! Voxel samples and per-volume descriptors.
//!
//! A voxel carries flag bits and a density sample. The density is held as the
//! raw 32-bit encoding of the sample so that the whole descriptor is plain
//! integer data; producers that work in floating point convert at the edge.

use vstd::prelude::*;

verus! {

/// Bit pattern of the default density sample (the encoding of one, fully
/// solid).
pub const DEFAULT_DENSITY_BITS: u32 = 0x3F80_0000;

/// One scalar field sample: flag bits plus the raw 32-bit density encoding.
#[derive(Clone, Copy, PartialEq, Eq, Structural, Debug)]
pub struct Voxel {
    pub flags: u32,
    pub density_bits: u32,
}

impl Voxel {
    /// Builds a voxel from its flag bits and raw density encoding.
    pub fn new(flags: u32, density_bits: u32) -> (r: Voxel)
        ensures
            r.flags == flags,
            r.density_bits == density_bits,
    {
        Voxel { flags, density_bits }
    }
}

impl Default for Voxel {
    /// The default sample: no flags, fully solid density.
    fn default() -> (r: Voxel)
        ensures
            r.flags == 0,
            r.density_bits == DEFAULT_DENSITY_BITS,
    {
        Voxel { flags: 0, density_bits: DEFAULT_DENSITY_BITS }
    }
}

} // verus!
