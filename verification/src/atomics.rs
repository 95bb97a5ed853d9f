//! Device-side append counters.
//!
//! The compute program appends output primitives through two monotonically
//! increasing counters. They are reset to zero whenever the per-volume
//! resources are recreated, which happens at the start of every round.

use vstd::prelude::*;

verus! {

/// The two head counters the compute program appends through.
#[derive(Clone, Copy, PartialEq, Eq, Structural, Debug)]
pub struct Atomics {
    pub vertices_head: u32,
    pub indices_head: u32,
}

impl Atomics {
    /// Fresh counters, as the device sees them at the start of a round.
    pub fn new() -> (r: Atomics)
        ensures
            r.vertices_head == 0,
            r.indices_head == 0,
    {
        Atomics { vertices_head: 0, indices_head: 0 }
    }
}

} // verus!
