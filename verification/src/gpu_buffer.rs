//! A model of one device buffer.
//!
//! A buffer is reserved with a capacity in elements and a fixed element
//! stride, and carries the 32-bit words the device sees at the start of a
//! round: either contents uploaded from the host or the zero-initialized
//! reset state. Output buffers stay unwritten until the device fills them.

use vstd::prelude::*;

verus! {

/// Ghost snapshot of one device buffer.
pub ghost struct GpuBufferView {
    pub capacity_elems: u64,
    pub elem_bytes: u64,
    pub words: Seq<u32>,
    pub written: bool,
}

impl GpuBufferView {
    /// Reserved size of the buffer in bytes.
    pub open spec fn size_bytes(&self) -> nat {
        self.capacity_elems as nat * self.elem_bytes as nat
    }

    /// The stride is word-aligned, the reserved size is addressable, and the
    /// words held never exceed the reservation.
    pub open spec fn wf(&self) -> bool {
        &&& self.elem_bytes >= 4
        &&& self.elem_bytes % 4 == 0
        &&& self.size_bytes() <= u64::MAX
        &&& self.words.len() * 4 <= self.size_bytes()
    }

    /// A buffer handle can be bound only once device memory was reserved for
    /// it: a zero-capacity buffer has an empty handle.
    pub open spec fn bindable(&self) -> bool {
        self.wf() && self.capacity_elems > 0
    }
}

/// A bindable buffer's handle is non-empty: its reserved byte size is
/// positive.
pub proof fn lemma_bindable_nonempty(b: GpuBufferView)
    requires
        b.bindable(),
    ensures
        b.size_bytes() > 0,
{
    assert(b.capacity_elems as nat * b.elem_bytes as nat > 0) by (nonlinear_arith)
        requires
            b.capacity_elems >= 1,
            b.elem_bytes >= 1,
    ;
}

/// One device buffer: reserved capacity, element stride, and the words the
/// device sees at round start.
pub struct GpuBuffer {
    pub capacity_elems: u64,
    pub elem_bytes: u64,
    pub data: Vec<u32>,
    pub written: bool,
}

impl View for GpuBuffer {
    type V = GpuBufferView;

    open spec fn view(&self) -> GpuBufferView {
        GpuBufferView {
            capacity_elems: self.capacity_elems,
            elem_bytes: self.elem_bytes,
            words: self.data@,
            written: self.written,
        }
    }
}

impl GpuBuffer {
    /// Reserves device memory for `capacity_elems` elements of
    /// `elem_bytes` each, leaving the contents unwritten.
    pub fn reserve(capacity_elems: u64, elem_bytes: u64) -> (r: GpuBuffer)
        requires
            elem_bytes >= 4,
            elem_bytes % 4 == 0,
            capacity_elems as nat * elem_bytes as nat <= u64::MAX,
        ensures
            r@ == (GpuBufferView {
                capacity_elems,
                elem_bytes,
                words: Seq::<u32>::empty(),
                written: false,
            }),
            r@.wf(),
    {
        GpuBuffer { capacity_elems, elem_bytes, data: Vec::new(), written: false }
    }

    /// Uploads `words` to the device, replacing any prior contents.
    pub fn write_words(&mut self, words: Vec<u32>)
        requires
            old(self)@.wf(),
            words@.len() * 4 <= old(self)@.size_bytes(),
        ensures
            final(self)@ == (GpuBufferView {
                capacity_elems: old(self)@.capacity_elems,
                elem_bytes: old(self)@.elem_bytes,
                words: words@,
                written: true,
            }),
            final(self)@.wf(),
    {
        self.data = words;
        self.written = true;
    }

    /// Reserved size of the buffer in bytes.
    pub fn size_bytes(&self) -> (r: u64)
        requires
            self@.wf(),
        ensures
            r as nat == self@.size_bytes(),
    {
        self.capacity_elems * self.elem_bytes
    }
}

} // verus!
