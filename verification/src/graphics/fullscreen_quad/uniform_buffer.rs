//! Layout of a buffer that holds one aligned copy of per-frame data for each
//! frame in flight.
use std::marker::PhantomData;
use crate::graphics::vulkan::{
    BufferDescription, BUFFER_USAGE_UNIFORM_BUFFER, MEMORY_HOST_VISIBLE_COHERENT,
};
use vstd::prelude::*;

verus! {

/// The size that one copy of the data takes in the buffer: the largest whole
/// number of alignment units that the data covers, plus one more unit.
pub open spec fn aligned_unit_size(data_size: nat, alignment: nat) -> nat
    recommends
        alignment > 0,
{
    ((data_size / alignment + 1) * alignment) as nat
}

/// One slot holds the whole data with room to spare and is a whole number of
/// alignment units, so every slot starts at a multiple of the alignment.
pub proof fn lemma_aligned_unit_size(data_size: nat, alignment: nat)
    requires
        alignment > 0,
    ensures
        aligned_unit_size(data_size, alignment) > data_size,
        aligned_unit_size(data_size, alignment) % alignment == 0,
        forall|i: nat|
            #![trigger i * aligned_unit_size(data_size, alignment)]
            (i * aligned_unit_size(data_size, alignment)) % alignment == 0,
{
    let q = data_size / alignment;
    let unit = aligned_unit_size(data_size, alignment);
    vstd::arithmetic::div_mod::lemma_fundamental_div_mod(data_size as int, alignment as int);
    assert(unit == (q + 1) * alignment);
    assert((q + 1) * alignment == q * alignment + alignment) by (nonlinear_arith);
    vstd::arithmetic::div_mod::lemma_mod_multiples_basic((q + 1) as int, alignment as int);
    assert forall|i: nat| #![trigger i * unit] (i * unit) % alignment == 0 by {
        assert(i * unit == (i * (q + 1)) * alignment) by (nonlinear_arith)
            requires
                unit == (q + 1) * alignment,
        ;
        vstd::arithmetic::div_mod::lemma_mod_multiples_basic((i * (q + 1)) as int, alignment as int);
    }
}

/// The slots of a buffer laid out for `count` copies do not overlap and lie
/// within the buffer: the data in slot `i` ends before slot `j` starts when
/// `i < j`, and before the end of the buffer.
pub proof fn lemma_slots_disjoint(data_size: nat, alignment: nat, count: nat, i: nat, j: nat)
    requires
        alignment > 0,
        i < j,
        j < count,
    ensures
        i * aligned_unit_size(data_size, alignment) + data_size <= j * aligned_unit_size(
            data_size,
            alignment,
        ),
        j * aligned_unit_size(data_size, alignment) + data_size <= count * aligned_unit_size(
            data_size,
            alignment,
        ),
{
    let unit = aligned_unit_size(data_size, alignment);
    lemma_aligned_unit_size(data_size, alignment);
    assert(i * unit + unit <= j * unit) by (nonlinear_arith)
        requires
            i < j,
    ;
    assert(j * unit + unit <= count * unit) by (nonlinear_arith)
        requires
            j < count,
    ;
}

/// A well-formed layout's slots all end within `usize`.
pub proof fn lemma_wf_bound<FrameDataT>(buffer: UniformBuffer<FrameDataT>)
    ensures
        buffer.wf() <==> buffer.spec_unit() * buffer.spec_count() <= usize::MAX,
{
}

/// The error returned when a write targets a slot that the buffer does not have.
#[derive(Debug, Clone, Copy, PartialEq, Eq)]
pub struct IndexOutOfRange {
    pub index: usize,
    pub count: usize,
}

/// Holds `count` copies of `FrameDataT`, each starting at a multiple of the
/// device's minimum uniform buffer offset alignment.
#[derive(Debug)]
pub struct UniformBuffer<FrameDataT> {
    aligned_unit_size: usize,
    count: usize,
    _phantom_data: PhantomData<FrameDataT>,
}

impl<FrameDataT> UniformBuffer<FrameDataT> {
    /// The size of one slot, in bytes.
    pub closed spec fn spec_unit(&self) -> nat {
        self.aligned_unit_size as nat
    }

    /// The number of slots.
    pub closed spec fn spec_count(&self) -> nat {
        self.count as nat
    }

    /// Every slot's end lies within `usize`.
    pub closed spec fn wf(&self) -> bool {
        self.aligned_unit_size * self.count <= usize::MAX
    }

    /// Computes the layout of a buffer with `count` slots for a device whose
    /// minimum uniform buffer offset alignment is `alignment`.
    pub fn allocate(alignment: u64, count: usize) -> (r: Self)
        requires
            alignment > 0,
            aligned_unit_size(vstd::layout::size_of::<FrameDataT>(), alignment as nat)
                <= usize::MAX,
            aligned_unit_size(vstd::layout::size_of::<FrameDataT>(), alignment as nat) * count
                <= usize::MAX,
        ensures
            r.wf(),
            r.spec_unit() == aligned_unit_size(
                vstd::layout::size_of::<FrameDataT>(),
                alignment as nat,
            ),
            r.spec_count() == count,
    {
        let data_size = std::mem::size_of::<FrameDataT>() as u64;
        let units = data_size / alignment;
        proof {
            let a = alignment as int;
            let u = units as int;
            assert((u + 1) * a >= u + 1) by (nonlinear_arith)
                requires
                    a >= 1,
                    u >= 0,
            ;
        }
        let aligned: u64 = (units + 1) * alignment;
        UniformBuffer { aligned_unit_size: aligned as usize, count, _phantom_data: PhantomData }
    }

    /// The total size of the buffer in bytes.
    pub fn buffer_size_in_bytes(&self) -> (r: u64)
        requires
            self.wf(),
        ensures
            r == self.spec_unit() * self.spec_count(),
    {
        (self.aligned_unit_size * self.count) as u64
    }

    /// The buffer to create for this layout: every slot, for use as uniform
    /// buffers, in host-visible, coherent memory that the CPU writes each
    /// frame's data into.
    pub fn buffer_description(&self) -> (r: BufferDescription)
        requires
            self.wf(),
        ensures
            r == (BufferDescription {
                size: (self.spec_unit() * self.spec_count()) as u64,
                usage: BUFFER_USAGE_UNIFORM_BUFFER,
                memory_properties: MEMORY_HOST_VISIBLE_COHERENT,
            }),
    {
        BufferDescription {
            size: self.buffer_size_in_bytes(),
            usage: BUFFER_USAGE_UNIFORM_BUFFER,
            memory_properties: MEMORY_HOST_VISIBLE_COHERENT,
        }
    }

    /// Returns the byte offset into the buffer for the item at an index.
    pub fn offset_for_index(&self, index: usize) -> (r: u64)
        requires
            index * self.spec_unit() <= usize::MAX,
        ensures
            r == index * self.spec_unit(),
    {
        (index * self.aligned_unit_size) as u64
    }

    /// Checks that `index` names one of the buffer's slots and gives the byte
    /// offset at which its data is written.
    pub fn write_indexed(&self, index: usize) -> (r: Result<u64, IndexOutOfRange>)
        requires
            self.wf(),
        ensures
            index < self.spec_count() <==> r is Ok,
            r matches Ok(offset) ==> offset == index * self.spec_unit(),
            r matches Err(e) ==> e == (IndexOutOfRange {
                index,
                count: self.spec_count() as usize,
            }),
    {
        if index >= self.count {
            return Err(IndexOutOfRange { index, count: self.count });
        }
        proof {
            vstd::arithmetic::mul::lemma_mul_inequality(
                index as int,
                self.count as int,
                self.aligned_unit_size as int,
            );
            vstd::arithmetic::mul::lemma_mul_is_commutative(index as int, self.aligned_unit_size as int);
            vstd::arithmetic::mul::lemma_mul_is_commutative(self.count as int, self.aligned_unit_size as int);
        }
        Ok(self.offset_for_index(index))
    }
}

} // verus!
