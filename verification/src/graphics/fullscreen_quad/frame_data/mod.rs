//! All resources required to support N frames in flight.
use crate::graphics::fullscreen_quad::uniform_buffer::{IndexOutOfRange, UniformBuffer};
use vstd::prelude::*;

verus! {

/// A uniform buffer slot and a descriptor set for each frame in flight, and
/// the layout that the sets share.
#[derive(Debug)]
pub struct FrameData<UserDataT> {
    descriptor_set_layout: u64,
    descriptor_sets: Vec<u64>,
    uniform_buffer: UniformBuffer<UserDataT>,
}

impl<UserDataT> FrameData<UserDataT> {
    pub closed spec fn spec_descriptor_set_layout(&self) -> u64 {
        self.descriptor_set_layout
    }

    pub closed spec fn spec_descriptor_sets(&self) -> Seq<u64> {
        self.descriptor_sets@
    }

    pub closed spec fn spec_uniform_buffer(&self) -> UniformBuffer<UserDataT> {
        self.uniform_buffer
    }

    /// Gathers the per-frame resources.
    pub fn new(
        descriptor_set_layout: u64,
        descriptor_sets: Vec<u64>,
        uniform_buffer: UniformBuffer<UserDataT>,
    ) -> (r: Self)
        ensures
            r.spec_descriptor_set_layout() == descriptor_set_layout,
            r.spec_descriptor_sets() == descriptor_sets@,
            r.spec_uniform_buffer() == uniform_buffer,
    {
        FrameData { descriptor_set_layout, descriptor_sets, uniform_buffer }
    }

    /// Get the descriptor set layout for the per-frame binding.
    pub fn descriptor_set_layout(&self) -> (r: u64)
        ensures
            r == self.spec_descriptor_set_layout(),
    {
        self.descriptor_set_layout
    }

    /// The byte offset at which the user data of frame `frame_index` is
    /// written; fails when the uniform buffer has no slot for the frame.
    pub fn update(&self, frame_index: usize) -> (r: Result<u64, IndexOutOfRange>)
        requires
            self.spec_uniform_buffer().wf(),
        ensures
            frame_index < self.spec_uniform_buffer().spec_count() <==> r is Ok,
            r matches Ok(offset) ==> offset == frame_index * self.spec_uniform_buffer().spec_unit(),
            r matches Err(e) ==> e == (IndexOutOfRange {
                index: frame_index,
                count: self.spec_uniform_buffer().spec_count() as usize,
            }),
    {
        self.uniform_buffer.write_indexed(frame_index)
    }

    /// Get a non-owning handle to the descriptor set for the provided frame.
    pub fn current_descriptor_set(&self, frame_index: usize) -> (r: u64)
        requires
            frame_index < self.spec_descriptor_sets().len(),
        ensures
            r == self.spec_descriptor_sets()[frame_index as int],
    {
        self.descriptor_sets[frame_index]
    }
}

} // verus!
