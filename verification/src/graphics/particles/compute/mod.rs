//! Dispatching the particle compute kernel.
pub mod descriptors;

use crate::graphics::fullscreen_quad::uniform_buffer::{IndexOutOfRange, UniformBuffer};
use crate::graphics::vulkan::{bind_sets, is_bind_sets, Command, PipelineBindPoint};
use crate::graphics::vulkan::ComputePipelineDescription;
use vstd::prelude::*;

verus! {

/// The number of particles that the kernels update.
pub const PARTICLE_COUNT: u32 = 320;

/// The number of particles in one compute work group.
pub const WORKGROUP_SIZE: u32 = 32;

/// Which of the two frame data slots the next dispatch uses.
#[derive(Debug, Clone, Copy, PartialEq, Eq)]
pub enum CurrentFrame {
    A,
    B,
}

/// The frame data slot that a dispatch in state `frame` writes and reads.
pub open spec fn slot(frame: CurrentFrame) -> int {
    match frame {
        CurrentFrame::A => 0,
        CurrentFrame::B => 1,
    }
}

/// The state after a dispatch in state `frame`.
pub open spec fn next_frame(frame: CurrentFrame) -> CurrentFrame {
    match frame {
        CurrentFrame::A => CurrentFrame::B,
        CurrentFrame::B => CurrentFrame::A,
    }
}

/// Consecutive dispatches use different slots, and every second dispatch
/// comes back to the same slot: the data that one dispatch reads is never
/// overwritten by the next one.
pub proof fn lemma_slots_alternate(frame: CurrentFrame)
    ensures
        slot(next_frame(frame)) != slot(frame),
        next_frame(next_frame(frame)) == frame,
        0 <= slot(frame) < 2,
{
}

/// The state after `k` dispatches from state `frame`: each call of
/// [ParticlesCompute::update] moves the state one step.
pub open spec fn frame_after(frame: CurrentFrame, k: nat) -> CurrentFrame
    decreases k,
{
    if k == 0 {
        frame
    } else {
        next_frame(frame_after(frame, (k - 1) as nat))
    }
}

/// The `k`-th update after state `frame` (counting from 0) uses slot
/// `(slot(frame) + k) % 2`: the slots alternate over any number of calls,
/// so two consecutive updates never share a slot.
pub proof fn lemma_updates_alternate(frame: CurrentFrame, k: nat)
    ensures
        slot(frame_after(frame, k)) == (slot(frame) + k) % 2,
        slot(frame_after(frame, k + 1)) != slot(frame_after(frame, k)),
    decreases k,
{
    if k > 0 {
        lemma_updates_alternate(frame, (k - 1) as nat);
    }
    assert(frame_after(frame, k + 1) == next_frame(frame_after(frame, k)));
}

/// The commands of one dispatch that reads `descriptor_set`.
pub open spec fn is_dispatch(commands: Seq<Command>, pipeline: u64, layout: u64, descriptor_set: u64) -> bool {
    &&& commands.len() == 3
    &&& commands[0] == Command::BindPipeline { bind_point: PipelineBindPoint::Compute, pipeline }
    &&& is_bind_sets(commands[1], PipelineBindPoint::Compute, layout, 0, seq![descriptor_set])
    &&& commands[2] == Command::Dispatch {
        group_count_x: (PARTICLE_COUNT / WORKGROUP_SIZE) as u32,
        group_count_y: 1,
        group_count_z: 1,
    }
}

/// Resources required to dispatch the particles compute pipeline: two frame
/// data slots, each with its own descriptor set, used in turn.
#[derive(Debug)]
pub struct ParticlesCompute<DataT> {
    descriptor_sets: Vec<u64>,
    pipeline: u64,
    pipeline_layout: u64,
    frame_data: UniformBuffer<DataT>,
    current_frame: CurrentFrame,
}

impl<DataT> ParticlesCompute<DataT> {
    pub closed spec fn spec_descriptor_sets(&self) -> Seq<u64> {
        self.descriptor_sets@
    }

    pub closed spec fn spec_pipeline(&self) -> u64 {
        self.pipeline
    }

    pub closed spec fn spec_pipeline_layout(&self) -> u64 {
        self.pipeline_layout
    }

    pub closed spec fn spec_frame_data(&self) -> UniformBuffer<DataT> {
        self.frame_data
    }

    pub closed spec fn spec_current_frame(&self) -> CurrentFrame {
        self.current_frame
    }

    /// The same resources in the state after a dispatch.
    pub closed spec fn spec_advanced(self) -> Self {
        ParticlesCompute { current_frame: next_frame(self.current_frame), ..self }
    }

    /// Gathers the kernel's resources; the first dispatch uses slot A.
    pub fn new(
        descriptor_sets: Vec<u64>,
        pipeline: u64,
        pipeline_layout: u64,
        frame_data: UniformBuffer<DataT>,
    ) -> (r: Self)
        ensures
            r.spec_descriptor_sets() == descriptor_sets@,
            r.spec_pipeline() == pipeline,
            r.spec_pipeline_layout() == pipeline_layout,
            r.spec_frame_data() == frame_data,
            r.spec_current_frame() == CurrentFrame::A,
    {
        ParticlesCompute {
            descriptor_sets,
            pipeline,
            pipeline_layout,
            frame_data,
            current_frame: CurrentFrame::A,
        }
    }

    /// Replaces the compute pipeline with one built from a new kernel.
    pub fn rebuild_kernel(&mut self, pipeline: u64)
        ensures
            final(self).spec_pipeline() == pipeline,
            final(self).spec_descriptor_sets() == old(self).spec_descriptor_sets(),
            final(self).spec_pipeline_layout() == old(self).spec_pipeline_layout(),
            final(self).spec_frame_data() == old(self).spec_frame_data(),
            final(self).spec_current_frame() == old(self).spec_current_frame(),
    {
        self.pipeline = pipeline;
    }

    /// Moves to the other slot and plans a dispatch with the slot that was
    /// current: the byte offset at which the frame's data is to be written,
    /// and the commands that bind the pipeline and the slot's descriptor set
    /// and dispatch one work group per 32 particles. Fails when the frame
    /// data buffer has no such slot; the state has moved on all the same.
    pub fn update(&mut self) -> (r: Result<(u64, Vec<Command>), IndexOutOfRange>)
        requires
            old(self).spec_frame_data().wf(),
            old(self).spec_descriptor_sets().len() >= 2,
        ensures
            *final(self) == old(self).spec_advanced(),
            final(self).spec_current_frame() == next_frame(old(self).spec_current_frame()),
            final(self).spec_descriptor_sets() == old(self).spec_descriptor_sets(),
            final(self).spec_pipeline() == old(self).spec_pipeline(),
            final(self).spec_pipeline_layout() == old(self).spec_pipeline_layout(),
            final(self).spec_frame_data() == old(self).spec_frame_data(),
            ({
                let s = slot(old(self).spec_current_frame());
                let fd = old(self).spec_frame_data();
                &&& s < fd.spec_count() <==> r is Ok
                &&& r matches Err(e) ==> e == (IndexOutOfRange {
                    index: s as usize,
                    count: fd.spec_count() as usize,
                })
                &&& r matches Ok((offset, commands)) ==> {
                    &&& offset == s * fd.spec_unit()
                    &&& is_dispatch(
                        commands@,
                        old(self).spec_pipeline(),
                        old(self).spec_pipeline_layout(),
                        old(self).spec_descriptor_sets()[s],
                    )
                }
            }),
    {
        let index: usize = match self.current_frame {
            CurrentFrame::A => {
                self.current_frame = CurrentFrame::B;
                0
            },
            CurrentFrame::B => {
                self.current_frame = CurrentFrame::A;
                1
            },
        };
        let offset = match self.frame_data.write_indexed(index) {
            Ok(offset) => offset,
            Err(e) => {
                return Err(e);
            },
        };
        let mut sets = Vec::new();
        sets.push(self.descriptor_sets[index]);
        let mut commands = Vec::new();
        commands.push(Command::BindPipeline { bind_point: PipelineBindPoint::Compute, pipeline: self.pipeline });
        commands.push(bind_sets(PipelineBindPoint::Compute, self.pipeline_layout, 0, sets));
        commands.push(
            Command::Dispatch {
                group_count_x: PARTICLE_COUNT / WORKGROUP_SIZE,
                group_count_y: 1,
                group_count_z: 1,
            },
        );
        Ok((offset, commands))
    }
}

/// The pipeline that runs a compute kernel `shader` with `layout`.
pub fn kernel_pipeline(layout: u64, shader: u64) -> (r: ComputePipelineDescription)
    ensures
        r == (ComputePipelineDescription { layout, shader }),
{
    ComputePipelineDescription { layout, shader }
}

} // verus!
