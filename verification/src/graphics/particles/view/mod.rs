//! Drawing the particles: one instanced quad per particle.
pub mod descriptors;

use crate::graphics::fullscreen_quad::uniform_buffer::{IndexOutOfRange, UniformBuffer};
use crate::graphics::particles::compute::PARTICLE_COUNT;
use crate::graphics::fullscreen_quad::descriptors::slot_info;
use crate::graphics::particles::view::descriptors::update_descriptor_sets;
use crate::graphics::vulkan::{
    bind_sets, is_bind_sets, is_buffer_write, BufferInfo, Command, DescriptorType, DescriptorWrite,
    PipelineBindPoint,
};
use crate::graphics::vulkan::{blended_pipeline, blended_pipeline_description, Extent2D, GraphicsPipelineDescription, ViewportState};
use vstd::prelude::*;

verus! {

/// The commands that draw every particle with `pipeline` and `descriptor_set`.
pub open spec fn is_particle_draw(
    commands: Seq<Command>,
    pipeline: u64,
    layout: u64,
    descriptor_set: u64,
) -> bool {
    &&& commands.len() == 3
    &&& commands[0] == Command::BindPipeline { bind_point: PipelineBindPoint::Graphics, pipeline }
    &&& is_bind_sets(commands[1], PipelineBindPoint::Graphics, layout, 0, seq![descriptor_set])
    &&& commands[2] == Command::Draw { vertex_count: 6, instance_count: PARTICLE_COUNT }
}

/// The graphics side of the particle system: a projection slot and a
/// descriptor set for each frame in flight, and the pipeline.
#[derive(Debug)]
pub struct ParticlesView<ProjectionT> {
    projection: UniformBuffer<ProjectionT>,
    descriptor_sets: Vec<u64>,
    pipeline_layout: u64,
    pipeline: u64,
}

impl<ProjectionT> ParticlesView<ProjectionT> {
    pub closed spec fn spec_projection(&self) -> UniformBuffer<ProjectionT> {
        self.projection
    }

    pub closed spec fn spec_descriptor_sets(&self) -> Seq<u64> {
        self.descriptor_sets@
    }

    pub closed spec fn spec_pipeline_layout(&self) -> u64 {
        self.pipeline_layout
    }

    pub closed spec fn spec_pipeline(&self) -> u64 {
        self.pipeline
    }

    /// Gathers the view's resources, one descriptor set for each projection
    /// slot, and gives the writes that point set `i` at slot `i` of the
    /// projection buffer `projection_buffer` (binding 0) and at the whole
    /// particle buffer (binding 1).
    pub fn new(
        projection: UniformBuffer<ProjectionT>,
        descriptor_sets: Vec<u64>,
        projection_buffer: u64,
        particles_buffer: u64,
        particles_size_in_bytes: u64,
        pipeline_layout: u64,
        pipeline: u64,
    ) -> (r: (Self, Vec<DescriptorWrite>))
        requires
            projection.wf(),
            descriptor_sets@.len() == projection.spec_count(),
        ensures
            r.0.spec_projection() == projection,
            r.0.spec_descriptor_sets() == descriptor_sets@,
            r.0.spec_pipeline_layout() == pipeline_layout,
            r.0.spec_pipeline() == pipeline,
            r.1@.len() == 2 * descriptor_sets@.len(),
            forall|i: int|
                #![trigger descriptor_sets@[i]]
                0 <= i < descriptor_sets@.len() ==> {
                    &&& is_buffer_write(
                        r.1@[2 * i],
                        descriptor_sets@[i],
                        0,
                        DescriptorType::UniformBuffer,
                        slot_info(
                            projection_buffer,
                            projection.spec_unit(),
                            i,
                            vstd::layout::size_of::<ProjectionT>(),
                        ),
                    )
                    &&& is_buffer_write(
                        r.1@[2 * i + 1],
                        descriptor_sets@[i],
                        1,
                        DescriptorType::StorageBuffer,
                        BufferInfo { buffer: particles_buffer, offset: 0, range: particles_size_in_bytes },
                    )
                },
    {
        proof {
            crate::graphics::fullscreen_quad::uniform_buffer::lemma_wf_bound(projection);
            if descriptor_sets@.len() > 0 {
                vstd::arithmetic::mul::lemma_mul_inequality(
                    (descriptor_sets@.len() - 1) as int,
                    projection.spec_count() as int,
                    projection.spec_unit() as int,
                );
                vstd::arithmetic::mul::lemma_mul_is_commutative(
                    projection.spec_count() as int,
                    projection.spec_unit() as int,
                );
            }
        }
        let writes = update_descriptor_sets(
            &descriptor_sets,
            &projection,
            projection_buffer,
            particles_buffer,
            particles_size_in_bytes,
        );
        (ParticlesView { projection, descriptor_sets, pipeline_layout, pipeline }, writes)
    }

    /// Plans the drawing of frame `frame_index`: the byte offset at which the
    /// frame's projection is written, and the commands that bind the pipeline
    /// and the frame's descriptor set and draw six vertices for each particle.
    pub fn draw(&self, frame_index: usize) -> (r: Result<(u64, Vec<Command>), IndexOutOfRange>)
        requires
            self.spec_projection().wf(),
            frame_index < self.spec_projection().spec_count() ==> frame_index
                < self.spec_descriptor_sets().len(),
        ensures
            frame_index < self.spec_projection().spec_count() <==> r is Ok,
            r matches Err(e) ==> e == (IndexOutOfRange {
                index: frame_index,
                count: self.spec_projection().spec_count() as usize,
            }),
            r matches Ok((offset, commands)) ==> {
                &&& offset == frame_index * self.spec_projection().spec_unit()
                &&& is_particle_draw(
                    commands@,
                    self.spec_pipeline(),
                    self.spec_pipeline_layout(),
                    self.spec_descriptor_sets()[frame_index as int],
                )
            },
    {
        let offset = match self.projection.write_indexed(frame_index) {
            Ok(offset) => offset,
            Err(e) => {
                return Err(e);
            },
        };
        let mut sets = Vec::new();
        sets.push(self.descriptor_sets[frame_index]);
        let mut commands = Vec::new();
        commands.push(Command::BindPipeline { bind_point: PipelineBindPoint::Graphics, pipeline: self.pipeline });
        commands.push(bind_sets(PipelineBindPoint::Graphics, self.pipeline_layout, 0, sets));
        commands.push(Command::Draw { vertex_count: 6, instance_count: PARTICLE_COUNT });
        Ok((offset, commands))
    }

    /// Replaces the pipeline with one built for the rebuilt swapchain.
    pub fn swapchain_rebuilt(&mut self, pipeline: u64)
        ensures
            final(self).spec_pipeline() == pipeline,
            final(self).spec_projection() == old(self).spec_projection(),
            final(self).spec_descriptor_sets() == old(self).spec_descriptor_sets(),
            final(self).spec_pipeline_layout() == old(self).spec_pipeline_layout(),
    {
        self.pipeline = pipeline;
    }
}

/// The particles' drawing pipeline: its viewport and scissor cover the whole `extent` of the swapchain, alpha-blended, in subpass 0 of `render_pass`.
pub fn particles_pipeline(
    layout: u64,
    render_pass: u64,
    vertex_shader: u64,
    fragment_shader: u64,
    extent: Extent2D,
) -> (r: GraphicsPipelineDescription)
    ensures
        r == blended_pipeline(layout, render_pass, vertex_shader, fragment_shader, ViewportState::Fixed(extent)),
{
    blended_pipeline_description(layout, render_pass, vertex_shader, fragment_shader, ViewportState::Fixed(extent))
}

} // verus!
