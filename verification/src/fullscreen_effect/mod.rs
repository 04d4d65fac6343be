//! A fullscreen effect: a reloadable fragment shader that is given updated
//! data for each frame.
pub mod descriptors;

use crate::graphics::fullscreen_quad::uniform_buffer::{IndexOutOfRange, UniformBuffer};
use crate::fullscreen_effect::descriptors::{
    create_descriptor_pool, create_descriptor_set_laout, update_descriptor_sets,
};
use crate::graphics::fullscreen_quad::descriptors::slot_info;
use crate::graphics::vulkan::{
    bind_sets, is_bind_sets, is_buffer_write, is_layout_binding, Command, DescriptorPoolInfo,
    DescriptorPoolSize, DescriptorSetLayoutBinding, DescriptorType, DescriptorWrite,
    PipelineBindPoint, ShaderStages,
};
use crate::graphics::vulkan::{blended_pipeline, blended_pipeline_description, GraphicsPipelineDescription, ViewportState};
use vstd::prelude::*;

verus! {

/// The effect's resources. The texture atlas is bound as set 0 by its owner;
/// the frame data is bound as set 1.
#[derive(Debug)]
pub struct FullscreenEffect<FrameDataT> {
    effect_shader: u64,
    frame_data: UniformBuffer<FrameDataT>,
    descriptor_sets: Vec<u64>,
    pipeline_layout: u64,
    pipeline: u64,
    set_layouts: Vec<u64>,
    layout_bindings: Vec<DescriptorSetLayoutBinding>,
    pool: DescriptorPoolInfo,
}

impl<FrameDataT> FullscreenEffect<FrameDataT> {
    pub closed spec fn spec_effect_shader(&self) -> u64 {
        self.effect_shader
    }

    pub closed spec fn spec_frame_data(&self) -> UniformBuffer<FrameDataT> {
        self.frame_data
    }

    pub closed spec fn spec_descriptor_sets(&self) -> Seq<u64> {
        self.descriptor_sets@
    }

    pub closed spec fn spec_pipeline_layout(&self) -> u64 {
        self.pipeline_layout
    }

    pub closed spec fn spec_pipeline(&self) -> u64 {
        self.pipeline
    }

    /// The set layouts that the pipeline layout was created with, in set
    /// order.
    pub closed spec fn spec_pipeline_set_layouts(&self) -> Seq<u64> {
        self.set_layouts@
    }

    /// The bindings that the effect's own set layout was created with.
    pub closed spec fn spec_layout_bindings(&self) -> Seq<DescriptorSetLayoutBinding> {
        self.layout_bindings@
    }

    /// What the effect's descriptor pool was created with.
    pub closed spec fn spec_pool(&self) -> DescriptorPoolInfo {
        self.pool
    }

    /// The bindings that the set layout was created with.
    pub fn layout_bindings(&self) -> (r: &Vec<DescriptorSetLayoutBinding>)
        ensures
            r@ == self.spec_layout_bindings(),
    {
        &self.layout_bindings
    }

    /// What the descriptor pool was created with.
    pub fn pool(&self) -> (r: &DescriptorPoolInfo)
        ensures
            *r == self.spec_pool(),
    {
        &self.pool
    }

    /// The set layouts of the effect's pipeline layout, in set order: the
    /// texture atlas's layout as set 0, the effect's own as set 1, so that
    /// the frame data reaches the fragment shader at `vk_binding(0, 1)`.
    pub fn pipeline_set_layouts(texture_atlas_layout: u64, descriptor_set_layout: u64) -> (r: Vec<
        u64,
    >)
        ensures
            r@ == seq![texture_atlas_layout, descriptor_set_layout],
    {
        let mut r = Vec::new();
        r.push(texture_atlas_layout);
        r.push(descriptor_set_layout);
        r
    }

    /// Gathers the effect's resources, one descriptor set for each frame
    /// data slot, and gives the writes that point set `i` at slot `i` of the
    /// frame data buffer `buffer`. The effect's own set layout
    /// `descriptor_set_layout`, its pool and its pipeline layout were created
    /// as [descriptors::create_descriptor_set_laout],
    /// [descriptors::create_descriptor_pool] and
    /// [FullscreenEffect::pipeline_set_layouts] describe, which the effect
    /// records.
    pub fn new(
        effect_shader: u64,
        frame_data: UniformBuffer<FrameDataT>,
        descriptor_sets: Vec<u64>,
        buffer: u64,
        texture_atlas_layout: u64,
        descriptor_set_layout: u64,
        pipeline_layout: u64,
        pipeline: u64,
    ) -> (r: (Self, Vec<DescriptorWrite>))
        requires
            frame_data.wf(),
            descriptor_sets@.len() == frame_data.spec_count(),
            descriptor_sets@.len() <= u32::MAX,
        ensures
            r.0.spec_effect_shader() == effect_shader,
            r.0.spec_frame_data() == frame_data,
            r.0.spec_descriptor_sets() == descriptor_sets@,
            r.0.spec_pipeline_layout() == pipeline_layout,
            r.0.spec_pipeline() == pipeline,
            r.0.spec_pipeline_set_layouts() == seq![texture_atlas_layout, descriptor_set_layout],
            r.0.spec_layout_bindings().len() == 1,
            is_layout_binding(
                r.0.spec_layout_bindings()[0],
                0,
                DescriptorType::UniformBuffer,
                1,
                ShaderStages::Fragment,
            ),
            r.0.spec_pool().max_sets == descriptor_sets@.len(),
            r.0.spec_pool().pool_sizes@ == seq![
                DescriptorPoolSize {
                    ty: DescriptorType::UniformBuffer,
                    descriptor_count: descriptor_sets@.len() as u32,
                },
            ],
            r.1@.len() == descriptor_sets@.len(),
            forall|i: int|
                #![trigger descriptor_sets@[i]]
                0 <= i < descriptor_sets@.len() ==> is_buffer_write(
                    r.1@[i],
                    descriptor_sets@[i],
                    0,
                    DescriptorType::UniformBuffer,
                    slot_info(buffer, frame_data.spec_unit(), i, vstd::layout::size_of::<FrameDataT>()),
                ),
    {
        proof {
            crate::graphics::fullscreen_quad::uniform_buffer::lemma_wf_bound(frame_data);
            if descriptor_sets@.len() > 0 {
                vstd::arithmetic::mul::lemma_mul_inequality(
                    (descriptor_sets@.len() - 1) as int,
                    frame_data.spec_count() as int,
                    frame_data.spec_unit() as int,
                );
                vstd::arithmetic::mul::lemma_mul_is_commutative(
                    frame_data.spec_count() as int,
                    frame_data.spec_unit() as int,
                );
            }
        }
        let writes = update_descriptor_sets(&descriptor_sets, &frame_data, buffer);
        let set_layouts = Self::pipeline_set_layouts(texture_atlas_layout, descriptor_set_layout);
        let layout_bindings = create_descriptor_set_laout();
        let pool = create_descriptor_pool(descriptor_sets.len() as u32);
        (
            FullscreenEffect {
                effect_shader,
                frame_data,
                descriptor_sets,
                pipeline_layout,
                pipeline,
                set_layouts,
                layout_bindings,
                pool,
            },
            writes,
        )
    }

    /// Plans the drawing of the effect in frame `frame_index`: the byte
    /// offset at which the frame's data is written, and the commands that
    /// bind the pipeline and the frame's set as set 1 and draw the six
    /// vertices of two triangles.
    pub fn draw(&self, frame_index: usize) -> (r: Result<(u64, Vec<Command>), IndexOutOfRange>)
        requires
            self.spec_frame_data().wf(),
            frame_index < self.spec_frame_data().spec_count() ==> frame_index
                < self.spec_descriptor_sets().len(),
        ensures
            frame_index < self.spec_frame_data().spec_count() <==> r is Ok,
            r matches Err(e) ==> e == (IndexOutOfRange {
                index: frame_index,
                count: self.spec_frame_data().spec_count() as usize,
            }),
            r matches Ok((offset, commands)) ==> {
                &&& offset == frame_index * self.spec_frame_data().spec_unit()
                &&& commands@.len() == 3
                &&& commands@[0] == Command::BindPipeline {
                    bind_point: PipelineBindPoint::Graphics,
                    pipeline: self.spec_pipeline(),
                }
                &&& is_bind_sets(
                    commands@[1],
                    PipelineBindPoint::Graphics,
                    self.spec_pipeline_layout(),
                    1,
                    seq![self.spec_descriptor_sets()[frame_index as int]],
                )
                &&& commands@[2] == Command::Draw { vertex_count: 6, instance_count: 1 }
            },
    {
        let offset = match self.frame_data.write_indexed(frame_index) {
            Ok(offset) => offset,
            Err(e) => {
                return Err(e);
            },
        };
        let mut sets = Vec::new();
        sets.push(self.descriptor_sets[frame_index]);
        let mut commands = Vec::new();
        commands.push(Command::BindPipeline { bind_point: PipelineBindPoint::Graphics, pipeline: self.pipeline });
        commands.push(bind_sets(PipelineBindPoint::Graphics, self.pipeline_layout, 1, sets));
        commands.push(Command::Draw { vertex_count: 6, instance_count: 1 });
        Ok((offset, commands))
    }

    /// Picks the shader that the rebuilt pipeline uses: `effect_shader` when
    /// one is given, which then becomes the effect's shader, otherwise the
    /// current one.
    pub fn rebuild_pipeline(&mut self, effect_shader: Option<u64>) -> (r: u64)
        ensures
            effect_shader matches Some(s) ==> r == s,
            effect_shader is None ==> r == old(self).spec_effect_shader(),
            final(self).spec_effect_shader() == r,
            final(self).spec_frame_data() == old(self).spec_frame_data(),
            final(self).spec_descriptor_sets() == old(self).spec_descriptor_sets(),
            final(self).spec_pipeline_layout() == old(self).spec_pipeline_layout(),
            final(self).spec_pipeline() == old(self).spec_pipeline(),
    {
        if let Some(shader) = effect_shader {
            self.effect_shader = shader;
        }
        self.effect_shader
    }

    /// The handle of the effect's current pipeline.
    pub fn pipeline(&self) -> (r: u64)
        ensures
            r == self.spec_pipeline(),
    {
        self.pipeline
    }

    /// Records the pipeline rebuilt with the shader that
    /// [Self::rebuild_pipeline] picked.
    pub fn replace_pipeline(&mut self, pipeline: u64)
        ensures
            final(self).spec_pipeline() == pipeline,
            final(self).spec_effect_shader() == old(self).spec_effect_shader(),
            final(self).spec_frame_data() == old(self).spec_frame_data(),
            final(self).spec_descriptor_sets() == old(self).spec_descriptor_sets(),
            final(self).spec_pipeline_layout() == old(self).spec_pipeline_layout(),
    {
        self.pipeline = pipeline;
    }
}

/// The effect's pipeline: its viewport and scissor are dynamic state, set by commands before [FullscreenEffect::draw], alpha-blended, in subpass 0 of `render_pass`.
pub fn effect_pipeline(
    layout: u64,
    render_pass: u64,
    vertex_shader: u64,
    fragment_shader: u64,
) -> (r: GraphicsPipelineDescription)
    ensures
        r == blended_pipeline(layout, render_pass, vertex_shader, fragment_shader, ViewportState::Dynamic),
{
    blended_pipeline_description(layout, render_pass, vertex_shader, fragment_shader, ViewportState::Dynamic)
}

} // verus!
