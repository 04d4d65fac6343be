//! Render a single fullscreen quad using a provided fragment shader.
pub mod descriptors;
pub mod frame_data;
pub mod static_textures;
pub mod uniform_buffer;

use crate::graphics::fullscreen_quad::frame_data::FrameData;
use crate::graphics::fullscreen_quad::static_textures::StaticTextures;
use crate::graphics::fullscreen_quad::uniform_buffer::IndexOutOfRange;
use crate::graphics::vulkan::{bind_sets, is_bind_sets, Command, PipelineBindPoint};
use crate::graphics::vulkan::{blended_pipeline, blended_pipeline_description, Extent2D, GraphicsPipelineDescription, ViewportState};
use vstd::prelude::*;

verus! {

/// The commands that draw the quad: bind the pipeline, bind the frame's
/// descriptor set as set 0 and the textures' set as set 1, and draw the six
/// vertices of two triangles.
pub open spec fn is_quad_draw(
    commands: Seq<Command>,
    pipeline: u64,
    layout: u64,
    frame_set: u64,
    textures_set: u64,
) -> bool {
    &&& commands.len() == 3
    &&& commands[0] == Command::BindPipeline { bind_point: PipelineBindPoint::Graphics, pipeline }
    &&& is_bind_sets(commands[1], PipelineBindPoint::Graphics, layout, 0, seq![frame_set, textures_set])
    &&& commands[2] == Command::Draw { vertex_count: 6, instance_count: 1 }
}

/// A fullscreen quad always passes a copy of `UserDataT` to the fragment
/// shader with a uniform buffer bound at set 0, binding 0.
#[derive(Debug)]
pub struct FullscreenQuad<UserDataT> {
    pipeline: u64,
    pipeline_layout: u64,
    frame_data: FrameData<UserDataT>,
    static_textures: StaticTextures,
}

impl<UserDataT> FullscreenQuad<UserDataT> {
    pub closed spec fn spec_pipeline(&self) -> u64 {
        self.pipeline
    }

    pub closed spec fn spec_pipeline_layout(&self) -> u64 {
        self.pipeline_layout
    }

    pub closed spec fn spec_frame_data(&self) -> FrameData<UserDataT> {
        self.frame_data
    }

    pub closed spec fn spec_static_textures(&self) -> StaticTextures {
        self.static_textures
    }

    /// Gathers the quad's resources.
    pub fn new(
        pipeline: u64,
        pipeline_layout: u64,
        frame_data: FrameData<UserDataT>,
        static_textures: StaticTextures,
    ) -> (r: Self)
        ensures
            r.spec_pipeline() == pipeline,
            r.spec_pipeline_layout() == pipeline_layout,
            r.spec_frame_data() == frame_data,
            r.spec_static_textures() == static_textures,
    {
        FullscreenQuad { pipeline, pipeline_layout, frame_data, static_textures }
    }

    /// The descriptor set layouts of the quad's pipeline, in set order.
    pub fn descriptor_set_layouts(&self) -> (r: Vec<u64>)
        ensures
            r@ == seq![
                self.spec_frame_data().spec_descriptor_set_layout(),
                self.spec_static_textures().spec_descriptor_set_layout(),
            ],
    {
        let mut r = Vec::new();
        r.push(self.frame_data.descriptor_set_layout());
        r.push(self.static_textures.descriptor_set_layout());
        r
    }

    /// Replaces the graphics pipeline with one built from a new fragment
    /// shader.
    pub fn rebuild_pipeline(&mut self, pipeline: u64, pipeline_layout: u64)
        ensures
            final(self).spec_pipeline() == pipeline,
            final(self).spec_pipeline_layout() == pipeline_layout,
            final(self).spec_frame_data() == old(self).spec_frame_data(),
            final(self).spec_static_textures() == old(self).spec_static_textures(),
    {
        self.pipeline = pipeline;
        self.pipeline_layout = pipeline_layout;
    }

    /// Plans the drawing of frame `frame_index`: the byte offset at which the
    /// frame's user data is written, and the draw commands. Fails when the
    /// uniform buffer has no slot for the frame.
    pub fn draw(&self, frame_index: usize) -> (r: Result<(u64, Vec<Command>), IndexOutOfRange>)
        requires
            self.spec_frame_data().spec_uniform_buffer().wf(),
            frame_index < self.spec_frame_data().spec_uniform_buffer().spec_count() ==> frame_index
                < self.spec_frame_data().spec_descriptor_sets().len(),
        ensures
            frame_index < self.spec_frame_data().spec_uniform_buffer().spec_count() <==> r is Ok,
            r matches Err(e) ==> e == (IndexOutOfRange {
                index: frame_index,
                count: self.spec_frame_data().spec_uniform_buffer().spec_count() as usize,
            }),
            r matches Ok((offset, commands)) ==> {
                &&& offset == frame_index * self.spec_frame_data().spec_uniform_buffer().spec_unit()
                &&& is_quad_draw(
                    commands@,
                    self.spec_pipeline(),
                    self.spec_pipeline_layout(),
                    self.spec_frame_data().spec_descriptor_sets()[frame_index as int],
                    self.spec_static_textures().spec_descriptor_set(),
                )
            },
    {
        let offset = match self.frame_data.update(frame_index) {
            Ok(offset) => offset,
            Err(e) => {
                return Err(e);
            },
        };
        let mut sets = Vec::new();
        sets.push(self.frame_data.current_descriptor_set(frame_index));
        sets.push(self.static_textures.descriptor_set());
        assert(sets@ =~= seq![
            self.spec_frame_data().spec_descriptor_sets()[frame_index as int],
            self.spec_static_textures().spec_descriptor_set(),
        ]);
        let mut commands = Vec::new();
        commands.push(Command::BindPipeline { bind_point: PipelineBindPoint::Graphics, pipeline: self.pipeline });
        commands.push(bind_sets(PipelineBindPoint::Graphics, self.pipeline_layout, 0, sets));
        commands.push(Command::Draw { vertex_count: 6, instance_count: 1 });
        Ok((offset, commands))
    }
}

/// The quad's pipeline: its viewport and scissor cover the whole `extent` of the swapchain, alpha-blended, in subpass 0 of `render_pass`.
pub fn fullscreen_quad_pipeline(
    layout: u64,
    render_pass: u64,
    vertex_shader: u64,
    fragment_shader: u64,
    extent: Extent2D,
) -> (r: GraphicsPipelineDescription)
    ensures
        r == blended_pipeline(layout, render_pass, vertex_shader, fragment_shader, ViewportState::Fixed(extent)),
{
    blended_pipeline_description(layout, render_pass, vertex_shader, fragment_shader, ViewportState::Fixed(extent))
}

} // verus!
