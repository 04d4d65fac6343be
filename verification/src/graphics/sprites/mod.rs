//! Drawing batches of textured quads ("sprites") in layers.
pub mod descriptors;
pub mod frame_resources;

use crate::graphics::fullscreen_quad::uniform_buffer::{IndexOutOfRange, UniformBuffer};
use crate::graphics::sprites::frame_resources::FrameResources;
use crate::graphics::fullscreen_quad::descriptors::slot_info;
use crate::graphics::vulkan::{
    bind_sets, is_bind_sets, is_buffer_write, Command, DescriptorType, DescriptorWrite,
    PipelineBindPoint,
};
use crate::graphics::vulkan::{blended_pipeline, blended_pipeline_description, Extent2D, GraphicsPipelineDescription, ViewportState};
use vstd::prelude::*;

verus! {

/// `frames` are fresh resources for the frames in flight, one for each
/// layer descriptor set of `sets`, with nothing cached, and `writes[i]`
/// points set `i` at slot `i` of the layer data buffer `buffer`.
pub open spec fn fresh_frames<LayerDataT>(
    frames: Seq<FrameResources>,
    writes: Seq<DescriptorWrite>,
    sets: Seq<u64>,
    layer_data_buffer: UniformBuffer<LayerDataT>,
    buffer: u64,
) -> bool {
    &&& frames.len() == sets.len()
    &&& writes.len() == sets.len()
    &&& forall|i: int|
        #![trigger frames[i]]
        0 <= i < sets.len() ==> {
            &&& frames[i].spec_layer_descriptor_set() == sets[i]
            &&& frames[i].spec_cache() == Map::<u64, u64>::empty()
            &&& is_buffer_write(
                writes[i],
                sets[i],
                0,
                DescriptorType::UniformBuffer,
                slot_info(buffer, layer_data_buffer.spec_unit(), i, vstd::layout::size_of::<LayerDataT>()),
            )
        }
}

/// Fresh frame resources for the layer descriptor sets `sets`, set `i`
/// bound to slot `i`.
fn make_frames<LayerDataT>(
    sets: &Vec<u64>,
    layer_data_buffer: &UniformBuffer<LayerDataT>,
    buffer: u64,
) -> (r: (Vec<FrameResources>, Vec<DescriptorWrite>))
    requires
        layer_data_buffer.wf(),
        sets@.len() == layer_data_buffer.spec_count(),
    ensures
        fresh_frames(r.0@, r.1@, sets@, *layer_data_buffer, buffer),
{
    let mut frames: Vec<FrameResources> = Vec::new();
    let mut writes: Vec<DescriptorWrite> = Vec::new();
    let mut i: usize = 0;
    proof {
        crate::graphics::fullscreen_quad::uniform_buffer::lemma_wf_bound(*layer_data_buffer);
    }
    while i < sets.len()
        invariant
            i <= sets@.len(),
            sets@.len() == layer_data_buffer.spec_count(),
            layer_data_buffer.spec_unit() * layer_data_buffer.spec_count() <= usize::MAX,
            frames@.len() == i,
            writes@.len() == i,
            forall|j: int|
                #![trigger frames@[j]]
                0 <= j < i ==> {
                    &&& frames@[j].spec_layer_descriptor_set() == sets@[j]
                    &&& frames@[j].spec_cache() == Map::<u64, u64>::empty()
                    &&& is_buffer_write(
                        writes@[j],
                        sets@[j],
                        0,
                        DescriptorType::UniformBuffer,
                        slot_info(
                            buffer,
                            layer_data_buffer.spec_unit(),
                            j,
                            vstd::layout::size_of::<LayerDataT>(),
                        ),
                    )
                },
        decreases sets@.len() - i,
    {
        proof {
            vstd::arithmetic::mul::lemma_mul_inequality(
                i as int,
                layer_data_buffer.spec_count() as int,
                layer_data_buffer.spec_unit() as int,
            );
            vstd::arithmetic::mul::lemma_mul_is_commutative(
                layer_data_buffer.spec_count() as int,
                layer_data_buffer.spec_unit() as int,
            );
        }
        let (frame, write) = FrameResources::new(sets[i], layer_data_buffer, buffer, i);
        frames.push(frame);
        writes.push(write);
        i = i + 1;
    }
    (frames, writes)
}

/// A batch of sprites in device memory: the buffer that holds them and how
/// many there are.
#[derive(Debug, Clone, Copy, PartialEq, Eq)]
pub struct SpriteBatch {
    pub buffer: u64,
    pub count: u32,
}

impl From<(u64, u32)> for SpriteBatch {
    fn from(value: (u64, u32)) -> (r: Self) {
        SpriteBatch { buffer: value.0, count: value.1 }
    }
}

impl vstd::std_specs::convert::FromSpecImpl<(u64, u32)> for SpriteBatch {
    open spec fn obeys_from_spec() -> bool {
        true
    }

    open spec fn from_spec(value: (u64, u32)) -> SpriteBatch {
        SpriteBatch { buffer: value.0, count: value.1 }
    }
}

impl From<(u32, u64)> for SpriteBatch {
    fn from(value: (u32, u64)) -> (r: Self) {
        SpriteBatch { buffer: value.1, count: value.0 }
    }
}

impl vstd::std_specs::convert::FromSpecImpl<(u32, u64)> for SpriteBatch {
    open spec fn obeys_from_spec() -> bool {
        true
    }

    open spec fn from_spec(value: (u32, u64)) -> SpriteBatch {
        SpriteBatch { buffer: value.1, count: value.0 }
    }
}

/// A layer of sprites drawn with one pipeline: the layer data (such as the
/// projection) in a uniform buffer slot per frame, and a descriptor set per
/// sprite buffer.
#[derive(Debug)]
pub struct SpriteLayer<LayerDataT> {
    layer_descriptor_set_layout: u64,
    batch_descriptor_set_layout: u64,
    frames: Vec<FrameResources>,
    pipeline_layout: u64,
    pipeline: u64,
    layer_data_buffer: UniformBuffer<LayerDataT>,
}

impl<LayerDataT> SpriteLayer<LayerDataT> {
    pub closed spec fn spec_layer_descriptor_set_layout(&self) -> u64 {
        self.layer_descriptor_set_layout
    }

    pub closed spec fn spec_batch_descriptor_set_layout(&self) -> u64 {
        self.batch_descriptor_set_layout
    }

    pub closed spec fn spec_frames(&self) -> Seq<FrameResources> {
        self.frames@
    }

    pub closed spec fn spec_pipeline_layout(&self) -> u64 {
        self.pipeline_layout
    }

    pub closed spec fn spec_pipeline(&self) -> u64 {
        self.pipeline
    }

    pub closed spec fn spec_layer_data_buffer(&self) -> UniformBuffer<LayerDataT> {
        self.layer_data_buffer
    }

    /// Gathers the layer's resources, with fresh resources for each frame
    /// in flight: one for each layer descriptor set of
    /// `layer_descriptor_sets`, and the writes that point set `i` at slot
    /// `i` of the layer data buffer `buffer`.
    pub fn new(
        layer_descriptor_set_layout: u64,
        batch_descriptor_set_layout: u64,
        layer_descriptor_sets: &Vec<u64>,
        buffer: u64,
        pipeline_layout: u64,
        pipeline: u64,
        layer_data_buffer: UniformBuffer<LayerDataT>,
    ) -> (r: (Self, Vec<DescriptorWrite>))
        requires
            layer_data_buffer.wf(),
            layer_descriptor_sets@.len() == layer_data_buffer.spec_count(),
        ensures
            r.0.spec_layer_descriptor_set_layout() == layer_descriptor_set_layout,
            r.0.spec_batch_descriptor_set_layout() == batch_descriptor_set_layout,
            fresh_frames(r.0.spec_frames(), r.1@, layer_descriptor_sets@, layer_data_buffer, buffer),
            r.0.spec_pipeline_layout() == pipeline_layout,
            r.0.spec_pipeline() == pipeline,
            r.0.spec_layer_data_buffer() == layer_data_buffer,
    {
        let (frames, writes) = make_frames(layer_descriptor_sets, &layer_data_buffer, buffer);
        (
            SpriteLayer {
                layer_descriptor_set_layout,
                batch_descriptor_set_layout,
                frames,
                pipeline_layout,
                pipeline,
                layer_data_buffer,
            },
            writes,
        )
    }

    /// Replaces the per-frame resources with fresh ones for the layer
    /// descriptor sets allocated after the descriptor allocator was reset,
    /// which the caller does once every pending frame has completed: the
    /// cached batch descriptors go away, and the writes point set `i` at
    /// slot `i` of the layer data buffer `buffer` again.
    pub fn reset(&mut self, layer_descriptor_sets: &Vec<u64>, buffer: u64) -> (r: Vec<DescriptorWrite>)
        requires
            old(self).spec_layer_data_buffer().wf(),
            layer_descriptor_sets@.len() == old(self).spec_layer_data_buffer().spec_count(),
        ensures
            fresh_frames(
                final(self).spec_frames(),
                r@,
                layer_descriptor_sets@,
                old(self).spec_layer_data_buffer(),
                buffer,
            ),
            final(self).spec_layer_descriptor_set_layout() == old(self).spec_layer_descriptor_set_layout(),
            final(self).spec_batch_descriptor_set_layout() == old(self).spec_batch_descriptor_set_layout(),
            final(self).spec_pipeline_layout() == old(self).spec_pipeline_layout(),
            final(self).spec_pipeline() == old(self).spec_pipeline(),
            final(self).spec_layer_data_buffer() == old(self).spec_layer_data_buffer(),
    {
        let (frames, writes) = make_frames(layer_descriptor_sets, &self.layer_data_buffer, buffer);
        self.frames = frames;
        writes
    }

    /// The layout of the buffer that holds each frame's layer data.
    pub fn layer_data_buffer(&self) -> (r: &UniformBuffer<LayerDataT>)
        ensures
            *r == self.spec_layer_data_buffer(),
    {
        &self.layer_data_buffer
    }

    /// Replaces the pipeline with one built for the rebuilt swapchain.
    pub fn rebuild_swapchain_resources(&mut self, pipeline: u64)
        ensures
            final(self).spec_pipeline() == pipeline,
            final(self).spec_frames() == old(self).spec_frames(),
            final(self).spec_layer_descriptor_set_layout() == old(self).spec_layer_descriptor_set_layout(),
            final(self).spec_batch_descriptor_set_layout() == old(self).spec_batch_descriptor_set_layout(),
            final(self).spec_pipeline_layout() == old(self).spec_pipeline_layout(),
            final(self).spec_layer_data_buffer() == old(self).spec_layer_data_buffer(),
    {
        self.pipeline = pipeline;
    }

    /// Begins the layer in frame `frame_index`: the byte offset at which the
    /// frame's layer data is written, and the commands that bind the pipeline
    /// and the frame's layer descriptor set as set 0.
    pub fn begin(&self, frame_index: usize) -> (r: Result<(u64, Vec<Command>), IndexOutOfRange>)
        requires
            self.spec_layer_data_buffer().wf(),
            frame_index < self.spec_layer_data_buffer().spec_count() ==> frame_index
                < self.spec_frames().len(),
        ensures
            frame_index < self.spec_layer_data_buffer().spec_count() <==> r is Ok,
            r matches Err(e) ==> e == (IndexOutOfRange {
                index: frame_index,
                count: self.spec_layer_data_buffer().spec_count() as usize,
            }),
            r matches Ok((offset, commands)) ==> {
                &&& offset == frame_index * self.spec_layer_data_buffer().spec_unit()
                &&& commands@.len() == 2
                &&& commands@[0] == Command::BindPipeline {
                    bind_point: PipelineBindPoint::Graphics,
                    pipeline: self.spec_pipeline(),
                }
                &&& is_bind_sets(
                    commands@[1],
                    PipelineBindPoint::Graphics,
                    self.spec_pipeline_layout(),
                    0,
                    seq![self.spec_frames()[frame_index as int].spec_layer_descriptor_set()],
                )
            },
    {
        let offset = match self.layer_data_buffer.write_indexed(frame_index) {
            Ok(offset) => offset,
            Err(e) => {
                return Err(e);
            },
        };
        let mut sets = Vec::new();
        sets.push(self.frames[frame_index].get_layer_descriptor());
        let mut commands = Vec::new();
        commands.push(Command::BindPipeline { bind_point: PipelineBindPoint::Graphics, pipeline: self.pipeline });
        commands.push(bind_sets(PipelineBindPoint::Graphics, self.pipeline_layout, 0, sets));
        Ok((offset, commands))
    }

    /// The commands that draw `batch` in frame `frame_index`: bind the
    /// descriptor set of the batch's buffer as set 1 and draw six vertices
    /// per sprite. `None` when the frame has no descriptor set for the
    /// buffer yet; one is then allocated and recorded with
    /// [Self::insert_batch_descriptor].
    pub fn draw_batch(&self, frame_index: usize, batch: SpriteBatch) -> (r: Option<Vec<Command>>)
        requires
            frame_index < self.spec_frames().len(),
        ensures
            ({
                let cache = self.spec_frames()[frame_index as int].spec_cache();
                &&& cache.contains_key(batch.buffer) <==> r is Some
                &&& r matches Some(commands) ==> {
                    &&& commands@.len() == 2
                    &&& is_bind_sets(
                        commands@[0],
                        PipelineBindPoint::Graphics,
                        self.spec_pipeline_layout(),
                        1,
                        seq![cache[batch.buffer]],
                    )
                    &&& commands@[1] == Command::Draw { vertex_count: 6, instance_count: batch.count }
                }
            }),
    {
        match self.frames[frame_index].get_batch_descriptor(&batch) {
            Some(descriptor_set) => {
                let mut sets = Vec::new();
                sets.push(descriptor_set);
                let mut commands = Vec::new();
                commands.push(bind_sets(PipelineBindPoint::Graphics, self.pipeline_layout, 1, sets));
                commands.push(Command::Draw { vertex_count: 6, instance_count: batch.count });
                Some(commands)
            },
            None => None,
        }
    }

    /// Records `descriptor_set` as frame `frame_index`'s descriptor set for
    /// the batch's buffer; gives the write that points it at the sprites.
    pub fn insert_batch_descriptor(
        &mut self,
        frame_index: usize,
        batch: SpriteBatch,
        descriptor_set: u64,
        sprite_size: u64,
    ) -> (r: crate::graphics::vulkan::DescriptorWrite)
        requires
            frame_index < old(self).spec_frames().len(),
            batch.count * sprite_size <= u64::MAX,
        ensures
            final(self).spec_frames().len() == old(self).spec_frames().len(),
            final(self).spec_frames()[frame_index as int].spec_cache() == old(self).spec_frames()[frame_index as int].spec_cache().insert(batch.buffer, descriptor_set),
            final(self).spec_frames()[frame_index as int].spec_layer_descriptor_set() == old(self).spec_frames()[frame_index as int].spec_layer_descriptor_set(),
            forall|i: int|
                0 <= i < old(self).spec_frames().len() && i != frame_index ==> #[trigger] final(self).spec_frames()[i] == old(self).spec_frames()[i],
            crate::graphics::vulkan::is_buffer_write(
                r,
                descriptor_set,
                0,
                crate::graphics::vulkan::DescriptorType::StorageBuffer,
                crate::graphics::sprites::frame_resources::batch_info(batch.buffer, batch.count, sprite_size),
            ),
            final(self).spec_pipeline() == old(self).spec_pipeline(),
            final(self).spec_pipeline_layout() == old(self).spec_pipeline_layout(),
            final(self).spec_layer_data_buffer() == old(self).spec_layer_data_buffer(),
            final(self).spec_layer_descriptor_set_layout() == old(self).spec_layer_descriptor_set_layout(),
            final(self).spec_batch_descriptor_set_layout() == old(self).spec_batch_descriptor_set_layout(),
    {
        let mut frames: Vec<FrameResources> = Vec::new();
        std::mem::swap(&mut frames, &mut self.frames);
        let mut frame = frames.remove(frame_index);
        let write = frame.insert_batch_descriptor(&batch, descriptor_set, sprite_size);
        frames.insert(frame_index, frame);
        self.frames = frames;
        write
    }
}

/// The sprite layer's pipeline: its viewport and scissor cover the whole `extent` of the swapchain, alpha-blended, in subpass 0 of `render_pass`.
pub fn sprite_pipeline(
    layout: u64,
    render_pass: u64,
    vertex_shader: u64,
    fragment_shader: u64,
    extent: Extent2D,
) -> (r: GraphicsPipelineDescription)
    ensures
        r == blended_pipeline(layout, render_pass, vertex_shader, fragment_shader, ViewportState::Fixed(extent)),
{
    blended_pipeline_description(layout, render_pass, vertex_shader, fragment_shader, ViewportState::Fixed(extent))
}

} // verus!
