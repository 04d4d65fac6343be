//! Per-frame resources for drawing sprites.
use crate::graphics::fullscreen_quad::descriptors::slot_info;
use crate::graphics::fullscreen_quad::uniform_buffer::UniformBuffer;
use crate::graphics::sprites::SpriteBatch;
use crate::graphics::vulkan::{
    buffer_write, is_buffer_write, BufferInfo, DescriptorType, DescriptorWrite,
};
use std::collections::HashMap;
use vstd::prelude::*;

verus! {

broadcast use vstd::std_specs::hash::group_hash_axioms;

/// The range of a batch's storage buffer that holds its `count` sprites of
/// `sprite_size` bytes each.
pub open spec fn batch_info(buffer: u64, count: u32, sprite_size: u64) -> BufferInfo {
    BufferInfo { buffer, offset: 0, range: (count * sprite_size) as u64 }
}

/// The layer's descriptor set for one frame in flight, and the descriptor
/// sets made so far for the sprite buffers drawn in that frame, by buffer.
#[derive(Debug)]
pub struct FrameResources {
    layer_descriptor_set: u64,
    cached_batch_descriptors: HashMap<u64, u64>,
}

impl FrameResources {
    pub closed spec fn spec_layer_descriptor_set(&self) -> u64 {
        self.layer_descriptor_set
    }

    /// The descriptor set made for each sprite buffer, by buffer handle.
    pub closed spec fn spec_cache(&self) -> Map<u64, u64> {
        self.cached_batch_descriptors@
    }

    /// The frame's resources around its freshly allocated layer descriptor
    /// set, and the write that points that set at slot `index` of the layer
    /// data buffer `buffer`.
    pub fn new<LayerDataT>(
        layer_descriptor_set: u64,
        layer_buffer: &UniformBuffer<LayerDataT>,
        buffer: u64,
        index: usize,
    ) -> (r: (Self, DescriptorWrite))
        requires
            index * layer_buffer.spec_unit() <= usize::MAX,
        ensures
            r.0.spec_layer_descriptor_set() == layer_descriptor_set,
            r.0.spec_cache() == Map::<u64, u64>::empty(),
            is_buffer_write(
                r.1,
                layer_descriptor_set,
                0,
                DescriptorType::UniformBuffer,
                slot_info(
                    buffer,
                    layer_buffer.spec_unit(),
                    index as int,
                    vstd::layout::size_of::<LayerDataT>(),
                ),
            ),
    {
        let info = BufferInfo {
            buffer,
            offset: layer_buffer.offset_for_index(index),
            range: std::mem::size_of::<LayerDataT>() as u64,
        };
        let write = buffer_write(layer_descriptor_set, 0, DescriptorType::UniformBuffer, info);
        (FrameResources { layer_descriptor_set, cached_batch_descriptors: HashMap::new() }, write)
    }

    pub fn get_layer_descriptor(&self) -> (r: u64)
        ensures
            r == self.spec_layer_descriptor_set(),
    {
        self.layer_descriptor_set
    }

    /// The descriptor set already made for the batch's sprite buffer, if any.
    pub fn get_batch_descriptor(&self, batch: &SpriteBatch) -> (r: Option<u64>)
        ensures
            self.spec_cache().contains_key(batch.buffer) ==> r == Some(
                self.spec_cache()[batch.buffer],
            ),
            !self.spec_cache().contains_key(batch.buffer) ==> r is None,
    {
        match self.cached_batch_descriptors.get(&batch.buffer) {
            Some(d) => Some(*d),
            None => None,
        }
    }

    /// Records `descriptor_set`, freshly allocated, as the descriptor set of
    /// the batch's sprite buffer, and gives the write that points it at the
    /// batch's sprites, each `sprite_size` bytes long.
    pub fn insert_batch_descriptor(
        &mut self,
        batch: &SpriteBatch,
        descriptor_set: u64,
        sprite_size: u64,
    ) -> (r: DescriptorWrite)
        requires
            batch.count * sprite_size <= u64::MAX,
        ensures
            final(self).spec_cache() == old(self).spec_cache().insert(batch.buffer, descriptor_set),
            final(self).spec_layer_descriptor_set() == old(self).spec_layer_descriptor_set(),
            is_buffer_write(
                r,
                descriptor_set,
                0,
                DescriptorType::StorageBuffer,
                batch_info(batch.buffer, batch.count, sprite_size),
            ),
    {
        let range = batch.count as u64 * sprite_size;
        let write = buffer_write(
            descriptor_set,
            0,
            DescriptorType::StorageBuffer,
            BufferInfo { buffer: batch.buffer, offset: 0, range },
        );
        self.cached_batch_descriptors.insert(batch.buffer, descriptor_set);
        write
    }
}

/// A batch's descriptor set, once recorded, is what later lookups of its
/// buffer give back, and recording it leaves the other buffers' sets alone.
pub proof fn lemma_cache_read_after_write(cache: Map<u64, u64>, buffer: u64, set: u64, other: u64)
    requires
        other != buffer,
    ensures
        cache.insert(buffer, set).contains_key(buffer),
        cache.insert(buffer, set)[buffer] == set,
        cache.insert(buffer, set).contains_key(other) == cache.contains_key(other),
        cache.contains_key(other) ==> cache.insert(buffer, set)[other] == cache[other],
{
}

} // verus!
