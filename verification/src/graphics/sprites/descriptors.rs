//! Descriptors of the sprite layer: per-layer data in a uniform buffer and
//! per-batch sprites in a storage buffer.
use crate::graphics::vulkan::{
    is_layout_binding, layout_binding, DescriptorPoolSize, DescriptorSetLayoutBinding,
    DescriptorType, ShaderStages,
};
use vstd::prelude::*;

verus! {

/// How a bump allocator of descriptor sets sizes each pool it creates: room
/// for `sets_per_pool` sets, each holding `descriptors_per_set`.
#[derive(Debug, PartialEq, Eq)]
pub struct DescriptorAllocatorInfo {
    pub sets_per_pool: u32,
    pub descriptors_per_set: Vec<DescriptorPoolSize>,
}

/// The sprite layer's allocator: pools of 20 sets, each with one uniform
/// buffer and one storage buffer.
pub fn create_descriptor_allocator() -> (r: DescriptorAllocatorInfo)
    ensures
        r.sets_per_pool == 20,
        r.descriptors_per_set@ == seq![
            DescriptorPoolSize { ty: DescriptorType::UniformBuffer, descriptor_count: 1 },
            DescriptorPoolSize { ty: DescriptorType::StorageBuffer, descriptor_count: 1 },
        ],
{
    let mut descriptors_per_set = Vec::new();
    descriptors_per_set.push(DescriptorPoolSize { ty: DescriptorType::UniformBuffer, descriptor_count: 1 });
    descriptors_per_set.push(DescriptorPoolSize { ty: DescriptorType::StorageBuffer, descriptor_count: 1 });
    DescriptorAllocatorInfo { sets_per_pool: 20, descriptors_per_set }
}

/// The layer data uniform buffer at binding 0, read by the vertex stage.
pub fn create_layer_descriptor_set_layout() -> (r: Vec<DescriptorSetLayoutBinding>)
    ensures
        r@.len() == 1,
        is_layout_binding(r@[0], 0, DescriptorType::UniformBuffer, 1, ShaderStages::Vertex),
{
    let mut r = Vec::new();
    r.push(layout_binding(0, DescriptorType::UniformBuffer, 1, ShaderStages::Vertex));
    r
}

/// The batch's sprite storage buffer at binding 0, read by the vertex stage.
pub fn create_batch_descriptor_set_layout() -> (r: Vec<DescriptorSetLayoutBinding>)
    ensures
        r@.len() == 1,
        is_layout_binding(r@[0], 0, DescriptorType::StorageBuffer, 1, ShaderStages::Vertex),
{
    let mut r = Vec::new();
    r.push(layout_binding(0, DescriptorType::StorageBuffer, 1, ShaderStages::Vertex));
    r
}

} // verus!
