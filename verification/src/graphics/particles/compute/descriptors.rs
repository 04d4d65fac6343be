//! Descriptors of the particle compute pipeline: the particle storage buffer.
use crate::graphics::vulkan::{
    allocate_info, buffer_write, is_buffer_write, is_layout_binding, layout_binding, BufferInfo,
    DescriptorPoolInfo, DescriptorPoolSize, DescriptorSetAllocateInfo, DescriptorSetLayoutBinding,
    DescriptorType, DescriptorWrite, ShaderStages,
};
use vstd::prelude::*;

verus! {

/// Makes `descriptor_set` refer to the whole particle buffer, which is
/// `size_in_bytes` long.
pub fn update_descriptor_set(descriptor_set: u64, particles_buffer: u64, size_in_bytes: u64) -> (r:
    DescriptorWrite)
    ensures
        is_buffer_write(
            r,
            descriptor_set,
            0,
            DescriptorType::StorageBuffer,
            BufferInfo { buffer: particles_buffer, offset: 0, range: size_in_bytes },
        ),
{
    buffer_write(
        descriptor_set,
        0,
        DescriptorType::StorageBuffer,
        BufferInfo { buffer: particles_buffer, offset: 0, range: size_in_bytes },
    )
}

/// Asks for one descriptor set of the compute layout.
pub fn allocate_descriptor_set(pool: u64, layout: u64) -> (r: DescriptorSetAllocateInfo)
    ensures
        r.descriptor_pool == pool,
        r.set_layouts@ == seq![layout],
{
    let r = allocate_info(pool, layout, 1);
    assert(r.set_layouts@ =~= seq![layout]);
    r
}

/// A pool with room for one set holding one storage buffer.
pub fn create_descriptor_pool() -> (r: DescriptorPoolInfo)
    ensures
        r.max_sets == 1,
        r.pool_sizes@ == seq![
            DescriptorPoolSize { ty: DescriptorType::StorageBuffer, descriptor_count: 1 },
        ],
{
    let mut pool_sizes = Vec::new();
    pool_sizes.push(DescriptorPoolSize { ty: DescriptorType::StorageBuffer, descriptor_count: 1 });
    DescriptorPoolInfo { max_sets: 1, pool_sizes }
}

/// The particle storage buffer at binding 0, read by the compute stage.
pub fn create_descriptor_set_layout() -> (r: Vec<DescriptorSetLayoutBinding>)
    ensures
        r@.len() == 1,
        is_layout_binding(r@[0], 0, DescriptorType::StorageBuffer, 1, ShaderStages::Compute),
{
    let mut r = Vec::new();
    r.push(layout_binding(0, DescriptorType::StorageBuffer, 1, ShaderStages::Compute));
    r
}

} // verus!
