//! Descriptors of the fullscreen effect: a frame data slot for each frame in
//! flight, read by the fragment shader.
use crate::graphics::fullscreen_quad::descriptors::slot_info;
use crate::graphics::fullscreen_quad::uniform_buffer::UniformBuffer;
use crate::graphics::vulkan::{
    allocate_info, buffer_write, is_buffer_write, is_layout_binding, layout_binding, BufferInfo,
    DescriptorPoolInfo, DescriptorPoolSize, DescriptorSetAllocateInfo, DescriptorSetLayoutBinding,
    DescriptorType, DescriptorWrite, ShaderStages,
};
use vstd::prelude::*;

verus! {

/// The writes that make descriptor set `i` refer to slot `i` of the frame
/// data buffer `buffer`.
pub fn update_descriptor_sets<FrameDataT>(
    descriptor_sets: &Vec<u64>,
    uniform_buffer: &UniformBuffer<FrameDataT>,
    buffer: u64,
) -> (writes: Vec<DescriptorWrite>)
    requires
        descriptor_sets@.len() == 0 || (descriptor_sets@.len() - 1) * uniform_buffer.spec_unit()
            <= usize::MAX,
    ensures
        writes@.len() == descriptor_sets@.len(),
        forall|i: int|
            #![trigger descriptor_sets@[i]]
            0 <= i < descriptor_sets@.len() ==> is_buffer_write(
                writes@[i],
                descriptor_sets@[i],
                0,
                DescriptorType::UniformBuffer,
                slot_info(buffer, uniform_buffer.spec_unit(), i, vstd::layout::size_of::<FrameDataT>()),
            ),
{
    let range = std::mem::size_of::<FrameDataT>() as u64;
    let n = descriptor_sets.len();
    let mut writes: Vec<DescriptorWrite> = Vec::new();
    let mut i: usize = 0;
    while i < n
        invariant
            n == descriptor_sets@.len(),
            i <= n,
            n == 0 || (n - 1) * uniform_buffer.spec_unit() <= usize::MAX,
            range == vstd::layout::size_of::<FrameDataT>(),
            writes@.len() == i,
            forall|j: int|
                #![trigger descriptor_sets@[j]]
                0 <= j < i ==> is_buffer_write(
                    writes@[j],
                    descriptor_sets@[j],
                    0,
                    DescriptorType::UniformBuffer,
                    slot_info(
                        buffer,
                        uniform_buffer.spec_unit(),
                        j,
                        vstd::layout::size_of::<FrameDataT>(),
                    ),
                ),
        decreases n - i,
    {
        proof {
            vstd::arithmetic::mul::lemma_mul_inequality(
                i as int,
                (n - 1) as int,
                uniform_buffer.spec_unit() as int,
            );
        }
        let offset = uniform_buffer.offset_for_index(i);
        writes.push(
            buffer_write(
                descriptor_sets[i],
                0,
                DescriptorType::UniformBuffer,
                BufferInfo { buffer, offset, range },
            ),
        );
        i = i + 1;
    }
    writes
}

/// Asks for `count` descriptor sets of the effect's layout.
pub fn allocate_descriptor_sets(pool: u64, layout: u64, count: u32) -> (r: DescriptorSetAllocateInfo)
    ensures
        r.descriptor_pool == pool,
        r.set_layouts@ == Seq::new(count as nat, |_i: int| layout),
{
    allocate_info(pool, layout, count as usize)
}

/// A pool with room for `count` sets of one uniform buffer each.
pub fn create_descriptor_pool(count: u32) -> (r: DescriptorPoolInfo)
    ensures
        r.max_sets == count,
        r.pool_sizes@ == seq![
            DescriptorPoolSize { ty: DescriptorType::UniformBuffer, descriptor_count: count },
        ],
{
    let mut pool_sizes = Vec::new();
    pool_sizes.push(DescriptorPoolSize { ty: DescriptorType::UniformBuffer, descriptor_count: count });
    DescriptorPoolInfo { max_sets: count, pool_sizes }
}

/// The frame data at binding 0, read by the fragment stage.
pub fn create_descriptor_set_laout() -> (r: Vec<DescriptorSetLayoutBinding>)
    ensures
        r@.len() == 1,
        is_layout_binding(r@[0], 0, DescriptorType::UniformBuffer, 1, ShaderStages::Fragment),
{
    let mut r = Vec::new();
    r.push(layout_binding(0, DescriptorType::UniformBuffer, 1, ShaderStages::Fragment));
    r
}

} // verus!
