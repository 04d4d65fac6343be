//! Descriptors of the particle graphics pipeline: a projection slot for each
//! frame in flight and the particle storage buffer.
use crate::graphics::fullscreen_quad::descriptors::slot_info;
use crate::graphics::fullscreen_quad::uniform_buffer::UniformBuffer;
use crate::graphics::vulkan::{
    allocate_info, buffer_write, is_buffer_write, is_layout_binding, layout_binding, BufferInfo,
    DescriptorPoolInfo, DescriptorPoolSize, DescriptorSetAllocateInfo, DescriptorSetLayoutBinding,
    DescriptorType, DescriptorWrite, ShaderStages,
};
use vstd::prelude::*;

verus! {

/// The writes that make descriptor set `i` refer to slot `i` of the uniform
/// buffer `buffer` at binding 0 and to the whole particle buffer at binding 1.
pub fn update_descriptor_sets<T>(
    descriptor_sets: &Vec<u64>,
    uniform_buffer: &UniformBuffer<T>,
    buffer: u64,
    particles_buffer: u64,
    particles_size_in_bytes: u64,
) -> (writes: Vec<DescriptorWrite>)
    requires
        descriptor_sets@.len() == 0 || (descriptor_sets@.len() - 1) * uniform_buffer.spec_unit()
            <= usize::MAX,
    ensures
        writes@.len() == 2 * descriptor_sets@.len(),
        forall|i: int|
            #![trigger descriptor_sets@[i]]
            0 <= i < descriptor_sets@.len() ==> {
                &&& is_buffer_write(
                    writes@[2 * i],
                    descriptor_sets@[i],
                    0,
                    DescriptorType::UniformBuffer,
                    slot_info(buffer, uniform_buffer.spec_unit(), i, vstd::layout::size_of::<T>()),
                )
                &&& is_buffer_write(
                    writes@[2 * i + 1],
                    descriptor_sets@[i],
                    1,
                    DescriptorType::StorageBuffer,
                    BufferInfo { buffer: particles_buffer, offset: 0, range: particles_size_in_bytes },
                )
            },
{
    let range = std::mem::size_of::<T>() as u64;
    let n = descriptor_sets.len();
    let mut writes: Vec<DescriptorWrite> = Vec::new();
    let mut i: usize = 0;
    while i < n
        invariant
            n == descriptor_sets@.len(),
            i <= n,
            n == 0 || (n - 1) * uniform_buffer.spec_unit() <= usize::MAX,
            range == vstd::layout::size_of::<T>(),
            writes@.len() == 2 * i,
            forall|j: int|
                #![trigger descriptor_sets@[j]]
                0 <= j < i ==> {
                    &&& is_buffer_write(
                        writes@[2 * j],
                        descriptor_sets@[j],
                        0,
                        DescriptorType::UniformBuffer,
                        slot_info(buffer, uniform_buffer.spec_unit(), j, vstd::layout::size_of::<T>()),
                    )
                    &&& is_buffer_write(
                        writes@[2 * j + 1],
                        descriptor_sets@[j],
                        1,
                        DescriptorType::StorageBuffer,
                        BufferInfo {
                            buffer: particles_buffer,
                            offset: 0,
                            range: particles_size_in_bytes,
                        },
                    )
                },
        decreases n - i,
    {
        proof {
            vstd::arithmetic::mul::lemma_mul_inequality(
                i as int,
                (n - 1) as int,
                uniform_buffer.spec_unit() as int,
            );
        }
        let offset = uniform_buffer.offset_for_index(i);
        let set = descriptor_sets[i];
        writes.push(
            buffer_write(set, 0, DescriptorType::UniformBuffer, BufferInfo { buffer, offset, range }),
        );
        writes.push(
            buffer_write(
                set,
                1,
                DescriptorType::StorageBuffer,
                BufferInfo { buffer: particles_buffer, offset: 0, range: particles_size_in_bytes },
            ),
        );
        i = i + 1;
    }
    writes
}

/// Asks for one descriptor set of the view layout for each frame in flight.
pub fn allocate_descriptor_sets(pool: u64, layout: u64, frame_count: usize) -> (r:
    DescriptorSetAllocateInfo)
    ensures
        r.descriptor_pool == pool,
        r.set_layouts@ == Seq::new(frame_count as nat, |_i: int| layout),
{
    allocate_info(pool, layout, frame_count)
}

/// A pool with room for one set per frame in flight, each holding a uniform
/// buffer and a storage buffer.
pub fn create_descriptor_pool(frame_count: usize) -> (r: DescriptorPoolInfo)
    ensures
        r.max_sets == frame_count as u32,
        r.pool_sizes@ == seq![
            DescriptorPoolSize { ty: DescriptorType::UniformBuffer, descriptor_count: frame_count as u32 },
            DescriptorPoolSize { ty: DescriptorType::StorageBuffer, descriptor_count: frame_count as u32 },
        ],
{
    let n = frame_count as u32;
    let mut pool_sizes = Vec::new();
    pool_sizes.push(DescriptorPoolSize { ty: DescriptorType::UniformBuffer, descriptor_count: n });
    pool_sizes.push(DescriptorPoolSize { ty: DescriptorType::StorageBuffer, descriptor_count: n });
    DescriptorPoolInfo { max_sets: n, pool_sizes }
}

/// The projection at binding 0 and the particles at binding 1, both read by
/// the vertex stage.
pub fn create_descriptor_set_layout() -> (r: Vec<DescriptorSetLayoutBinding>)
    ensures
        r@.len() == 2,
        is_layout_binding(r@[0], 0, DescriptorType::UniformBuffer, 1, ShaderStages::Vertex),
        is_layout_binding(r@[1], 1, DescriptorType::StorageBuffer, 1, ShaderStages::Vertex),
{
    let mut r = Vec::new();
    r.push(layout_binding(0, DescriptorType::UniformBuffer, 1, ShaderStages::Vertex));
    r.push(layout_binding(1, DescriptorType::StorageBuffer, 1, ShaderStages::Vertex));
    r
}

} // verus!
