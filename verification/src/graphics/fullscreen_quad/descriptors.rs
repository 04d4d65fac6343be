//! Descriptors of a fullscreen quad: a uniform buffer slot for each frame in
//! flight and, when the quad is textured, a sampler and a sampled image.
use crate::graphics::fullscreen_quad::uniform_buffer::UniformBuffer;
use crate::graphics::texture::Texture;
use crate::graphics::vulkan::{
    allocate_info, buffer_write, image_write, is_buffer_write, is_image_write, is_layout_binding,
    layout_binding, BufferInfo, DescriptorPoolInfo, DescriptorPoolSize, DescriptorSetAllocateInfo,
    DescriptorSetLayoutBinding, DescriptorType, DescriptorWrite, ImageInfo, ImageLayout, ShaderStages,
    NULL_HANDLE,
};
use vstd::prelude::*;

verus! {

/// The buffer range of slot `index` of a uniform buffer whose slots are
/// `unit` bytes apart and whose data is `range` bytes long.
pub open spec fn slot_info(buffer: u64, unit: nat, index: int, range: nat) -> BufferInfo {
    BufferInfo { buffer, offset: (index * unit) as u64, range: range as u64 }
}

/// The sampler descriptor that the quad's binding 1 holds.
pub open spec fn sampler_info(sampler: u64) -> ImageInfo {
    ImageInfo { sampler, image_view: NULL_HANDLE, image_layout: ImageLayout::Undefined }
}

/// The image descriptor that the quad's binding 2 holds.
pub open spec fn texture_info(sampler: u64, view: u64) -> ImageInfo {
    ImageInfo { sampler, image_view: view, image_layout: ImageLayout::ShaderReadOnlyOptimal }
}

/// Asks for `count` descriptor sets of the quad's layout.
pub fn allocate_descriptor_sets(pool: u64, layout: u64, count: usize) -> (r:
    DescriptorSetAllocateInfo)
    ensures
        r.descriptor_pool == pool,
        r.set_layouts@ == Seq::new(count as nat, |_i: int| layout),
{
    allocate_info(pool, layout, count)
}

/// The writes that make each descriptor set refer to its own slot of the
/// uniform buffer `buffer` and, when there is a texture, to the sampler and
/// the texture.
pub fn initialize_descriptor_sets<FrameDataT>(
    descriptor_sets: &Vec<u64>,
    uniform_buffer: &UniformBuffer<FrameDataT>,
    buffer: u64,
    texture: &Option<Texture>,
    sampler: u64,
) -> (writes: Vec<DescriptorWrite>)
    requires
        descriptor_sets@.len() == 0 || (descriptor_sets@.len() - 1) * uniform_buffer.spec_unit()
            <= usize::MAX,
    ensures
        texture is None ==> writes@.len() == descriptor_sets@.len(),
        texture is None ==> forall|i: int|
            #![trigger descriptor_sets@[i]]
            0 <= i < descriptor_sets@.len() ==> is_buffer_write(
                writes@[i],
                descriptor_sets@[i],
                0,
                DescriptorType::UniformBuffer,
                slot_info(
                    buffer,
                    uniform_buffer.spec_unit(),
                    i,
                    vstd::layout::size_of::<FrameDataT>(),
                ),
            ),
        texture is Some ==> writes@.len() == 3 * descriptor_sets@.len(),
        texture is Some ==> forall|i: int|
            #![trigger descriptor_sets@[i]]
            0 <= i < descriptor_sets@.len() ==> {
                &&& is_buffer_write(
                    writes@[3 * i],
                    descriptor_sets@[i],
                    0,
                    DescriptorType::UniformBuffer,
                    slot_info(
                        buffer,
                        uniform_buffer.spec_unit(),
                        i,
                        vstd::layout::size_of::<FrameDataT>(),
                    ),
                )
                &&& is_image_write(
                    writes@[3 * i + 1],
                    descriptor_sets@[i],
                    1,
                    DescriptorType::Sampler,
                    seq![sampler_info(sampler)],
                )
                &&& is_image_write(
                    writes@[3 * i + 2],
                    descriptor_sets@[i],
                    2,
                    DescriptorType::SampledImage,
                    seq![texture_info(sampler, texture->0.spec_view())],
                )
            },
{
    let range = std::mem::size_of::<FrameDataT>() as u64;
    let n = descriptor_sets.len();
    let mut writes: Vec<DescriptorWrite> = Vec::new();
    let mut i: usize = 0;
    while i < n
        invariant
            n == descriptor_sets@.len(),
            i <= n,
            n == 0 || (n - 1) * uniform_buffer.spec_unit() <= usize::MAX,
            range == vstd::layout::size_of::<FrameDataT>(),
            texture is None ==> writes@.len() == i,
            texture is None ==> forall|j: int|
                #![trigger descriptor_sets@[j]]
                0 <= j < i ==> is_buffer_write(
                    writes@[j],
                    descriptor_sets@[j],
                    0,
                    DescriptorType::UniformBuffer,
                    slot_info(
                        buffer,
                        uniform_buffer.spec_unit(),
                        j,
                        vstd::layout::size_of::<FrameDataT>(),
                    ),
                ),
            texture is Some ==> writes@.len() == 3 * i,
            texture is Some ==> forall|j: int|
                #![trigger descriptor_sets@[j]]
                0 <= j < i ==> {
                    &&& is_buffer_write(
                        writes@[3 * j],
                        descriptor_sets@[j],
                        0,
                        DescriptorType::UniformBuffer,
                        slot_info(
                            buffer,
                            uniform_buffer.spec_unit(),
                            j,
                            vstd::layout::size_of::<FrameDataT>(),
                        ),
                    )
                    &&& is_image_write(
                        writes@[3 * j + 1],
                        descriptor_sets@[j],
                        1,
                        DescriptorType::Sampler,
                        seq![sampler_info(sampler)],
                    )
                    &&& is_image_write(
                        writes@[3 * j + 2],
                        descriptor_sets@[j],
                        2,
                        DescriptorType::SampledImage,
                        seq![texture_info(sampler, texture->0.spec_view())],
                    )
                },
        decreases n - i,
    {
        proof {
            vstd::arithmetic::mul::lemma_mul_inequality(
                i as int,
                (n - 1) as int,
                uniform_buffer.spec_unit() as int,
            );
        }
        let offset = uniform_buffer.offset_for_index(i);
        let set = descriptor_sets[i];
        let info = BufferInfo { buffer, offset, range };
        writes.push(buffer_write(set, 0, DescriptorType::UniformBuffer, info));
        match texture {
            Some(t) => {
                writes.push(
                    image_write(
                        set,
                        1,
                        DescriptorType::Sampler,
                        ImageInfo {
                            sampler,
                            image_view: NULL_HANDLE,
                            image_layout: ImageLayout::Undefined,
                        },
                    ),
                );
                writes.push(
                    image_write(
                        set,
                        2,
                        DescriptorType::SampledImage,
                        ImageInfo {
                            sampler,
                            image_view: t.view(),
                            image_layout: ImageLayout::ShaderReadOnlyOptimal,
                        },
                    ),
                );
            },
            None => {},
        }
        i = i + 1;
    }
    writes
}

/// A pool with room for `count` sets: one uniform buffer per set and, when
/// there is a texture, one sampler and one sampled image per set.
pub fn create_descriptor_pool(count: usize, texture: &Option<Texture>) -> (r: DescriptorPoolInfo)
    ensures
        r.max_sets == count as u32,
        texture is Some ==> r.pool_sizes@ == seq![
            DescriptorPoolSize { ty: DescriptorType::UniformBuffer, descriptor_count: count as u32 },
            DescriptorPoolSize { ty: DescriptorType::Sampler, descriptor_count: count as u32 },
            DescriptorPoolSize { ty: DescriptorType::SampledImage, descriptor_count: count as u32 },
        ],
        texture is None ==> r.pool_sizes@ == seq![
            DescriptorPoolSize { ty: DescriptorType::UniformBuffer, descriptor_count: count as u32 },
        ],
{
    let n = count as u32;
    let mut pool_sizes = Vec::new();
    pool_sizes.push(DescriptorPoolSize { ty: DescriptorType::UniformBuffer, descriptor_count: n });
    if texture.is_some() {
        pool_sizes.push(DescriptorPoolSize { ty: DescriptorType::Sampler, descriptor_count: n });
        pool_sizes.push(DescriptorPoolSize { ty: DescriptorType::SampledImage, descriptor_count: n });
    }
    DescriptorPoolInfo { max_sets: n, pool_sizes }
}

/// The layout is the same for each frame in flight: the uniform buffer at
/// binding 0 and, when there is a texture, the sampler at binding 1 and the
/// sampled image at binding 2.
pub fn create_descriptor_set_layout(texture: &Option<Texture>) -> (r: Vec<
    DescriptorSetLayoutBinding,
>)
    ensures
        texture is Some ==> r@.len() == 3,
        texture is None ==> r@.len() == 1,
        is_layout_binding(r@[0], 0, DescriptorType::UniformBuffer, 1, ShaderStages::VertexAndFragment),
        texture is Some ==> is_layout_binding(r@[1], 1, DescriptorType::Sampler, 1, ShaderStages::Fragment),
        texture is Some ==> is_layout_binding(
            r@[2],
            2,
            DescriptorType::SampledImage,
            1,
            ShaderStages::Fragment,
        ),
{
    let mut r = Vec::new();
    r.push(layout_binding(0, DescriptorType::UniformBuffer, 1, ShaderStages::VertexAndFragment));
    if texture.is_some() {
        r.push(layout_binding(1, DescriptorType::Sampler, 1, ShaderStages::Fragment));
        r.push(layout_binding(2, DescriptorType::SampledImage, 1, ShaderStages::Fragment));
    }
    r
}

} // verus!
