//! Descriptors of the static textures: the sampler at binding 0 and one
//! sampled image per texture at the bindings after it.
use crate::graphics::texture::Texture;
use crate::graphics::vulkan::{
    allocate_info, image_write, is_image_write, is_layout_binding, layout_binding,
    DescriptorPoolInfo, DescriptorPoolSize, DescriptorSetAllocateInfo, DescriptorSetLayoutBinding,
    DescriptorType, DescriptorWrite, ImageInfo, ImageLayout, ShaderStages, NULL_HANDLE,
};
use crate::graphics::vulkan::{AddressMode, Filter, SamplerDescription};
use vstd::prelude::*;

verus! {

/// Asks for the single descriptor set of the layout.
pub fn allocate_descriptor_sets(pool: u64, layout: u64) -> (r: DescriptorSetAllocateInfo)
    ensures
        r.descriptor_pool == pool,
        r.set_layouts@ == seq![layout],
{
    let r = allocate_info(pool, layout, 1);
    assert(r.set_layouts@ =~= seq![layout]);
    r
}

/// Writes the sampler to binding 0 and texture `i` to binding `1 + i`.
pub fn initialize_descriptor_sets(descriptor_set: u64, sampler: u64, textures: &Vec<Texture>) -> (r:
    Vec<DescriptorWrite>)
    requires
        textures@.len() < u32::MAX,
    ensures
        r@.len() == textures@.len() + 1,
        is_image_write(
            r@[0],
            descriptor_set,
            0,
            DescriptorType::Sampler,
            seq![ImageInfo { sampler, image_view: NULL_HANDLE, image_layout: ImageLayout::Undefined }],
        ),
        forall|i: int|
            #![trigger textures@[i]]
            0 <= i < textures@.len() ==> is_image_write(
                r@[i + 1],
                descriptor_set,
                (1 + i) as u32,
                DescriptorType::SampledImage,
                seq![
                    ImageInfo {
                        sampler: NULL_HANDLE,
                        image_view: textures@[i].spec_view(),
                        image_layout: ImageLayout::ShaderReadOnlyOptimal,
                    },
                ],
            ),
{
    let mut r = Vec::new();
    r.push(
        image_write(
            descriptor_set,
            0,
            DescriptorType::Sampler,
            ImageInfo { sampler, image_view: NULL_HANDLE, image_layout: ImageLayout::Undefined },
        ),
    );
    let mut i: usize = 0;
    while i < textures.len()
        invariant
            i <= textures@.len(),
            textures@.len() < u32::MAX,
            r@.len() == i + 1,
            is_image_write(
                r@[0],
                descriptor_set,
                0,
                DescriptorType::Sampler,
                seq![ImageInfo { sampler, image_view: NULL_HANDLE, image_layout: ImageLayout::Undefined }],
            ),
            forall|j: int|
                #![trigger textures@[j]]
                0 <= j < i ==> is_image_write(
                    r@[j + 1],
                    descriptor_set,
                    (1 + j) as u32,
                    DescriptorType::SampledImage,
                    seq![
                        ImageInfo {
                            sampler: NULL_HANDLE,
                            image_view: textures@[j].spec_view(),
                            image_layout: ImageLayout::ShaderReadOnlyOptimal,
                        },
                    ],
                ),
        decreases textures@.len() - i,
    {
        let binding = (i + 1) as u32;
        r.push(
            image_write(
                descriptor_set,
                binding,
                DescriptorType::SampledImage,
                ImageInfo {
                    sampler: NULL_HANDLE,
                    image_view: textures[i].view(),
                    image_layout: ImageLayout::ShaderReadOnlyOptimal,
                },
            ),
        );
        i = i + 1;
    }
    r
}

/// `r` is a pool with room for the one set of `n` static textures: one
/// sampler and, when there are textures, one sampled image per texture.
pub open spec fn is_static_textures_pool(r: DescriptorPoolInfo, n: nat) -> bool {
    &&& r.max_sets == 1
    &&& n == 0 ==> r.pool_sizes@ == seq![
        DescriptorPoolSize { ty: DescriptorType::Sampler, descriptor_count: 1 },
    ]
    &&& n > 0 ==> r.pool_sizes@ == seq![
        DescriptorPoolSize { ty: DescriptorType::Sampler, descriptor_count: 1 },
        DescriptorPoolSize { ty: DescriptorType::SampledImage, descriptor_count: n as u32 },
    ]
}

/// `r` lays out the set of `n` static textures: the sampler at binding 0
/// and one sampled image per texture at the bindings after it, all read by
/// the fragment stage.
pub open spec fn is_static_textures_layout(r: Seq<DescriptorSetLayoutBinding>, n: nat) -> bool {
    &&& r.len() == n + 1
    &&& is_layout_binding(r[0], 0, DescriptorType::Sampler, 1, ShaderStages::Fragment)
    &&& forall|b: int|
        1 <= b <= n ==> is_layout_binding(
            #[trigger] r[b],
            b as u32,
            DescriptorType::SampledImage,
            1,
            ShaderStages::Fragment,
        )
}

/// A pool with room for the one set: one sampler and, when there are
/// textures, one sampled image per texture.
pub fn create_descriptor_pool(textures: &Vec<Texture>) -> (r: DescriptorPoolInfo)
    requires
        textures@.len() < u32::MAX,
    ensures
        is_static_textures_pool(r, textures@.len()),
{
    let mut pool_sizes = Vec::new();
    pool_sizes.push(DescriptorPoolSize { ty: DescriptorType::Sampler, descriptor_count: 1 });
    if textures.len() != 0 {
        pool_sizes.push(
            DescriptorPoolSize {
                ty: DescriptorType::SampledImage,
                descriptor_count: textures.len() as u32,
            },
        );
        assert(pool_sizes@ =~= seq![
            DescriptorPoolSize { ty: DescriptorType::Sampler, descriptor_count: 1 },
            DescriptorPoolSize {
                ty: DescriptorType::SampledImage,
                descriptor_count: textures@.len() as u32,
            },
        ]);
    } else {
        assert(pool_sizes@ =~= seq![
            DescriptorPoolSize { ty: DescriptorType::Sampler, descriptor_count: 1 },
        ]);
    }
    DescriptorPoolInfo { max_sets: 1, pool_sizes }
}

/// The sampler at binding 0 and one sampled image per texture at the
/// bindings after it, all read by the fragment stage.
pub fn create_descriptor_set_layout(textures: &Vec<Texture>) -> (r: Vec<DescriptorSetLayoutBinding>)
    requires
        textures@.len() < u32::MAX,
    ensures
        is_static_textures_layout(r@, textures@.len()),
{
    let mut r = Vec::new();
    r.push(layout_binding(0, DescriptorType::Sampler, 1, ShaderStages::Fragment));
    let mut i: usize = 0;
    while i < textures.len()
        invariant
            i <= textures@.len(),
            textures@.len() < u32::MAX,
            r@.len() == i + 1,
            is_layout_binding(r@[0], 0, DescriptorType::Sampler, 1, ShaderStages::Fragment),
            forall|b: int|
                1 <= b <= i ==> is_layout_binding(
                    #[trigger] r@[b],
                    b as u32,
                    DescriptorType::SampledImage,
                    1,
                    ShaderStages::Fragment,
                ),
        decreases textures@.len() - i,
    {
        let binding = (i + 1) as u32;
        r.push(layout_binding(binding, DescriptorType::SampledImage, 1, ShaderStages::Fragment));
        i = i + 1;
    }
    r
}

/// The sampler of the static textures: linear filtering, nearest mipmaps,
/// repeating at the edges, no anisotropy, and the level of detail clamped
/// to the first level.
pub fn static_textures_sampler() -> (r: SamplerDescription)
    ensures
        r == (SamplerDescription {
            filter: Filter::Linear,
            mipmap_mode: Filter::Nearest,
            address_mode: AddressMode::Repeat,
            anisotropy: false,
            unclamped_lod: false,
        }),
{
    SamplerDescription {
        filter: Filter::Linear,
        mipmap_mode: Filter::Nearest,
        address_mode: AddressMode::Repeat,
        anisotropy: false,
        unclamped_lod: false,
    }
}

} // verus!
