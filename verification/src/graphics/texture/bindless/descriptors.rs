//! Descriptors of the bindless texture atlas: three immutable samplers and an
//! array of sampled images.
use crate::graphics::vulkan::{
    allocate_info, is_layout_binding, layout_binding, DescriptorPoolInfo, DescriptorPoolSize,
    DescriptorSetAllocateInfo, DescriptorSetLayoutBinding, DescriptorType, ShaderStages,
};
use crate::graphics::vulkan::{AddressMode, Filter, SamplerDescription};
use vstd::prelude::*;

verus! {

/// The number of samplers that the atlas binds.
pub const SAMPLER_COUNT: u32 = 3;

/// Asks for `count` descriptor sets of the atlas layout.
pub fn allocate_descriptor_sets(pool: u64, layout: u64, count: u32) -> (r: DescriptorSetAllocateInfo)
    ensures
        r.descriptor_pool == pool,
        r.set_layouts@ == Seq::new(count as nat, |_i: int| layout),
{
    allocate_info(pool, layout, count as usize)
}

/// `r` lays out an atlas set: the samplers `samplers` as immutable
/// samplers at binding 0 and `max_textures` sampled images at binding 1,
/// both for every stage.
pub open spec fn is_atlas_layout(r: Seq<DescriptorSetLayoutBinding>, max_textures: u32, samplers: Seq<u64>) -> bool {
    &&& r.len() == 2
    &&& r[0].binding == 0
    &&& r[0].descriptor_type == DescriptorType::Sampler
    &&& r[0].descriptor_count == SAMPLER_COUNT
    &&& r[0].stage_flags == ShaderStages::All
    &&& r[0].immutable_samplers@ == samplers
    &&& is_layout_binding(r[1], 1, DescriptorType::SampledImage, max_textures, ShaderStages::All)
}

/// `r` is a pool with room for `count` atlas sets that each hold
/// `max_textures` textures: three samplers and `max_textures` sampled
/// images for each set.
pub open spec fn is_atlas_pool(r: DescriptorPoolInfo, count: u32, max_textures: u32) -> bool {
    &&& r.max_sets == count
    &&& r.pool_sizes@ == seq![
        DescriptorPoolSize { ty: DescriptorType::Sampler, descriptor_count: (3 * count) as u32 },
        DescriptorPoolSize {
            ty: DescriptorType::SampledImage,
            descriptor_count: (count * max_textures) as u32,
        },
    ]
}

/// The samplers at binding 0, baked into the layout, and up to
/// `max_textures` sampled images at binding 1; every stage may read both.
pub fn create_descriptor_layout(max_textures: u32, samplers: &Vec<u64>) -> (r: Vec<
    DescriptorSetLayoutBinding,
>)
    ensures
        is_atlas_layout(r@, max_textures, samplers@),
{
    let mut immutable_samplers = Vec::new();
    let mut i: usize = 0;
    while i < samplers.len()
        invariant
            i <= samplers@.len(),
            immutable_samplers@ == samplers@.subrange(0, i as int),
        decreases samplers@.len() - i,
    {
        immutable_samplers.push(samplers[i]);
        i = i + 1;
        assert(immutable_samplers@ =~= samplers@.subrange(0, i as int));
    }
    assert(immutable_samplers@ =~= samplers@);
    let mut r = Vec::new();
    r.push(
        DescriptorSetLayoutBinding {
            binding: 0,
            descriptor_type: DescriptorType::Sampler,
            descriptor_count: SAMPLER_COUNT,
            stage_flags: ShaderStages::All,
            immutable_samplers,
        },
    );
    r.push(layout_binding(1, DescriptorType::SampledImage, max_textures, ShaderStages::All));
    r
}

/// A pool with room for `count` sets that each hold every texture: three
/// samplers and `max_textures` sampled images for each set.
pub fn create_descriptor_pool(count: u32, max_textures: u32) -> (r: DescriptorPoolInfo)
    requires
        3 * count <= u32::MAX,
        count * max_textures <= u32::MAX,
    ensures
        is_atlas_pool(r, count, max_textures),
{
    let mut pool_sizes = Vec::new();
    pool_sizes.push(DescriptorPoolSize { ty: DescriptorType::Sampler, descriptor_count: 3 * count });
    pool_sizes.push(
        DescriptorPoolSize { ty: DescriptorType::SampledImage, descriptor_count: count * max_textures },
    );
    assert(pool_sizes@ =~= seq![
        DescriptorPoolSize { ty: DescriptorType::Sampler, descriptor_count: (3 * count) as u32 },
        DescriptorPoolSize {
            ty: DescriptorType::SampledImage,
            descriptor_count: (count * max_textures) as u32,
        },
    ]);
    DescriptorPoolInfo { max_sets: count, pool_sizes }
}

/// The atlas's three samplers, by index: linear filtering with linear
/// mipmaps and no anisotropy; the same with anisotropic filtering; and
/// nearest filtering with nearest mipmaps. All clamp to the edge and leave
/// the level of detail unclamped.
pub fn atlas_samplers() -> (r: Vec<SamplerDescription>)
    ensures
        r@ == seq![
            (SamplerDescription {
                filter: Filter::Linear,
                mipmap_mode: Filter::Linear,
                address_mode: AddressMode::ClampToEdge,
                anisotropy: false,
                unclamped_lod: true,
            }),
            (SamplerDescription {
                filter: Filter::Linear,
                mipmap_mode: Filter::Linear,
                address_mode: AddressMode::ClampToEdge,
                anisotropy: true,
                unclamped_lod: true,
            }),
            (SamplerDescription {
                filter: Filter::Nearest,
                mipmap_mode: Filter::Nearest,
                address_mode: AddressMode::ClampToEdge,
                anisotropy: false,
                unclamped_lod: true,
            }),
        ],
{
    let mut r = Vec::new();
    r.push(
        SamplerDescription {
            filter: Filter::Linear,
            mipmap_mode: Filter::Linear,
            address_mode: AddressMode::ClampToEdge,
            anisotropy: false,
            unclamped_lod: true,
        },
    );
    r.push(
        SamplerDescription {
            filter: Filter::Linear,
            mipmap_mode: Filter::Linear,
            address_mode: AddressMode::ClampToEdge,
            anisotropy: true,
            unclamped_lod: true,
        },
    );
    r.push(
        SamplerDescription {
            filter: Filter::Nearest,
            mipmap_mode: Filter::Nearest,
            address_mode: AddressMode::ClampToEdge,
            anisotropy: false,
            unclamped_lod: true,
        },
    );
    r
}

} // verus!
