//! A sampler and a fixed list of textures bound for the fragment shader.
pub mod descriptors;

use crate::graphics::fullscreen_quad::static_textures::descriptors::{
    create_descriptor_pool, create_descriptor_set_layout, initialize_descriptor_sets,
    is_static_textures_layout, is_static_textures_pool, static_textures_sampler,
};
use crate::graphics::texture::Texture;
use crate::graphics::vulkan::{
    is_image_write, AddressMode, DescriptorPoolInfo, DescriptorSetLayoutBinding, DescriptorType,
    DescriptorWrite, Filter, ImageInfo, ImageLayout, SamplerDescription, NULL_HANDLE,
};
use vstd::prelude::*;

verus! {

/// The sampler of the static textures: linear filtering, nearest mipmaps,
/// repeating at the edges, no anisotropy, the level of detail clamped to
/// the first level.
pub open spec fn static_sampler() -> SamplerDescription {
    SamplerDescription {
        filter: Filter::Linear,
        mipmap_mode: Filter::Nearest,
        address_mode: AddressMode::Repeat,
        anisotropy: false,
        unclamped_lod: false,
    }
}

/// The descriptor set that binds the sampler and the textures, its layout,
/// the descriptions that the layout, its pool and the sampler were created
/// from, and the textures, which it keeps.
#[derive(Debug)]
pub struct StaticTextures {
    descriptor_set: u64,
    descriptor_set_layout: u64,
    layout_bindings: Vec<DescriptorSetLayoutBinding>,
    pool: DescriptorPoolInfo,
    sampler: SamplerDescription,
    textures: Vec<Texture>,
}

impl StaticTextures {
    pub closed spec fn spec_descriptor_set(&self) -> u64 {
        self.descriptor_set
    }

    pub closed spec fn spec_descriptor_set_layout(&self) -> u64 {
        self.descriptor_set_layout
    }

    /// The bindings that the set layout was created with.
    pub closed spec fn spec_layout_bindings(&self) -> Seq<DescriptorSetLayoutBinding> {
        self.layout_bindings@
    }

    /// What the set's pool was created with.
    pub closed spec fn spec_pool(&self) -> DescriptorPoolInfo {
        self.pool
    }

    /// What the sampler was created with.
    pub closed spec fn spec_sampler(&self) -> SamplerDescription {
        self.sampler
    }

    /// The textures that the set binds, which are kept alive with it.
    pub closed spec fn spec_textures(&self) -> Seq<Texture> {
        self.textures@
    }

    /// The descriptions to create the set layout, pool and sampler from:
    /// the same as [StaticTextures::new] records for `textures`.
    pub fn descriptions(textures: &Vec<Texture>) -> (r: (
        Vec<DescriptorSetLayoutBinding>,
        DescriptorPoolInfo,
        SamplerDescription,
    ))
        requires
            textures@.len() < u32::MAX,
        ensures
            is_static_textures_layout(r.0@, textures@.len()),
            is_static_textures_pool(r.1, textures@.len()),
            r.2 == static_sampler(),
    {
        (create_descriptor_set_layout(textures), create_descriptor_pool(textures), static_textures_sampler())
    }

    /// Records the descriptor set and layout that bind the textures, and
    /// gives the writes that bind `sampler` at binding 0 and texture `i` at
    /// binding `1 + i`.
    pub fn new(
        descriptor_set: u64,
        descriptor_set_layout: u64,
        sampler: u64,
        textures: Vec<Texture>,
    ) -> (r: (Self, Vec<DescriptorWrite>))
        requires
            textures@.len() < u32::MAX,
        ensures
            r.0.spec_descriptor_set() == descriptor_set,
            r.0.spec_descriptor_set_layout() == descriptor_set_layout,
            is_static_textures_layout(r.0.spec_layout_bindings(), textures@.len()),
            is_static_textures_pool(r.0.spec_pool(), textures@.len()),
            r.0.spec_sampler() == static_sampler(),
            r.0.spec_textures() == textures@,
            r.1@.len() == textures@.len() + 1,
            is_image_write(
                r.1@[0],
                descriptor_set,
                0,
                DescriptorType::Sampler,
                seq![ImageInfo { sampler, image_view: NULL_HANDLE, image_layout: ImageLayout::Undefined }],
            ),
            forall|i: int|
                #![trigger textures@[i]]
                0 <= i < textures@.len() ==> is_image_write(
                    r.1@[i + 1],
                    descriptor_set,
                    (1 + i) as u32,
                    DescriptorType::SampledImage,
                    seq![
                        ImageInfo {
                            sampler: NULL_HANDLE,
                            image_view: textures@[i].spec_view(),
                            image_layout: ImageLayout::ShaderReadOnlyOptimal,
                        },
                    ],
                ),
    {
        let writes = initialize_descriptor_sets(descriptor_set, sampler, &textures);
        let (layout_bindings, pool, sampler) = Self::descriptions(&textures);
        (
            StaticTextures {
                descriptor_set,
                descriptor_set_layout,
                layout_bindings,
                pool,
                sampler,
                textures,
            },
            writes,
        )
    }

    /// The bindings that the set layout was created with.
    pub fn layout_bindings(&self) -> (r: &Vec<DescriptorSetLayoutBinding>)
        ensures
            r@ == self.spec_layout_bindings(),
    {
        &self.layout_bindings
    }

    /// What the descriptor pool was created with.
    pub fn pool(&self) -> (r: &DescriptorPoolInfo)
        ensures
            *r == self.spec_pool(),
    {
        &self.pool
    }

    /// Gets the active descriptor set layout.
    pub fn descriptor_set_layout(&self) -> (r: u64)
        ensures
            r == self.spec_descriptor_set_layout(),
    {
        self.descriptor_set_layout
    }

    /// Returns a non-owning copy of the descriptor set handle.
    pub fn descriptor_set(&self) -> (r: u64)
        ensures
            r == self.spec_descriptor_set(),
    {
        self.descriptor_set
    }
}

} // verus!
