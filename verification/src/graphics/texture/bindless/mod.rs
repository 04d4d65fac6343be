//! Maintains descriptors for a list of texture images, which shaders reach by
//! their index: "bindless" textures.
//!
//! The descriptor set that the atlas provides is meant for set 0:
//!
//! 1. `[vk_binding(0, 0)] SamplerState samplers[3];`
//! 2. `[vk_binding(1, 0)] texture2D textures[];`
pub mod descriptors;

use crate::graphics::texture::Texture;
use crate::graphics::texture::bindless::descriptors::{
    atlas_samplers, create_descriptor_layout, create_descriptor_pool, is_atlas_layout,
    is_atlas_pool,
};
use crate::graphics::vulkan::{
    bind_sets, is_bind_sets, is_image_write, AddressMode, Command, DescriptorPoolInfo,
    DescriptorSetLayoutBinding, DescriptorType, DescriptorWrite, Filter, ImageInfo, ImageLayout,
    PipelineBindPoint, SamplerDescription, NULL_HANDLE,
};
use vstd::prelude::*;

verus! {

/// The image descriptors that bind every texture of `views`, in order.
pub open spec fn texture_infos(views: Seq<u64>) -> Seq<ImageInfo> {
    Seq::new(
        views.len(),
        |i: int|
            ImageInfo {
                sampler: NULL_HANDLE,
                image_view: views[i],
                image_layout: ImageLayout::ShaderReadOnlyOptimal,
            },
    )
}

/// The atlas's resources for one frame in flight.
#[derive(Debug, Clone, Copy, PartialEq, Eq)]
pub struct FrameResources {
    descriptor_set: u64,
    total_bound_textures: usize,
}

impl FrameResources {
    pub closed spec fn spec_descriptor_set(&self) -> u64 {
        self.descriptor_set
    }

    pub closed spec fn spec_total_bound_textures(&self) -> nat {
        self.total_bound_textures as nat
    }

    /// A frame whose descriptor set binds no texture yet.
    pub fn new(descriptor_set: u64) -> (r: Self)
        ensures
            r.spec_descriptor_set() == descriptor_set,
            r.spec_total_bound_textures() == 0,
    {
        FrameResources { descriptor_set, total_bound_textures: 0 }
    }

    /// The non-owning handle of the frame's descriptor set.
    pub fn descriptor_set(&self) -> (r: u64)
        ensures
            r == self.spec_descriptor_set(),
    {
        self.descriptor_set
    }

    /// The write that binds every texture of `textures` at binding 1; the
    /// frame then counts them all as bound.
    pub fn update_descriptor_set(&mut self, textures: &Vec<u64>) -> (r: DescriptorWrite)
        ensures
            is_image_write(
                r,
                old(self).spec_descriptor_set(),
                1,
                DescriptorType::SampledImage,
                texture_infos(textures@),
            ),
            final(self).spec_descriptor_set() == old(self).spec_descriptor_set(),
            final(self).spec_total_bound_textures() == textures@.len(),
    {
        let mut image_infos = Vec::new();
        let mut i: usize = 0;
        while i < textures.len()
            invariant
                i <= textures@.len(),
                image_infos@ == texture_infos(textures@.subrange(0, i as int)),
            decreases textures@.len() - i,
        {
            image_infos.push(
                ImageInfo {
                    sampler: NULL_HANDLE,
                    image_view: textures[i],
                    image_layout: ImageLayout::ShaderReadOnlyOptimal,
                },
            );
            i = i + 1;
            assert(image_infos@ =~= texture_infos(textures@.subrange(0, i as int)));
        }
        assert(textures@.subrange(0, textures@.len() as int) =~= textures@);
        self.total_bound_textures = textures.len();
        DescriptorWrite {
            dst_set: self.descriptor_set,
            dst_binding: 1,
            descriptor_type: DescriptorType::SampledImage,
            buffer_infos: Vec::new(),
            image_infos,
        }
    }

    /// Whether `textures` holds textures that the frame's set does not bind.
    pub fn needs_update(&self, textures: &Vec<u64>) -> (r: bool)
        ensures
            r == (self.spec_total_bound_textures() < textures@.len()),
    {
        self.total_bound_textures < textures.len()
    }
}

/// An atlas of up to a fixed number of textures, with a descriptor set for
/// each frame in flight.
#[derive(Debug)]
pub struct BindlessTextureAtlas {
    textures: Vec<u64>,
    frame_resources: Vec<FrameResources>,
    pipeline_layout: u64,
    descriptor_set_layout: u64,
    samplers: Vec<SamplerDescription>,
    layout_bindings: Vec<DescriptorSetLayoutBinding>,
    pool: DescriptorPoolInfo,
}

/// The atlas's three samplers, by index: linear with linear mipmaps and no
/// anisotropy; the same with anisotropy; nearest with nearest mipmaps.
pub open spec fn atlas_sampler_table() -> Seq<SamplerDescription> {
    seq![
        SamplerDescription {
            filter: Filter::Linear,
            mipmap_mode: Filter::Linear,
            address_mode: AddressMode::ClampToEdge,
            anisotropy: false,
            unclamped_lod: true,
        },
        SamplerDescription {
            filter: Filter::Linear,
            mipmap_mode: Filter::Linear,
            address_mode: AddressMode::ClampToEdge,
            anisotropy: true,
            unclamped_lod: true,
        },
        SamplerDescription {
            filter: Filter::Nearest,
            mipmap_mode: Filter::Nearest,
            address_mode: AddressMode::ClampToEdge,
            anisotropy: false,
            unclamped_lod: true,
        },
    ]
}

impl BindlessTextureAtlas {
    /// The image views of the textures, in the order they were added.
    pub closed spec fn spec_textures(&self) -> Seq<u64> {
        self.textures@
    }

    pub closed spec fn spec_frame_resources(&self) -> Seq<FrameResources> {
        self.frame_resources@
    }

    pub closed spec fn spec_pipeline_layout(&self) -> u64 {
        self.pipeline_layout
    }

    pub closed spec fn spec_descriptor_set_layout(&self) -> u64 {
        self.descriptor_set_layout
    }

    /// What the samplers were created with, by index.
    pub closed spec fn spec_samplers(&self) -> Seq<SamplerDescription> {
        self.samplers@
    }

    /// The bindings that the set layout was created with.
    pub closed spec fn spec_layout_bindings(&self) -> Seq<DescriptorSetLayoutBinding> {
        self.layout_bindings@
    }

    /// What the descriptor pool was created with.
    pub closed spec fn spec_pool(&self) -> DescriptorPoolInfo {
        self.pool
    }

    /// No frame's set binds more textures than the atlas holds.
    pub open spec fn wf(&self) -> bool {
        forall|i: int|
            0 <= i < self.spec_frame_resources().len() ==> (#[trigger] self.spec_frame_resources()[
                i
            ]).spec_total_bound_textures() <= self.spec_textures().len()
    }

    /// The image views that frame `i`'s set binds at binding 1, in order:
    /// the textures that were in the atlas when the set was last written.
    /// Textures are only ever appended, so these are the first ones.
    pub open spec fn spec_bound_views(&self, i: int) -> Seq<u64> {
        self.spec_textures().subrange(
            0,
            self.spec_frame_resources()[i].spec_total_bound_textures() as int,
        )
    }

    /// An empty atlas for up to `max_textures` textures, with one
    /// descriptor set for each frame in flight. Its samplers, set layout and
    /// pool were created as [descriptors::atlas_samplers],
    /// [descriptors::create_descriptor_layout] (with the samplers'
    /// handles `samplers`) and [descriptors::create_descriptor_pool]
    /// describe, which the atlas records; its pipeline layout holds the set
    /// layout alone.
    pub fn new(
        max_textures: u32,
        samplers: &Vec<u64>,
        descriptor_sets: &Vec<u64>,
        pipeline_layout: u64,
        descriptor_set_layout: u64,
    ) -> (r: Self)
        requires
            3 * descriptor_sets@.len() <= u32::MAX,
            descriptor_sets@.len() * max_textures <= u32::MAX,
        ensures
            r.wf(),
            r.spec_textures().len() == 0,
            r.spec_frame_resources().len() == descriptor_sets@.len(),
            forall|i: int|
                0 <= i < descriptor_sets@.len() ==> (#[trigger] r.spec_frame_resources()[i]).spec_descriptor_set()
                    == descriptor_sets@[i] && r.spec_frame_resources()[i].spec_total_bound_textures() == 0,
            r.spec_pipeline_layout() == pipeline_layout,
            r.spec_descriptor_set_layout() == descriptor_set_layout,
            r.spec_samplers() == atlas_sampler_table(),
            is_atlas_layout(r.spec_layout_bindings(), max_textures, samplers@),
            is_atlas_pool(r.spec_pool(), descriptor_sets@.len() as u32, max_textures),
    {
        let mut frame_resources: Vec<FrameResources> = Vec::new();
        let mut i: usize = 0;
        while i < descriptor_sets.len()
            invariant
                i <= descriptor_sets@.len(),
                frame_resources@.len() == i,
                forall|j: int|
                    0 <= j < i ==> (#[trigger] frame_resources@[j]).spec_descriptor_set()
                        == descriptor_sets@[j] && frame_resources@[j].spec_total_bound_textures() == 0,
            decreases descriptor_sets@.len() - i,
        {
            frame_resources.push(FrameResources::new(descriptor_sets[i]));
            i = i + 1;
        }
        let count = descriptor_sets.len() as u32;
        let pool = create_descriptor_pool(count, max_textures);
        BindlessTextureAtlas {
            textures: Vec::new(),
            frame_resources,
            pipeline_layout,
            descriptor_set_layout,
            samplers: atlas_samplers(),
            layout_bindings: create_descriptor_layout(max_textures, samplers),
            pool,
        }
    }

    /// Adds a texture to the atlas. The returned texture number can be used
    /// to index into the textures array in a shader; the texture is bound
    /// from the next frame on.
    pub fn add_texture(&mut self, texture: &Texture) -> (r: u32)
        requires
            old(self).wf(),
            old(self).spec_textures().len() < u32::MAX,
        ensures
            final(self).wf(),
            forall|i: int|
                0 <= i < old(self).spec_frame_resources().len() ==> #[trigger] final(self).spec_bound_views(i)
                    == old(self).spec_bound_views(i),
            final(self).spec_samplers() == old(self).spec_samplers(),
            final(self).spec_layout_bindings() == old(self).spec_layout_bindings(),
            final(self).spec_pool() == old(self).spec_pool(),
            final(self).spec_textures() == old(self).spec_textures().push(texture.spec_view()),
            r == old(self).spec_textures().len(),
            final(self).spec_frame_resources() == old(self).spec_frame_resources(),
            final(self).spec_pipeline_layout() == old(self).spec_pipeline_layout(),
            final(self).spec_descriptor_set_layout() == old(self).spec_descriptor_set_layout(),
    {
        self.textures.push(texture.view());
        proof {
            assert forall|i: int|
                0 <= i < old(self).spec_frame_resources().len() implies #[trigger] self.spec_bound_views(i)
                == old(self).spec_bound_views(i) by {
                assert(self.spec_bound_views(i) =~= old(self).spec_bound_views(i));
            }
        }
        (self.textures.len() as u32) - 1
    }

    /// What the samplers were created with, by index.
    pub fn samplers(&self) -> (r: &Vec<SamplerDescription>)
        ensures
            r@ == self.spec_samplers(),
    {
        &self.samplers
    }

    /// The bindings that the set layout was created with.
    pub fn layout_bindings(&self) -> (r: &Vec<DescriptorSetLayoutBinding>)
        ensures
            r@ == self.spec_layout_bindings(),
    {
        &self.layout_bindings
    }

    /// What the descriptor pool was created with.
    pub fn pool(&self) -> (r: &DescriptorPoolInfo)
        ensures
            *r == self.spec_pool(),
    {
        &self.pool
    }

    /// Borrows the descriptor set layout for the atlas. Useful when creating
    /// pipelines.
    pub fn descriptor_set_layout(&self) -> (r: u64)
        ensures
            r == self.spec_descriptor_set_layout(),
    {
        self.descriptor_set_layout
    }

    /// Binds the atlas for frame `frame_index`: when textures were added
    /// since the frame's set was last written, the write that binds them
    /// all, after which the frame counts them as bound; and the command
    /// that binds the set as set 0.
    pub fn bind_frame_descriptor(&mut self, frame_index: usize) -> (r: (
        Option<DescriptorWrite>,
        Command,
    ))
        requires
            old(self).wf(),
            frame_index < old(self).spec_frame_resources().len(),
        ensures
            final(self).wf(),
            final(self).spec_bound_views(frame_index as int) == final(self).spec_textures(),
            r.0 matches Some(w) ==> is_image_write(
                w,
                final(self).spec_frame_resources()[frame_index as int].spec_descriptor_set(),
                1,
                DescriptorType::SampledImage,
                texture_infos(final(self).spec_bound_views(frame_index as int)),
            ),
            final(self).spec_samplers() == old(self).spec_samplers(),
            final(self).spec_layout_bindings() == old(self).spec_layout_bindings(),
            final(self).spec_pool() == old(self).spec_pool(),
            ({
                let f = old(self).spec_frame_resources()[frame_index as int];
                let textures = old(self).spec_textures();
                &&& f.spec_total_bound_textures() < textures.len() ==> (r.0 matches Some(w)
                    && is_image_write(
                    w,
                    f.spec_descriptor_set(),
                    1,
                    DescriptorType::SampledImage,
                    texture_infos(textures),
                ))
                &&& f.spec_total_bound_textures() >= textures.len() ==> r.0 is None
                &&& is_bind_sets(
                    r.1,
                    PipelineBindPoint::Graphics,
                    old(self).spec_pipeline_layout(),
                    0,
                    seq![f.spec_descriptor_set()],
                )
                &&& final(self).spec_frame_resources().len() == old(self).spec_frame_resources().len()
                &&& final(self).spec_frame_resources()[frame_index as int].spec_descriptor_set()
                    == f.spec_descriptor_set()
                &&& final(self).spec_frame_resources()[frame_index as int].spec_total_bound_textures()
                    == if f.spec_total_bound_textures() < textures.len() {
                    textures.len()
                } else {
                    f.spec_total_bound_textures()
                }
                &&& forall|i: int|
                    0 <= i < old(self).spec_frame_resources().len() && i != frame_index
                        ==> #[trigger] final(self).spec_frame_resources()[i]
                        == old(self).spec_frame_resources()[i]
                &&& final(self).spec_textures() == textures
                &&& final(self).spec_pipeline_layout() == old(self).spec_pipeline_layout()
                &&& final(self).spec_descriptor_set_layout() == old(self).spec_descriptor_set_layout()
            }),
    {
        let mut frame_resources = self.frame_resources[frame_index];
        let update = if frame_resources.needs_update(&self.textures) {
            let write = frame_resources.update_descriptor_set(&self.textures);
            self.frame_resources.set(frame_index, frame_resources);
            Some(write)
        } else {
            None
        };
        let mut sets = Vec::new();
        sets.push(frame_resources.descriptor_set());
        (update, bind_sets(PipelineBindPoint::Graphics, self.pipeline_layout, 0, sets))
    }
}

/// A texture added to the atlas is bound by every frame's next binding:
/// a frame whose set bound no more textures than the atlas held before the
/// addition now lacks one, and the write that binds them all places the new
/// texture at the number that [BindlessTextureAtlas::add_texture] returned.
pub proof fn lemma_added_texture_is_bound(views: Seq<u64>, view: u64, bound: nat)
    requires
        bound <= views.len(),
    ensures
        bound < views.push(view).len(),
        texture_infos(views.push(view)).len() == views.len() + 1,
        texture_infos(views.push(view))[views.len() as int].image_view == view,
        forall|i: int|
            0 <= i < views.len() ==> #[trigger] texture_infos(views.push(view))[i] == texture_infos(
                views,
            )[i],
{
}

/// Once a frame is bound, its set binds every texture that the atlas holds:
/// binding it again before another texture is added writes nothing.
pub proof fn lemma_rebinding_writes_nothing(before: FrameResources, after: FrameResources, textures: Seq<u64>)
    requires
        after.spec_total_bound_textures() == if before.spec_total_bound_textures() < textures.len() {
            textures.len()
        } else {
            before.spec_total_bound_textures()
        },
    ensures
        !(after.spec_total_bound_textures() < textures.len()),
{
}

/// After a frame is bound, its set holds every texture added so far: the
/// texture numbered `index` by [BindlessTextureAtlas::add_texture] sits at
/// element `index` of binding 1, ready for sampling.
pub proof fn lemma_bound_set_holds_every_texture(atlas: BindlessTextureAtlas, frame: int, index: int)
    requires
        atlas.wf(),
        0 <= frame < atlas.spec_frame_resources().len(),
        atlas.spec_bound_views(frame) == atlas.spec_textures(),
        0 <= index < atlas.spec_textures().len(),
    ensures
        texture_infos(atlas.spec_bound_views(frame)).len() == atlas.spec_textures().len(),
        texture_infos(atlas.spec_bound_views(frame))[index] == (ImageInfo {
            sampler: NULL_HANDLE,
            image_view: atlas.spec_textures()[index],
            image_layout: ImageLayout::ShaderReadOnlyOptimal,
        }),
{
}

} // verus!
