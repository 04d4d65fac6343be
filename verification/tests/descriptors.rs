use shader_toy_slang::graphics::fullscreen_quad::descriptors::{
    allocate_descriptor_sets, create_descriptor_pool, create_descriptor_set_layout,
    initialize_descriptor_sets,
};
use shader_toy_slang::graphics::fullscreen_quad::static_textures::descriptors as static_descriptors;
use shader_toy_slang::graphics::fullscreen_quad::uniform_buffer::UniformBuffer;
use shader_toy_slang::graphics::texture::Texture;
use shader_toy_slang::graphics::vulkan::{
    BufferInfo, DescriptorPoolSize, DescriptorSetLayoutBinding, DescriptorType, DescriptorWrite,
    ImageInfo, ImageLayout, ShaderStages,
};

fn buffer_write(set: u64, binding: u32, ty: DescriptorType, info: BufferInfo) -> DescriptorWrite {
    DescriptorWrite {
        dst_set: set,
        dst_binding: binding,
        descriptor_type: ty,
        buffer_infos: vec![info],
        image_infos: vec![],
    }
}

fn image_write(set: u64, binding: u32, ty: DescriptorType, info: ImageInfo) -> DescriptorWrite {
    DescriptorWrite {
        dst_set: set,
        dst_binding: binding,
        descriptor_type: ty,
        buffer_infos: vec![],
        image_infos: vec![info],
    }
}

fn binding(b: u32, ty: DescriptorType, stages: ShaderStages) -> DescriptorSetLayoutBinding {
    DescriptorSetLayoutBinding {
        binding: b,
        descriptor_type: ty,
        descriptor_count: 1,
        stage_flags: stages,
        immutable_samplers: vec![],
    }
}

#[test]
fn untextured_quad_sets_point_at_their_own_slots() {
    let buffer = UniformBuffer::<[u8; 24]>::allocate(64, 2);
    let writes = initialize_descriptor_sets(&vec![100, 101], &buffer, 9, &None, 5);
    assert_eq!(
        writes,
        vec![
            buffer_write(100, 0, DescriptorType::UniformBuffer, BufferInfo { buffer: 9, offset: 0, range: 24 }),
            buffer_write(101, 0, DescriptorType::UniformBuffer, BufferInfo { buffer: 9, offset: 64, range: 24 }),
        ]
    );
}

#[test]
fn textured_quad_sets_add_sampler_and_image() {
    let buffer = UniformBuffer::<[u8; 24]>::allocate(64, 1);
    let texture = Some(Texture::new("t".to_string(), (4, 4), 1, 2, 3));
    let writes = initialize_descriptor_sets(&vec![100], &buffer, 9, &texture, 5);
    assert_eq!(
        writes,
        vec![
            buffer_write(100, 0, DescriptorType::UniformBuffer, BufferInfo { buffer: 9, offset: 0, range: 24 }),
            image_write(
                100,
                1,
                DescriptorType::Sampler,
                ImageInfo { sampler: 5, image_view: 0, image_layout: ImageLayout::Undefined }
            ),
            image_write(
                100,
                2,
                DescriptorType::SampledImage,
                ImageInfo { sampler: 5, image_view: 2, image_layout: ImageLayout::ShaderReadOnlyOptimal }
            ),
        ]
    );
}

#[test]
fn quad_pool_and_layout_follow_the_texture() {
    let texture = Some(Texture::new("t".to_string(), (4, 4), 1, 2, 3));
    let pool = create_descriptor_pool(3, &texture);
    assert_eq!(pool.max_sets, 3);
    assert_eq!(
        pool.pool_sizes,
        vec![
            DescriptorPoolSize { ty: DescriptorType::UniformBuffer, descriptor_count: 3 },
            DescriptorPoolSize { ty: DescriptorType::Sampler, descriptor_count: 3 },
            DescriptorPoolSize { ty: DescriptorType::SampledImage, descriptor_count: 3 },
        ]
    );
    let pool = create_descriptor_pool(2, &None);
    assert_eq!(pool.pool_sizes, vec![DescriptorPoolSize { ty: DescriptorType::UniformBuffer, descriptor_count: 2 }]);
    assert_eq!(
        create_descriptor_set_layout(&texture),
        vec![
            binding(0, DescriptorType::UniformBuffer, ShaderStages::VertexAndFragment),
            binding(1, DescriptorType::Sampler, ShaderStages::Fragment),
            binding(2, DescriptorType::SampledImage, ShaderStages::Fragment),
        ]
    );
    assert_eq!(
        create_descriptor_set_layout(&None),
        vec![binding(0, DescriptorType::UniformBuffer, ShaderStages::VertexAndFragment)]
    );
}

#[test]
fn quad_allocation_asks_for_one_set_per_frame() {
    let info = allocate_descriptor_sets(4, 8, 3);
    assert_eq!(info.descriptor_pool, 4);
    assert_eq!(info.set_layouts, vec![8, 8, 8]);
}

#[test]
fn static_textures_bind_each_texture_after_the_sampler() {
    let textures = vec![
        Texture::new("a".to_string(), (1, 1), 1, 21, 31),
        Texture::new("b".to_string(), (1, 1), 2, 22, 32),
    ];
    let writes = static_descriptors::initialize_descriptor_sets(50, 7, &textures);
    assert_eq!(
        writes,
        vec![
            image_write(50, 0, DescriptorType::Sampler, ImageInfo { sampler: 7, image_view: 0, image_layout: ImageLayout::Undefined }),
            image_write(
                50,
                1,
                DescriptorType::SampledImage,
                ImageInfo { sampler: 0, image_view: 21, image_layout: ImageLayout::ShaderReadOnlyOptimal }
            ),
            image_write(
                50,
                2,
                DescriptorType::SampledImage,
                ImageInfo { sampler: 0, image_view: 22, image_layout: ImageLayout::ShaderReadOnlyOptimal }
            ),
        ]
    );
    assert_eq!(
        static_descriptors::create_descriptor_set_layout(&textures),
        vec![
            binding(0, DescriptorType::Sampler, ShaderStages::Fragment),
            binding(1, DescriptorType::SampledImage, ShaderStages::Fragment),
            binding(2, DescriptorType::SampledImage, ShaderStages::Fragment),
        ]
    );
    let pool = static_descriptors::create_descriptor_pool(&textures);
    assert_eq!(pool.max_sets, 1);
    assert_eq!(
        pool.pool_sizes,
        vec![
            DescriptorPoolSize { ty: DescriptorType::Sampler, descriptor_count: 1 },
            DescriptorPoolSize { ty: DescriptorType::SampledImage, descriptor_count: 2 },
        ]
    );
    let info = static_descriptors::allocate_descriptor_sets(3, 4);
    assert_eq!(info.set_layouts, vec![4]);
}

#[test]
fn static_textures_without_textures_hold_only_the_sampler() {
    let textures: Vec<Texture> = vec![];
    let pool = static_descriptors::create_descriptor_pool(&textures);
    assert_eq!(pool.pool_sizes, vec![DescriptorPoolSize { ty: DescriptorType::Sampler, descriptor_count: 1 }]);
    assert_eq!(static_descriptors::initialize_descriptor_sets(50, 7, &textures).len(), 1);
    assert_eq!(static_descriptors::create_descriptor_set_layout(&textures).len(), 1);
}
