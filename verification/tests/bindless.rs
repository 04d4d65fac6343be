use shader_toy_slang::graphics::texture::bindless::descriptors::{
    allocate_descriptor_sets, atlas_samplers, create_descriptor_layout, create_descriptor_pool,
};
use shader_toy_slang::graphics::texture::bindless::{BindlessTextureAtlas, FrameResources};
use shader_toy_slang::graphics::texture::Texture;
use shader_toy_slang::graphics::vulkan::{
    Command, DescriptorPoolSize, DescriptorType, DescriptorWrite, ImageInfo, ImageLayout,
    AddressMode, Filter, PipelineBindPoint, SamplerDescription, ShaderStages,
};

fn bind(set: u64) -> Command {
    Command::BindDescriptorSets {
        bind_point: PipelineBindPoint::Graphics,
        layout: 5,
        first_set: 0,
        descriptor_sets: vec![set],
    }
}

fn image(view: u64) -> ImageInfo {
    ImageInfo { sampler: 0, image_view: view, image_layout: ImageLayout::ShaderReadOnlyOptimal }
}

#[test]
fn empty_atlas_binds_without_update() {
    let mut atlas = BindlessTextureAtlas::new(100, &vec![7, 8, 9], &vec![30, 31], 5, 6);
    assert_eq!(atlas.descriptor_set_layout(), 6);
    assert_eq!(atlas.bind_frame_descriptor(1), (None, bind(31)));
}

#[test]
fn added_textures_get_consecutive_numbers_and_are_bound_next_frame() {
    let mut atlas = BindlessTextureAtlas::new(100, &vec![7, 8, 9], &vec![30, 31], 5, 6);
    assert_eq!(atlas.add_texture(&Texture::new("a".to_string(), (1, 1), 1, 101, 201)), 0);
    assert_eq!(atlas.add_texture(&Texture::new("b".to_string(), (1, 1), 2, 102, 202)), 1);
    let (update, command) = atlas.bind_frame_descriptor(0);
    assert_eq!(
        update,
        Some(DescriptorWrite {
            dst_set: 30,
            dst_binding: 1,
            descriptor_type: DescriptorType::SampledImage,
            buffer_infos: vec![],
            image_infos: vec![image(101), image(102)],
        })
    );
    assert_eq!(command, bind(30));
    // The set now binds both textures: binding again writes nothing.
    assert_eq!(atlas.bind_frame_descriptor(0), (None, bind(30)));
    // The other frame's set still needs them.
    assert!(atlas.bind_frame_descriptor(1).0.is_some());
    assert_eq!(atlas.bind_frame_descriptor(1), (None, bind(31)));
    // A further texture makes the next binding write all three.
    atlas.add_texture(&Texture::new("c".to_string(), (1, 1), 3, 103, 203));
    let (update, _) = atlas.bind_frame_descriptor(0);
    assert_eq!(update.unwrap().image_infos, vec![image(101), image(102), image(103)]);
    assert_eq!(atlas.bind_frame_descriptor(0).0, None);
}

#[test]
fn frame_resources_need_update_only_for_unbound_textures() {
    let mut frame = FrameResources::new(30);
    assert!(!frame.needs_update(&vec![]));
    assert!(frame.needs_update(&vec![101]));
    assert_eq!(frame.descriptor_set(), 30);
    frame.update_descriptor_set(&vec![101]);
    assert!(!frame.needs_update(&vec![101]));
    assert!(frame.needs_update(&vec![101, 102]));
}

#[test]
fn atlas_descriptors() {
    let pool = create_descriptor_pool(2, 100);
    assert_eq!(pool.max_sets, 2);
    assert_eq!(
        pool.pool_sizes,
        vec![
            DescriptorPoolSize { ty: DescriptorType::Sampler, descriptor_count: 6 },
            DescriptorPoolSize { ty: DescriptorType::SampledImage, descriptor_count: 200 },
        ]
    );
    // Every one of four sets holds all the textures.
    let pool = create_descriptor_pool(4, 100);
    assert_eq!(pool.pool_sizes[0].descriptor_count, 12);
    assert_eq!(pool.pool_sizes[1].descriptor_count, 400);
    let layout = create_descriptor_layout(100, &vec![7, 8, 9]);
    assert_eq!(layout[0].descriptor_count, 3);
    assert_eq!(layout[0].immutable_samplers, vec![7, 8, 9]);
    assert_eq!(layout[0].stage_flags, ShaderStages::All);
    assert_eq!(layout[1].binding, 1);
    assert_eq!(layout[1].descriptor_type, DescriptorType::SampledImage);
    assert_eq!(layout[1].descriptor_count, 100);
    assert_eq!(allocate_descriptor_sets(1, 2, 2).set_layouts, vec![2, 2]);
}

#[test]
fn atlas_samplers_by_index() {
    let linear = SamplerDescription {
        filter: Filter::Linear,
        mipmap_mode: Filter::Linear,
        address_mode: AddressMode::ClampToEdge,
        anisotropy: false,
        unclamped_lod: true,
    };
    let anisotropic = SamplerDescription { anisotropy: true, ..linear };
    let nearest = SamplerDescription { filter: Filter::Nearest, mipmap_mode: Filter::Nearest, ..linear };
    assert_eq!(atlas_samplers(), vec![linear, anisotropic, nearest]);
}

#[test]
fn atlas_records_what_its_layout_pool_and_samplers_were_made_from() {
    let atlas = BindlessTextureAtlas::new(100, &vec![7, 8, 9], &vec![30, 31, 32, 33], 5, 6);
    assert_eq!(atlas.samplers(), &atlas_samplers());
    assert_eq!(atlas.layout_bindings(), &create_descriptor_layout(100, &vec![7, 8, 9]));
    assert_eq!(atlas.pool(), &create_descriptor_pool(4, 100));
    assert_eq!(atlas.pool().pool_sizes[1].descriptor_count, 400);
}
