use shader_toy_slang::fullscreen_effect::effect_pipeline;
use shader_toy_slang::graphics::fullscreen_quad::fullscreen_quad_pipeline;
use shader_toy_slang::graphics::particles::compute::kernel_pipeline;
use shader_toy_slang::graphics::particles::view::particles_pipeline;
use shader_toy_slang::graphics::sprites::sprite_pipeline;
use shader_toy_slang::graphics::vulkan::{
        ComputePipelineDescription, Extent2D, GraphicsPipelineDescription, ViewportState,
    };
use shader_toy_slang::graphics::fullscreen_quad::static_textures::descriptors::static_textures_sampler;
use shader_toy_slang::graphics::vulkan::{AddressMode, Filter, SamplerDescription};
use shader_toy_slang::fullscreen_effect::descriptors::{
    allocate_descriptor_sets, create_descriptor_pool, create_descriptor_set_laout,
    update_descriptor_sets,
};
use shader_toy_slang::fullscreen_effect::FullscreenEffect;
use shader_toy_slang::graphics::fullscreen_quad::frame_data::FrameData;
use shader_toy_slang::graphics::fullscreen_quad::static_textures::StaticTextures;
use shader_toy_slang::graphics::fullscreen_quad::uniform_buffer::{IndexOutOfRange, UniformBuffer};
use shader_toy_slang::graphics::fullscreen_quad::FullscreenQuad;
use shader_toy_slang::graphics::vulkan::{
    BufferInfo, Command, DescriptorPoolSize, DescriptorType, PipelineBindPoint, ShaderStages,
};

fn quad() -> FullscreenQuad<[u8; 24]> {
    let frame_data = FrameData::new(7, vec![70, 71], UniformBuffer::allocate(64, 2));
    FullscreenQuad::new(1, 2, frame_data, StaticTextures::new(80, 8, 0, vec![]).0)
}

#[test]
fn quad_draw_binds_frame_and_texture_sets() {
    let q = quad();
    assert_eq!(q.descriptor_set_layouts(), vec![7, 8]);
    assert_eq!(
        q.draw(1),
        Ok((
            64,
            vec![
                Command::BindPipeline { bind_point: PipelineBindPoint::Graphics, pipeline: 1 },
                Command::BindDescriptorSets {
                    bind_point: PipelineBindPoint::Graphics,
                    layout: 2,
                    first_set: 0,
                    descriptor_sets: vec![71, 80],
                },
                Command::Draw { vertex_count: 6, instance_count: 1 },
            ]
        ))
    );
    assert_eq!(q.draw(2), Err(IndexOutOfRange { index: 2, count: 2 }));
}

#[test]
fn quad_rebuild_pipeline_replaces_handles() {
    let mut q = quad();
    q.rebuild_pipeline(11, 12);
    let (_, commands) = q.draw(0).unwrap();
    assert_eq!(commands[0], Command::BindPipeline { bind_point: PipelineBindPoint::Graphics, pipeline: 11 });
}

#[test]
fn frame_data_gives_slot_offsets_and_sets() {
    let frame_data = FrameData::<[u8; 24]>::new(7, vec![70, 71], UniformBuffer::allocate(64, 2));
    assert_eq!(frame_data.descriptor_set_layout(), 7);
    assert_eq!(frame_data.update(1), Ok(64));
    assert_eq!(frame_data.update(5), Err(IndexOutOfRange { index: 5, count: 2 }));
    assert_eq!(frame_data.current_descriptor_set(0), 70);
    let (textures, writes) = StaticTextures::new(80, 8, 9, vec![]);
    assert_eq!(textures.pool().max_sets, 1);
    assert_eq!(textures.pool().pool_sizes, vec![DescriptorPoolSize { ty: DescriptorType::Sampler, descriptor_count: 1 }]);
    assert_eq!(textures.layout_bindings().len(), 1);
    assert_eq!(writes.len(), 1);
    assert_eq!(writes[0].dst_set, 80);
    assert_eq!(writes[0].descriptor_type, DescriptorType::Sampler);
    assert_eq!(textures.descriptor_set(), 80);
    assert_eq!(textures.descriptor_set_layout(), 8);
}

#[test]
fn effect_draw_binds_its_set_after_the_atlas() {
    let effect = FullscreenEffect::<[u8; 24]>::new(5, UniformBuffer::allocate(64, 2), vec![90, 91], 9, 12, 13, 3, 4).0;
    assert_eq!(
        effect.draw(0),
        Ok((
            0,
            vec![
                Command::BindPipeline { bind_point: PipelineBindPoint::Graphics, pipeline: 4 },
                Command::BindDescriptorSets {
                    bind_point: PipelineBindPoint::Graphics,
                    layout: 3,
                    first_set: 1,
                    descriptor_sets: vec![90],
                },
                Command::Draw { vertex_count: 6, instance_count: 1 },
            ]
        ))
    );
}

#[test]
fn effect_rebuild_keeps_shader_unless_given_one() {
    let mut effect = FullscreenEffect::<[u8; 24]>::new(5, UniformBuffer::allocate(64, 2), vec![90, 91], 9, 12, 13, 3, 4).0;
    assert_eq!(effect.rebuild_pipeline(None), 5);
    assert_eq!(effect.rebuild_pipeline(Some(6)), 6);
    assert_eq!(effect.rebuild_pipeline(None), 6);
    assert_eq!(effect.pipeline(), 4);
    effect.replace_pipeline(44);
    assert_eq!(effect.pipeline(), 44);
    assert_eq!(
        effect.draw(1).unwrap().1[0],
        Command::BindPipeline { bind_point: PipelineBindPoint::Graphics, pipeline: 44 }
    );
}

#[test]
fn effect_descriptors() {
    let buffer = UniformBuffer::<[u8; 24]>::allocate(64, 2);
    let writes = update_descriptor_sets(&vec![90, 91], &buffer, 9);
    let (effect, effect_writes) = FullscreenEffect::new(5, buffer, vec![90, 91], 9, 12, 13, 3, 4);
    assert_eq!(effect_writes, writes);
    assert_eq!(effect.pool(), &create_descriptor_pool(2));
    assert_eq!(effect.layout_bindings(), &create_descriptor_set_laout());
    assert_eq!(FullscreenEffect::<[u8; 24]>::pipeline_set_layouts(11, 12), vec![11, 12]);
    assert_eq!(writes.len(), 2);
    assert_eq!(writes[1].dst_set, 91);
    assert_eq!(writes[1].buffer_infos, vec![BufferInfo { buffer: 9, offset: 64, range: 24 }]);
    let pool = create_descriptor_pool(2);
    assert_eq!(pool.max_sets, 2);
    assert_eq!(pool.pool_sizes, vec![DescriptorPoolSize { ty: DescriptorType::UniformBuffer, descriptor_count: 2 }]);
    let layout = create_descriptor_set_laout();
    assert_eq!(layout[0].stage_flags, ShaderStages::Fragment);
    assert_eq!(allocate_descriptor_sets(1, 2, 3).set_layouts, vec![2, 2, 2]);
}

#[test]
fn pipelines_are_blended_and_cover_the_swapchain_or_follow_dynamic_state() {
    let extent = Extent2D { width: 640, height: 480 };
    let fixed = GraphicsPipelineDescription {
        layout: 1,
        render_pass: 2,
        subpass: 0,
        vertex_shader: 3,
        fragment_shader: 4,
        viewport: ViewportState::Fixed(extent),
        alpha_blend: true,
    };
    assert_eq!(fullscreen_quad_pipeline(1, 2, 3, 4, extent), fixed);
    assert_eq!(particles_pipeline(1, 2, 3, 4, extent), fixed);
    assert_eq!(sprite_pipeline(1, 2, 3, 4, extent), fixed);
    assert_eq!(
        effect_pipeline(1, 2, 3, 4),
        GraphicsPipelineDescription { viewport: ViewportState::Dynamic, ..fixed }
    );
    assert_eq!(kernel_pipeline(5, 6), ComputePipelineDescription { layout: 5, shader: 6 });
}

#[test]
fn static_textures_sample_linearly_and_repeat() {
    assert_eq!(
        static_textures_sampler(),
        SamplerDescription {
            filter: Filter::Linear,
            mipmap_mode: Filter::Nearest,
            address_mode: AddressMode::Repeat,
            anisotropy: false,
            unclamped_lod: false,
        }
    );
}
