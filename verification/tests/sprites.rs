use shader_toy_slang::graphics::fullscreen_quad::uniform_buffer::{IndexOutOfRange, UniformBuffer};
use shader_toy_slang::graphics::sprites::descriptors::{
    create_batch_descriptor_set_layout, create_descriptor_allocator, create_layer_descriptor_set_layout,
};
use shader_toy_slang::graphics::sprites::frame_resources::FrameResources;
use shader_toy_slang::graphics::sprites::{SpriteBatch, SpriteLayer};
use shader_toy_slang::graphics::vulkan::{
    BufferInfo, Command, DescriptorPoolSize, DescriptorType, DescriptorWrite, PipelineBindPoint,
    ShaderStages,
};

fn layer() -> SpriteLayer<[u8; 64]> {
    let buffer = UniformBuffer::<[u8; 64]>::allocate(256, 2);
    SpriteLayer::new(1, 2, &vec![40, 41], 9, 3, 4, buffer).0
}

#[test]
fn new_layer_points_each_frame_at_its_layer_data_slot() {
    let buffer = UniformBuffer::<[u8; 64]>::allocate(256, 2);
    let (_, w0) = FrameResources::new(40, &buffer, 9, 0);
    let (_, w1) = FrameResources::new(41, &buffer, 9, 1);
    let (l, writes) = SpriteLayer::new(1, 2, &vec![40, 41], 9, 3, 4, buffer);
    assert_eq!(writes, vec![w0, w1]);
    assert_eq!(writes[1].buffer_infos, vec![BufferInfo { buffer: 9, offset: 256, range: 64 }]);
    assert_eq!(l.draw_batch(0, SpriteBatch { buffer: 70, count: 5 }), None);
}

#[test]
fn sprite_batches_convert_from_either_tuple_order() {
    assert_eq!(SpriteBatch::from((7u64, 3u32)), SpriteBatch { buffer: 7, count: 3 });
    assert_eq!(SpriteBatch::from((3u32, 7u64)), SpriteBatch { buffer: 7, count: 3 });
}

#[test]
fn frame_resources_point_the_layer_set_at_its_slot() {
    let buffer = UniformBuffer::<[u8; 64]>::allocate(256, 2);
    let (frame, write) = FrameResources::new(41, &buffer, 9, 1);
    assert_eq!(frame.get_layer_descriptor(), 41);
    assert_eq!(
        write,
        DescriptorWrite {
            dst_set: 41,
            dst_binding: 0,
            descriptor_type: DescriptorType::UniformBuffer,
            buffer_infos: vec![BufferInfo { buffer: 9, offset: 256, range: 64 }],
            image_infos: vec![],
        }
    );
}

#[test]
fn batch_descriptors_are_cached_per_buffer() {
    let buffer = UniformBuffer::<[u8; 64]>::allocate(256, 1);
    let (mut frame, _) = FrameResources::new(41, &buffer, 9, 0);
    let batch = SpriteBatch { buffer: 70, count: 3 };
    assert_eq!(frame.get_batch_descriptor(&batch), None);
    let write = frame.insert_batch_descriptor(&batch, 80, 64);
    assert_eq!(
        write,
        DescriptorWrite {
            dst_set: 80,
            dst_binding: 0,
            descriptor_type: DescriptorType::StorageBuffer,
            buffer_infos: vec![BufferInfo { buffer: 70, offset: 0, range: 192 }],
            image_infos: vec![],
        }
    );
    assert_eq!(frame.get_batch_descriptor(&batch), Some(80));
    assert_eq!(frame.get_batch_descriptor(&SpriteBatch { buffer: 70, count: 9 }), Some(80));
    assert_eq!(frame.get_batch_descriptor(&SpriteBatch { buffer: 71, count: 3 }), None);
}

#[test]
fn layer_begins_with_pipeline_and_layer_set() {
    let l = layer();
    let expected = vec![
        Command::BindPipeline { bind_point: PipelineBindPoint::Graphics, pipeline: 4 },
        Command::BindDescriptorSets {
            bind_point: PipelineBindPoint::Graphics,
            layout: 3,
            first_set: 0,
            descriptor_sets: vec![41],
        },
    ];
    assert_eq!(l.begin(1), Ok((256, expected)));
    assert_eq!(l.begin(2), Err(IndexOutOfRange { index: 2, count: 2 }));
}

#[test]
fn layer_draws_a_batch_once_its_descriptor_is_recorded() {
    let mut l = layer();
    let batch = SpriteBatch { buffer: 70, count: 5 };
    assert_eq!(l.draw_batch(0, batch), None);
    let write = l.insert_batch_descriptor(0, batch, 90, 64);
    assert_eq!(write.buffer_infos, vec![BufferInfo { buffer: 70, offset: 0, range: 320 }]);
    assert_eq!(
        l.draw_batch(0, batch),
        Some(vec![
            Command::BindDescriptorSets {
                bind_point: PipelineBindPoint::Graphics,
                layout: 3,
                first_set: 1,
                descriptor_sets: vec![90],
            },
            Command::Draw { vertex_count: 6, instance_count: 5 },
        ])
    );
    assert_eq!(l.draw_batch(1, batch), None);
}

#[test]
fn reset_forgets_cached_batch_descriptors() {
    let mut l = layer();
    let batch = SpriteBatch { buffer: 70, count: 5 };
    l.insert_batch_descriptor(0, batch, 90, 64);
    let writes = l.reset(&vec![50, 51], 9);
    assert_eq!(writes.len(), 2);
    assert_eq!(writes[0].dst_set, 50);
    assert_eq!(writes[1].buffer_infos, vec![BufferInfo { buffer: 9, offset: 256, range: 64 }]);
    assert_eq!(l.draw_batch(0, batch), None);
    assert_eq!(
        l.begin(1).unwrap().1[1],
        Command::BindDescriptorSets {
            bind_point: PipelineBindPoint::Graphics,
            layout: 3,
            first_set: 0,
            descriptor_sets: vec![51],
        }
    );
    l.rebuild_swapchain_resources(8);
    assert_eq!(
        l.begin(0).unwrap().1[0],
        Command::BindPipeline { bind_point: PipelineBindPoint::Graphics, pipeline: 8 }
    );
}

#[test]
fn sprite_descriptor_layouts() {
    let layer_layout = create_layer_descriptor_set_layout();
    assert_eq!(layer_layout.len(), 1);
    assert_eq!(layer_layout[0].descriptor_type, DescriptorType::UniformBuffer);
    assert_eq!(layer_layout[0].stage_flags, ShaderStages::Vertex);
    let batch_layout = create_batch_descriptor_set_layout();
    assert_eq!(batch_layout[0].descriptor_type, DescriptorType::StorageBuffer);
    let allocator = create_descriptor_allocator();
    assert_eq!(allocator.sets_per_pool, 20);
    assert_eq!(
        allocator.descriptors_per_set,
        vec![
            DescriptorPoolSize { ty: DescriptorType::UniformBuffer, descriptor_count: 1 },
            DescriptorPoolSize { ty: DescriptorType::StorageBuffer, descriptor_count: 1 },
        ]
    );
}

#[test]
fn layer_reports_its_layer_data_layout() {
    let l = layer();
    assert_eq!(l.layer_data_buffer().buffer_size_in_bytes(), 512);
    assert_eq!(l.layer_data_buffer().offset_for_index(1), 256);
}
