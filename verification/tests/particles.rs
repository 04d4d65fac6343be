use shader_toy_slang::graphics::fullscreen_quad::uniform_buffer::{IndexOutOfRange, UniformBuffer};
use shader_toy_slang::graphics::particles::compute::descriptors as compute_descriptors;
use shader_toy_slang::graphics::particles::compute::ParticlesCompute;
use shader_toy_slang::graphics::particles::view::descriptors as view_descriptors;
use shader_toy_slang::graphics::particles::view::ParticlesView;
use shader_toy_slang::graphics::particles::{Kernel, Particles, TickFailure, TickPlan};
use shader_toy_slang::graphics::vulkan::{
    Access, BufferInfo, Command, DescriptorPoolSize, DescriptorType, DescriptorWrite,
    PipelineBindPoint, PipelineStage,
};

fn dispatch(pipeline: u64, layout: u64, set: u64) -> Vec<Command> {
    vec![
        Command::BindPipeline { bind_point: PipelineBindPoint::Compute, pipeline },
        Command::BindDescriptorSets {
            bind_point: PipelineBindPoint::Compute,
            layout,
            first_set: 0,
            descriptor_sets: vec![set],
        },
        Command::Dispatch { group_count_x: 10, group_count_y: 1, group_count_z: 1 },
    ]
}

fn kernel(pipeline: u64, sets: Vec<u64>) -> ParticlesCompute<[u8; 16]> {
    ParticlesCompute::new(sets, pipeline, pipeline + 1, UniformBuffer::allocate(64, 2))
}

fn tick_commands(pipeline: u64, layout: u64, set: u64) -> Vec<Command> {
    let mut commands = vec![Command::BufferBarrier {
        src_stage: PipelineStage::VertexShader,
        dst_stage: PipelineStage::ComputeShader,
        src_access: Access::ShaderRead,
        dst_access: Access::ShaderWrite,
        buffer: 500,
        size: 7680,
    }];
    commands.extend(dispatch(pipeline, layout, set));
    commands.push(Command::BufferBarrier {
        src_stage: PipelineStage::ComputeShader,
        dst_stage: PipelineStage::VertexShader,
        src_access: Access::ShaderWrite,
        dst_access: Access::ShaderRead,
        buffer: 500,
        size: 7680,
    });
    commands
}

fn particles() -> Particles<[u8; 16], [u8; 64]> {
    let (view, _) = ParticlesView::new(UniformBuffer::allocate(256, 2), vec![60, 61], 3, 500, 7680, 62, 63);
    Particles::new(500, 7680, view, kernel(10, vec![11, 12]), kernel(20, vec![21, 22]))
}

#[test]
fn compute_updates_alternate_between_slots() {
    let mut compute = kernel(10, vec![11, 12]);
    assert_eq!(compute.update(), Ok((0, dispatch(10, 11, 11))));
    assert_eq!(compute.update(), Ok((64, dispatch(10, 11, 12))));
    assert_eq!(compute.update(), Ok((0, dispatch(10, 11, 11))));
}

#[test]
fn compute_update_fails_without_second_slot() {
    let mut compute = ParticlesCompute::<[u8; 16]>::new(vec![1, 2], 3, 4, UniformBuffer::allocate(64, 1));
    assert!(compute.update().is_ok());
    assert_eq!(compute.update(), Err(IndexOutOfRange { index: 1, count: 1 }));
    assert!(compute.update().is_ok());
}

#[test]
fn rebuilt_kernel_is_used_by_the_next_dispatch() {
    let mut compute = kernel(10, vec![11, 12]);
    compute.rebuild_kernel(99);
    assert_eq!(compute.update(), Ok((0, dispatch(99, 11, 11))));
}

#[test]
fn first_tick_runs_init_then_compute() {
    let mut p = particles();
    assert_eq!(
        p.tick(),
        Ok(TickPlan { kernel: Kernel::Init, offset: 0, commands: tick_commands(10, 11, 11) })
    );
    assert_eq!(
        p.tick(),
        Ok(TickPlan { kernel: Kernel::Compute, offset: 0, commands: tick_commands(20, 21, 21) })
    );
    assert_eq!(
        p.tick(),
        Ok(TickPlan { kernel: Kernel::Compute, offset: 64, commands: tick_commands(20, 21, 22) })
    );
}

#[test]
fn compute_updated_runs_init_once_more() {
    let mut p = particles();
    assert_eq!(p.tick().unwrap().kernel, Kernel::Init);
    assert_eq!(p.tick().unwrap().kernel, Kernel::Compute);
    p.compute_updated(30, 40);
    assert_eq!(
        p.tick(),
        Ok(TickPlan { kernel: Kernel::Init, offset: 64, commands: tick_commands(30, 11, 12) })
    );
    assert_eq!(
        p.tick(),
        Ok(TickPlan { kernel: Kernel::Compute, offset: 64, commands: tick_commands(40, 21, 22) })
    );
}

#[test]
fn failed_init_tick_keeps_the_request() {
    let init = ParticlesCompute::<[u8; 16]>::new(vec![11, 12], 10, 11, UniformBuffer::allocate(64, 0));
    let (view, _) =
        ParticlesView::<[u8; 64]>::new(UniformBuffer::allocate(256, 2), vec![60, 61], 3, 500, 7680, 62, 63);
    let mut p = Particles::new(500, 7680, view, init, kernel(20, vec![21, 22]));
    let first_barrier = || {
        let mut commands = tick_commands(0, 0, 0);
        commands.truncate(1);
        commands
    };
    assert_eq!(
        p.tick(),
        Err(TickFailure { commands: first_barrier(), error: IndexOutOfRange { index: 0, count: 0 } })
    );
    assert_eq!(
        p.tick(),
        Err(TickFailure { commands: first_barrier(), error: IndexOutOfRange { index: 1, count: 0 } })
    );
}

#[test]
fn view_draws_every_particle_for_the_frame() {
    let p = particles();
    let expected = vec![
        Command::BindPipeline { bind_point: PipelineBindPoint::Graphics, pipeline: 63 },
        Command::BindDescriptorSets {
            bind_point: PipelineBindPoint::Graphics,
            layout: 62,
            first_set: 0,
            descriptor_sets: vec![61],
        },
        Command::Draw { vertex_count: 6, instance_count: 320 },
    ];
    assert_eq!(p.draw(1), Ok((256, expected)));
    assert_eq!(p.draw(2), Err(IndexOutOfRange { index: 2, count: 2 }));
}

#[test]
fn swapchain_rebuilt_replaces_the_view_pipeline() {
    let mut p = particles();
    p.swapchain_rebuilt(77);
    match p.draw(0) {
        Ok((0, commands)) => assert_eq!(
            commands[0],
            Command::BindPipeline { bind_point: PipelineBindPoint::Graphics, pipeline: 77 }
        ),
        other => panic!("unexpected {:?}", other),
    }
}

#[test]
fn view_descriptors_bind_projection_and_particles() {
    let buffer = UniformBuffer::<[u8; 64]>::allocate(256, 2);
    let writes = view_descriptors::update_descriptor_sets(&vec![1, 2], &buffer, 3, 4, 7680);
    let (_, view_writes) =
        ParticlesView::new(UniformBuffer::<[u8; 64]>::allocate(256, 2), vec![1, 2], 3, 4, 7680, 5, 6);
    assert_eq!(view_writes, writes);
    let w = |set: u64, binding: u32, ty: DescriptorType, info: BufferInfo| DescriptorWrite {
        dst_set: set,
        dst_binding: binding,
        descriptor_type: ty,
        buffer_infos: vec![info],
        image_infos: vec![],
    };
    assert_eq!(
        writes,
        vec![
            w(1, 0, DescriptorType::UniformBuffer, BufferInfo { buffer: 3, offset: 0, range: 64 }),
            w(1, 1, DescriptorType::StorageBuffer, BufferInfo { buffer: 4, offset: 0, range: 7680 }),
            w(2, 0, DescriptorType::UniformBuffer, BufferInfo { buffer: 3, offset: 256, range: 64 }),
            w(2, 1, DescriptorType::StorageBuffer, BufferInfo { buffer: 4, offset: 0, range: 7680 }),
        ]
    );
    let pool = view_descriptors::create_descriptor_pool(3);
    assert_eq!(pool.max_sets, 3);
    assert_eq!(
        pool.pool_sizes,
        vec![
            DescriptorPoolSize { ty: DescriptorType::UniformBuffer, descriptor_count: 3 },
            DescriptorPoolSize { ty: DescriptorType::StorageBuffer, descriptor_count: 3 },
        ]
    );
    assert_eq!(view_descriptors::create_descriptor_set_layout().len(), 2);
    assert_eq!(view_descriptors::allocate_descriptor_sets(1, 2, 2).set_layouts, vec![2, 2]);
}

#[test]
fn compute_descriptors_bind_the_particle_buffer() {
    let write = compute_descriptors::update_descriptor_set(5, 6, 7680);
    assert_eq!(write.dst_set, 5);
    assert_eq!(write.dst_binding, 0);
    assert_eq!(write.descriptor_type, DescriptorType::StorageBuffer);
    assert_eq!(write.buffer_infos, vec![BufferInfo { buffer: 6, offset: 0, range: 7680 }]);
    let pool = compute_descriptors::create_descriptor_pool();
    assert_eq!(pool.max_sets, 1);
    assert_eq!(pool.pool_sizes, vec![DescriptorPoolSize { ty: DescriptorType::StorageBuffer, descriptor_count: 1 }]);
    assert_eq!(compute_descriptors::allocate_descriptor_set(1, 2).set_layouts, vec![2]);
    assert_eq!(compute_descriptors::create_descriptor_set_layout().len(), 1);
}

#[test]
fn updates_alternate_slots_over_many_calls() {
    let mut compute = kernel(10, vec![11, 12]);
    for k in 0..9u64 {
        let (offset, commands) = compute.update().unwrap();
        assert_eq!(offset, (k % 2) * 64);
        assert_eq!(commands, dispatch(10, 11, 11 + k % 2));
    }
}
