//! A particle system: a compute kernel that moves particles and a graphics
//! pipeline that draws them.
pub mod compute;
pub mod view;

use crate::graphics::fullscreen_quad::uniform_buffer::IndexOutOfRange;
use crate::graphics::particles::compute::{is_dispatch, slot, ParticlesCompute};
use crate::graphics::particles::view::{is_particle_draw, ParticlesView};
use crate::graphics::vulkan::{Access, Command, PipelineStage};
use vstd::prelude::*;

verus! {

/// Which compute kernel a tick runs.
#[derive(Debug, Clone, Copy, PartialEq, Eq)]
pub enum Kernel {
    /// The kernel that places the particles afresh.
    Init,
    /// The kernel that moves the particles one step.
    Compute,
}

/// What a tick records: the kernel it runs, the byte offset in that kernel's
/// frame data buffer at which the frame's data is written, and the commands.
#[derive(Debug, PartialEq, Eq)]
pub struct TickPlan {
    pub kernel: Kernel,
    pub offset: u64,
    pub commands: Vec<Command>,
}

/// What a tick that fails has recorded, the barrier before the kernel, and
/// why it failed: the kernel's frame data buffer lacks the slot.
#[derive(Debug, PartialEq, Eq)]
pub struct TickFailure {
    pub commands: Vec<Command>,
    pub error: IndexOutOfRange,
}

/// The barrier that makes the drawing's reads of the particle buffer finish
/// before the kernel writes it.
pub open spec fn barrier_before_compute(buffer: u64, size: u64) -> Command {
    Command::BufferBarrier {
        src_stage: PipelineStage::VertexShader,
        dst_stage: PipelineStage::ComputeShader,
        src_access: Access::ShaderRead,
        dst_access: Access::ShaderWrite,
        buffer,
        size,
    }
}

/// The barrier that makes the kernel's writes visible to the drawing.
pub open spec fn barrier_after_compute(buffer: u64, size: u64) -> Command {
    Command::BufferBarrier {
        src_stage: PipelineStage::ComputeShader,
        dst_stage: PipelineStage::VertexShader,
        src_access: Access::ShaderWrite,
        dst_access: Access::ShaderRead,
        buffer,
        size,
    }
}

/// `failure` is what a tick records when kernel `k` lacks the slot it is
/// at: the barrier before the kernel, and nothing after it.
pub open spec fn failed_tick<DataT>(failure: TickFailure, k: ParticlesCompute<DataT>, buffer: u64, size: u64) -> bool {
    &&& failure.commands@ == seq![barrier_before_compute(buffer, size)]
    &&& failure.error == (IndexOutOfRange {
        index: slot(k.spec_current_frame()) as usize,
        count: k.spec_frame_data().spec_count() as usize,
    })
}

/// `plan` runs `kernel`, whose resources were `k` before the tick, between
/// the two barriers on the particle buffer.
pub open spec fn is_tick<DataT>(
    plan: TickPlan,
    kernel: Kernel,
    k: ParticlesCompute<DataT>,
    buffer: u64,
    size: u64,
) -> bool {
    let s = slot(k.spec_current_frame());
    &&& plan.kernel == kernel
    &&& plan.offset == s * k.spec_frame_data().spec_unit()
    &&& plan.commands@.len() == 5
    &&& plan.commands@[0] == barrier_before_compute(buffer, size)
    &&& is_dispatch(
        plan.commands@.subrange(1, 4),
        k.spec_pipeline(),
        k.spec_pipeline_layout(),
        k.spec_descriptor_sets()[s],
    )
    &&& plan.commands@[4] == barrier_after_compute(buffer, size)
}

/// The kernel that a tick runs.
pub open spec fn tick_kernel(init_requested: bool) -> Kernel {
    if init_requested {
        Kernel::Init
    } else {
        Kernel::Compute
    }
}

/// Whether the init kernel is still asked for after a tick that succeeded
/// (`planned`) or failed.
pub open spec fn requested_after_tick(init_requested: bool, planned: bool) -> bool {
    init_requested && !planned
}

/// Once asked for, the init kernel runs on the next tick that succeeds and
/// not again until it is asked for anew: every later tick runs the compute
/// kernel, and a failed tick leaves the request in place.
pub proof fn lemma_init_runs_once()
    ensures
        tick_kernel(true) == Kernel::Init,
        !requested_after_tick(true, true),
        requested_after_tick(true, false),
        forall|planned: bool| !requested_after_tick(false, planned),
        tick_kernel(false) == Kernel::Compute,
{
}

/// The compute kernels' resources can run: their frame data layouts are
/// well formed and each has a descriptor set for both slots.
pub open spec fn kernel_ready<DataT>(k: ParticlesCompute<DataT>) -> bool {
    &&& k.spec_frame_data().wf()
    &&& k.spec_descriptor_sets().len() >= 2
}

/// Particles moved by a compute kernel and drawn as instanced quads.
///
/// The first tick, and the first tick after the kernels are replaced, runs
/// the init kernel; every other tick runs the compute kernel.
#[derive(Debug)]
pub struct Particles<FrameDataT, ProjectionT> {
    particles_buffer: u64,
    particles_size_in_bytes: u64,
    view: ParticlesView<ProjectionT>,
    init: ParticlesCompute<FrameDataT>,
    compute: ParticlesCompute<FrameDataT>,
    init_requested: bool,
}

impl<FrameDataT, ProjectionT> Particles<FrameDataT, ProjectionT> {
    pub closed spec fn spec_particles_buffer(&self) -> u64 {
        self.particles_buffer
    }

    pub closed spec fn spec_particles_size(&self) -> u64 {
        self.particles_size_in_bytes
    }

    pub closed spec fn spec_view(&self) -> ParticlesView<ProjectionT> {
        self.view
    }

    pub closed spec fn spec_init(&self) -> ParticlesCompute<FrameDataT> {
        self.init
    }

    pub closed spec fn spec_compute(&self) -> ParticlesCompute<FrameDataT> {
        self.compute
    }

    pub closed spec fn spec_init_requested(&self) -> bool {
        self.init_requested
    }

    /// Gathers the particle system's resources; the first tick runs the init
    /// kernel.
    pub fn new(
        particles_buffer: u64,
        particles_size_in_bytes: u64,
        view: ParticlesView<ProjectionT>,
        init: ParticlesCompute<FrameDataT>,
        compute: ParticlesCompute<FrameDataT>,
    ) -> (r: Self)
        ensures
            r.spec_particles_buffer() == particles_buffer,
            r.spec_particles_size() == particles_size_in_bytes,
            r.spec_view() == view,
            r.spec_init() == init,
            r.spec_compute() == compute,
            r.spec_init_requested(),
    {
        Particles {
            particles_buffer,
            particles_size_in_bytes,
            view,
            init,
            compute,
            init_requested: true,
        }
    }

    /// Replaces both kernels' pipelines and asks for the particles to be
    /// placed afresh on the next tick.
    pub fn compute_updated(&mut self, init_pipeline: u64, compute_pipeline: u64)
        ensures
            final(self).spec_init_requested(),
            final(self).spec_init().spec_pipeline() == init_pipeline,
            final(self).spec_compute().spec_pipeline() == compute_pipeline,
            final(self).spec_init().spec_descriptor_sets() == old(self).spec_init().spec_descriptor_sets(),
            final(self).spec_init().spec_pipeline_layout() == old(self).spec_init().spec_pipeline_layout(),
            final(self).spec_init().spec_frame_data() == old(self).spec_init().spec_frame_data(),
            final(self).spec_init().spec_current_frame() == old(self).spec_init().spec_current_frame(),
            final(self).spec_compute().spec_descriptor_sets() == old(self).spec_compute().spec_descriptor_sets(),
            final(self).spec_compute().spec_pipeline_layout() == old(self).spec_compute().spec_pipeline_layout(),
            final(self).spec_compute().spec_frame_data() == old(self).spec_compute().spec_frame_data(),
            final(self).spec_compute().spec_current_frame() == old(self).spec_compute().spec_current_frame(),
            final(self).spec_view() == old(self).spec_view(),
            final(self).spec_particles_buffer() == old(self).spec_particles_buffer(),
            final(self).spec_particles_size() == old(self).spec_particles_size(),
    {
        self.init_requested = true;
        self.init.rebuild_kernel(init_pipeline);
        self.compute.rebuild_kernel(compute_pipeline);
    }

    /// Plans one simulation step: the init kernel when it was asked for,
    /// otherwise the compute kernel, between barriers on the particle buffer.
    /// The request for the init kernel is cleared once its dispatch is
    /// planned. Fails when the kernel's frame data buffer lacks the slot,
    /// having recorded the first barrier only.
    pub fn tick(&mut self) -> (r: Result<TickPlan, TickFailure>)
        requires
            kernel_ready(old(self).spec_init()),
            kernel_ready(old(self).spec_compute()),
        ensures
            final(self).spec_view() == old(self).spec_view(),
            final(self).spec_particles_buffer() == old(self).spec_particles_buffer(),
            final(self).spec_particles_size() == old(self).spec_particles_size(),
            final(self).spec_init_requested() == requested_after_tick(
                old(self).spec_init_requested(),
                r is Ok,
            ),
            r matches Ok(plan) ==> plan.kernel == tick_kernel(old(self).spec_init_requested()),
            old(self).spec_init_requested() ==> {
                let k = old(self).spec_init();
                &&& final(self).spec_init() == k.spec_advanced()
                &&& final(self).spec_compute() == old(self).spec_compute()
                &&& (slot(k.spec_current_frame()) < k.spec_frame_data().spec_count() <==> r is Ok)
                &&& final(self).spec_init_requested() == r is Err
                &&& r matches Err(f) ==> failed_tick(
                    f,
                    k,
                    old(self).spec_particles_buffer(),
                    old(self).spec_particles_size(),
                )
                &&& r matches Ok(plan) ==> is_tick(
                    plan,
                    Kernel::Init,
                    k,
                    old(self).spec_particles_buffer(),
                    old(self).spec_particles_size(),
                )
            },
            !old(self).spec_init_requested() ==> {
                let k = old(self).spec_compute();
                &&& final(self).spec_compute() == k.spec_advanced()
                &&& final(self).spec_init() == old(self).spec_init()
                &&& (slot(k.spec_current_frame()) < k.spec_frame_data().spec_count() <==> r is Ok)
                &&& !final(self).spec_init_requested()
                &&& r matches Err(f) ==> failed_tick(
                    f,
                    k,
                    old(self).spec_particles_buffer(),
                    old(self).spec_particles_size(),
                )
                &&& r matches Ok(plan) ==> is_tick(
                    plan,
                    Kernel::Compute,
                    k,
                    old(self).spec_particles_buffer(),
                    old(self).spec_particles_size(),
                )
            },
    {
        let (kernel, update) = if self.init_requested {
            let u = self.init.update();
            if u.is_ok() {
                self.init_requested = false;
            }
            (Kernel::Init, u)
        } else {
            (Kernel::Compute, self.compute.update())
        };
        let mut commands = Vec::new();
        commands.push(
            Command::BufferBarrier {
                src_stage: PipelineStage::VertexShader,
                dst_stage: PipelineStage::ComputeShader,
                src_access: Access::ShaderRead,
                dst_access: Access::ShaderWrite,
                buffer: self.particles_buffer,
                size: self.particles_size_in_bytes,
            },
        );
        let (offset, kernel_commands) = match update {
            Ok(u) => u,
            Err(error) => {
                return Err(TickFailure { commands, error });
            },
        };
        let ghost dispatch = kernel_commands@;
        let mut kernel_commands = kernel_commands;
        commands.append(&mut kernel_commands);
        commands.push(
            Command::BufferBarrier {
                src_stage: PipelineStage::ComputeShader,
                dst_stage: PipelineStage::VertexShader,
                src_access: Access::ShaderWrite,
                dst_access: Access::ShaderRead,
                buffer: self.particles_buffer,
                size: self.particles_size_in_bytes,
            },
        );
        proof {
            assert(commands@.subrange(1, 4) =~= dispatch);
        }
        Ok(TickPlan { kernel, offset, commands })
    }

    /// Plans the drawing of frame `frame_index`; see [ParticlesView::draw].
    pub fn draw(&self, frame_index: usize) -> (r: Result<(u64, Vec<Command>), IndexOutOfRange>)
        requires
            self.spec_view().spec_projection().wf(),
            frame_index < self.spec_view().spec_projection().spec_count() ==> frame_index
                < self.spec_view().spec_descriptor_sets().len(),
        ensures
            frame_index < self.spec_view().spec_projection().spec_count() <==> r is Ok,
            r matches Err(e) ==> e == (IndexOutOfRange {
                index: frame_index,
                count: self.spec_view().spec_projection().spec_count() as usize,
            }),
            r matches Ok((offset, commands)) ==> {
                &&& offset == frame_index * self.spec_view().spec_projection().spec_unit()
                &&& is_particle_draw(
                    commands@,
                    self.spec_view().spec_pipeline(),
                    self.spec_view().spec_pipeline_layout(),
                    self.spec_view().spec_descriptor_sets()[frame_index as int],
                )
            },
    {
        self.view.draw(frame_index)
    }

    /// Replaces the drawing pipeline with one built for the rebuilt swapchain.
    pub fn swapchain_rebuilt(&mut self, pipeline: u64)
        ensures
            final(self).spec_view().spec_pipeline() == pipeline,
            final(self).spec_view().spec_projection() == old(self).spec_view().spec_projection(),
            final(self).spec_view().spec_descriptor_sets() == old(self).spec_view().spec_descriptor_sets(),
            final(self).spec_view().spec_pipeline_layout() == old(self).spec_view().spec_pipeline_layout(),
            final(self).spec_init() == old(self).spec_init(),
            final(self).spec_compute() == old(self).spec_compute(),
            final(self).spec_init_requested() == old(self).spec_init_requested(),
            final(self).spec_particles_buffer() == old(self).spec_particles_buffer(),
            final(self).spec_particles_size() == old(self).spec_particles_size(),
    {
        self.view.swapchain_rebuilt(pipeline);
    }
}

} // verus!
