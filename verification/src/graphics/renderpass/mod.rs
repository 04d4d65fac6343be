//! A render pass and framebuffers for presenting to swapchain images.
use crate::graphics::vulkan::{Access, Command, Extent2D, ImageLayout, PipelineStage};
use vstd::prelude::*;

verus! {

/// What happens to an attachment's contents when a render pass begins.
#[derive(Debug, Clone, Copy, PartialEq, Eq)]
pub enum LoadOp {
    Clear,
    DontCare,
}

/// What happens to an attachment's contents when a render pass ends.
#[derive(Debug, Clone, Copy, PartialEq, Eq)]
pub enum StoreOp {
    Store,
    DontCare,
}

/// One attachment of a render pass, sampled once per pixel.
#[derive(Debug, Clone, Copy, PartialEq, Eq)]
pub struct AttachmentDescription {
    /// The raw Vulkan format of the attachment.
    pub format: i32,
    pub load_op: LoadOp,
    pub store_op: StoreOp,
    pub stencil_load_op: LoadOp,
    pub stencil_store_op: StoreOp,
    pub initial_layout: ImageLayout,
    pub final_layout: ImageLayout,
}

/// A subpass, or the work outside the render pass.
#[derive(Debug, Clone, Copy, PartialEq, Eq)]
pub enum Subpass {
    External,
    Index(u32),
}

/// An execution and memory dependency between two subpasses.
#[derive(Debug, Clone, Copy, PartialEq, Eq)]
pub struct SubpassDependency {
    pub src_subpass: Subpass,
    pub dst_subpass: Subpass,
    pub src_stage: PipelineStage,
    pub src_access: Access,
    pub dst_stage: PipelineStage,
    pub dst_access: Access,
}

/// A render pass with a single graphics subpass that writes its color
/// attachments, with no input, resolve, depth or preserved attachments.
#[derive(Debug, PartialEq, Eq)]
pub struct RenderPassDescription {
    pub attachments: Vec<AttachmentDescription>,
    /// The attachments that the subpass writes as color, with their layouts.
    pub color_attachments: Vec<(u32, ImageLayout)>,
    pub dependencies: Vec<SubpassDependency>,
}

/// A framebuffer of one layer whose only attachment is `attachment`.
#[derive(Debug, Clone, Copy, PartialEq, Eq)]
pub struct FramebufferInfo {
    pub render_pass: u64,
    pub attachment: u64,
    pub width: u32,
    pub height: u32,
    pub layers: u32,
}

/// The swapchain's color attachment: cleared on load, stored, and handed to
/// presentation afterwards.
pub open spec fn swapchain_attachment(format: i32) -> AttachmentDescription {
    AttachmentDescription {
        format,
        load_op: LoadOp::Clear,
        store_op: StoreOp::Store,
        stencil_load_op: LoadOp::DontCare,
        stencil_store_op: StoreOp::DontCare,
        initial_layout: ImageLayout::Undefined,
        final_layout: ImageLayout::PresentSrc,
    }
}

/// The subpass waits for the presentation engine to release the image
/// before writing color, and its color writes finish before the image leaves
/// the render pass.
pub open spec fn swapchain_dependencies() -> Seq<SubpassDependency> {
    seq![
        SubpassDependency {
            src_subpass: Subpass::External,
            dst_subpass: Subpass::Index(0),
            src_stage: PipelineStage::ColorAttachmentOutput,
            src_access: Access::NoAccess,
            dst_stage: PipelineStage::ColorAttachmentOutput,
            dst_access: Access::ColorAttachmentWrite,
        },
        SubpassDependency {
            src_subpass: Subpass::Index(0),
            dst_subpass: Subpass::External,
            src_stage: PipelineStage::ColorAttachmentOutput,
            src_access: Access::ColorAttachmentWrite,
            dst_stage: PipelineStage::ColorAttachmentOutput,
            dst_access: Access::NoAccess,
        },
    ]
}

/// The render pass that draws into a swapchain image of format `format`.
pub fn create_renderpass(format: i32) -> (r: RenderPassDescription)
    ensures
        r.attachments@ == seq![swapchain_attachment(format)],
        r.color_attachments@ == seq![(0u32, ImageLayout::ColorAttachmentOptimal)],
        r.dependencies@ == swapchain_dependencies(),
{
    let mut attachments = Vec::new();
    attachments.push(
        AttachmentDescription {
            format,
            load_op: LoadOp::Clear,
            store_op: StoreOp::Store,
            stencil_load_op: LoadOp::DontCare,
            stencil_store_op: StoreOp::DontCare,
            initial_layout: ImageLayout::Undefined,
            final_layout: ImageLayout::PresentSrc,
        },
    );
    let mut color_attachments = Vec::new();
    color_attachments.push((0u32, ImageLayout::ColorAttachmentOptimal));
    let mut dependencies = Vec::new();
    dependencies.push(
        SubpassDependency {
            src_subpass: Subpass::External,
            dst_subpass: Subpass::Index(0),
            src_stage: PipelineStage::ColorAttachmentOutput,
            src_access: Access::NoAccess,
            dst_stage: PipelineStage::ColorAttachmentOutput,
            dst_access: Access::ColorAttachmentWrite,
        },
    );
    dependencies.push(
        SubpassDependency {
            src_subpass: Subpass::Index(0),
            dst_subpass: Subpass::External,
            src_stage: PipelineStage::ColorAttachmentOutput,
            src_access: Access::ColorAttachmentWrite,
            dst_stage: PipelineStage::ColorAttachmentOutput,
            dst_access: Access::NoAccess,
        },
    );
    RenderPassDescription { attachments, color_attachments, dependencies }
}

/// One framebuffer per swapchain image view, each as large as the swapchain.
/// Framebuffers must be replaced when the swapchain is rebuilt.
pub fn create_framebuffers(render_pass: u64, image_views: &Vec<u64>, extent: Extent2D) -> (r: Vec<
    FramebufferInfo,
>)
    ensures
        r@.len() == image_views@.len(),
        forall|i: int|
            0 <= i < image_views@.len() ==> #[trigger] r@[i] == (FramebufferInfo {
                render_pass,
                attachment: image_views@[i],
                width: extent.width,
                height: extent.height,
                layers: 1,
            }),
{
    let mut r: Vec<FramebufferInfo> = Vec::new();
    let mut i: usize = 0;
    while i < image_views.len()
        invariant
            i <= image_views@.len(),
            r@.len() == i,
            forall|j: int|
                0 <= j < i ==> #[trigger] r@[j] == (FramebufferInfo {
                    render_pass,
                    attachment: image_views@[j],
                    width: extent.width,
                    height: extent.height,
                    layers: 1,
                }),
        decreases image_views@.len() - i,
    {
        r.push(
            FramebufferInfo {
                render_pass,
                attachment: image_views[i],
                width: extent.width,
                height: extent.height,
                layers: 1,
            },
        );
        i = i + 1;
    }
    r
}

/// A render pass and one framebuffer per swapchain image. Swapchain images
/// are attached to color attachment 0 and there is no depth buffer.
#[derive(Debug)]
pub struct SwapchainColorPass {
    extent: Extent2D,
    renderpass: u64,
    framebuffers: Vec<u64>,
}

impl SwapchainColorPass {
    pub closed spec fn spec_extent(&self) -> Extent2D {
        self.extent
    }

    pub closed spec fn spec_renderpass(&self) -> u64 {
        self.renderpass
    }

    pub closed spec fn spec_framebuffers(&self) -> Seq<u64> {
        self.framebuffers@
    }

    /// Gathers the render pass and the framebuffers made for a swapchain of
    /// size `extent`.
    pub fn new(extent: Extent2D, renderpass: u64, framebuffers: Vec<u64>) -> (r: Self)
        ensures
            r.spec_extent() == extent,
            r.spec_renderpass() == renderpass,
            r.spec_framebuffers() == framebuffers@,
    {
        SwapchainColorPass { extent, renderpass, framebuffers }
    }

    /// Borrow the underlying Vulkan renderpass.
    pub fn renderpass(&self) -> (r: u64)
        ensures
            r == self.spec_renderpass(),
    {
        self.renderpass
    }

    /// Begin the render pass targeting the framebuffer of swapchain image
    /// `swapchain_image_index`, over the whole swapchain extent.
    pub fn begin_render_pass(&self, swapchain_image_index: u32) -> (r: Command)
        requires
            swapchain_image_index < self.spec_framebuffers().len(),
        ensures
            r == (Command::BeginRenderPass {
                render_pass: self.spec_renderpass(),
                framebuffer: self.spec_framebuffers()[swapchain_image_index as int],
                width: self.spec_extent().width,
                height: self.spec_extent().height,
            }),
    {
        Command::BeginRenderPass {
            render_pass: self.renderpass,
            framebuffer: self.framebuffers[swapchain_image_index as usize],
            width: self.extent.width,
            height: self.extent.height,
        }
    }

    /// Ends the render pass for the current frame.
    pub fn end_render_pass(&self) -> (r: Command)
        ensures
            r == Command::EndRenderPass,
    {
        Command::EndRenderPass
    }
}

} // verus!
