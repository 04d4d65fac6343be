use shader_toy_slang::graphics::renderpass::{
    create_framebuffers, create_renderpass, AttachmentDescription, FramebufferInfo, LoadOp,
    StoreOp, Subpass, SubpassDependency, SwapchainColorPass,
};
use shader_toy_slang::graphics::vulkan::{Access, Command, Extent2D, ImageLayout, PipelineStage};

#[test]
fn renderpass_clears_and_presents_the_swapchain_image() {
    let description = create_renderpass(50);
    assert_eq!(
        description.attachments,
        vec![AttachmentDescription {
            format: 50,
            load_op: LoadOp::Clear,
            store_op: StoreOp::Store,
            stencil_load_op: LoadOp::DontCare,
            stencil_store_op: StoreOp::DontCare,
            initial_layout: ImageLayout::Undefined,
            final_layout: ImageLayout::PresentSrc,
        }]
    );
    assert_eq!(description.color_attachments, vec![(0, ImageLayout::ColorAttachmentOptimal)]);
    assert_eq!(
        description.dependencies,
        vec![
            SubpassDependency {
                src_subpass: Subpass::External,
                dst_subpass: Subpass::Index(0),
                src_stage: PipelineStage::ColorAttachmentOutput,
                src_access: Access::NoAccess,
                dst_stage: PipelineStage::ColorAttachmentOutput,
                dst_access: Access::ColorAttachmentWrite,
            },
            SubpassDependency {
                src_subpass: Subpass::Index(0),
                dst_subpass: Subpass::External,
                src_stage: PipelineStage::ColorAttachmentOutput,
                src_access: Access::ColorAttachmentWrite,
                dst_stage: PipelineStage::ColorAttachmentOutput,
                dst_access: Access::NoAccess,
            },
        ]
    );
}

#[test]
fn one_framebuffer_per_image_view() {
    let framebuffers = create_framebuffers(3, &vec![10, 11], Extent2D { width: 640, height: 480 });
    assert_eq!(
        framebuffers,
        vec![
            FramebufferInfo { render_pass: 3, attachment: 10, width: 640, height: 480, layers: 1 },
            FramebufferInfo { render_pass: 3, attachment: 11, width: 640, height: 480, layers: 1 },
        ]
    );
}

#[test]
fn render_pass_targets_the_image_framebuffer() {
    let pass = SwapchainColorPass::new(Extent2D { width: 800, height: 600 }, 3, vec![20, 21, 22]);
    assert_eq!(pass.renderpass(), 3);
    assert_eq!(
        pass.begin_render_pass(2),
        Command::BeginRenderPass { render_pass: 3, framebuffer: 22, width: 800, height: 600 }
    );
    assert_eq!(pass.end_render_pass(), Command::EndRenderPass);
}
