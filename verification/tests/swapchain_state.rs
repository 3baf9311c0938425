use illuminate::framebuffer::{FramebufferCache, FramebufferLookup};
use illuminate::support::SwapChainSupportDetail;
use illuminate::swapchain::{
    CommandBuffer, CommandBufferState, DepthTextureInfo, Rect2D, RenderCommand, Swapchain,
    SwapchainParts, Viewport,
};
use illuminate::types::{
    Extent2D, QueueFamilyIndices, SurfaceCapabilities, SurfaceFormat, COLOR_SPACE_SRGB_NONLINEAR,
    FORMAT_B8G8R8A8_SRGB, FORMAT_D32_SFLOAT, IMAGE_TILING_OPTIMAL, IMAGE_TYPE_2D,
    IMAGE_USAGE_DEPTH_STENCIL_ATTACHMENT, MEMORY_PROPERTY_DEVICE_LOCAL, PRESENT_MODE_FIFO,
    SAMPLE_COUNT_1, SHARING_MODE_EXCLUSIVE,
};

fn parts(current: Extent2D) -> SwapchainParts {
    SwapchainParts {
        raw: 0xabc,
        family_index: QueueFamilyIndices { graphics_family: Some(0), present_family: Some(1) },
        textures: vec![1, 2, 3],
        texture_views: vec![11, 12, 13],
        support: SwapChainSupportDetail::new(
            SurfaceCapabilities {
                min_image_count: 2,
                max_image_count: 0,
                current_extent: current,
                min_image_extent: Extent2D { width: 1, height: 1 },
                max_image_extent: Extent2D { width: 4096, height: 4096 },
                max_image_array_layers: 1,
                supported_transforms: 1,
                current_transform: 1,
                supported_composite_alpha: 1,
                supported_usage_flags: 0x1f,
            },
            vec![
                SurfaceFormat { format: 44, color_space: COLOR_SPACE_SRGB_NONLINEAR },
                SurfaceFormat { format: FORMAT_B8G8R8A8_SRGB, color_space: COLOR_SPACE_SRGB_NONLINEAR },
            ],
            vec![PRESENT_MODE_FIFO],
        ),
        dimensions: [1280, 720],
        depth_format: FORMAT_D32_SFLOAT,
        render_pass: 40,
        pipeline: 50,
        framebuffers: vec![21, 22, 23],
        command_buffers: vec![31, 32, 33],
        graphics_queue: 60,
        present_queue: 61,
        depth_texture: 70,
        depth_texture_view: 71,
    }
}

#[test]
fn new_swapchain_starts_with_initial_command_buffers() {
    let s = Swapchain::new(parts(Extent2D { width: 800, height: 600 }));
    assert_eq!(s.raw(), 0xabc);
    assert_eq!(s.extent(), Extent2D { width: 800, height: 600 });
    assert_eq!(s.surface_format().format, FORMAT_B8G8R8A8_SRGB);
    assert_eq!(s.render_pass(), 40);
    assert_eq!(s.pipeline(), 50);
    assert_eq!(s.present_queue(), 61);
    assert_eq!(s.framebuffers(), &vec![21, 22, 23]);
    assert_eq!(s.render(1).command_buffer, 32);
    assert!(s.command_buffers().iter().all(|c| c.state == CommandBufferState::Initial));
}

#[test]
fn render_records_one_triangle_into_the_image_framebuffer() {
    let s = Swapchain::new(parts(Extent2D { width: 800, height: 600 }));
    let frame = s.render(2);
    assert_eq!(frame.command_buffer, 33);
    let full = Rect2D { x: 0, y: 0, width: 800, height: 600 };
    assert_eq!(
        frame.commands,
        vec![
            RenderCommand::ResetCommandBuffer,
            RenderCommand::BeginCommandBuffer,
            RenderCommand::BeginRenderPass { render_pass: 40, framebuffer: 23, render_area: full },
            RenderCommand::BindGraphicsPipeline { pipeline: 50 },
            RenderCommand::SetViewport { viewport: Viewport { x: 0, y: 600, width: 800, height: -600 } },
            RenderCommand::SetScissor { scissor: full },
            RenderCommand::Draw { vertex_count: 3, instance_count: 1, first_vertex: 0, first_instance: 0 },
            RenderCommand::EndRenderPass,
            RenderCommand::EndCommandBuffer,
        ]
    );
}

#[test]
fn submitting_marks_only_that_command_buffer() {
    let mut s = Swapchain::new(parts(Extent2D { width: 800, height: 600 }));
    s.update_submitted_command_buffer(1);
    let frame0 = s.render(0);
    let frame1 = s.render(1);
    assert_eq!(frame0.command_buffer, 31);
    assert_eq!(frame1.command_buffer, 32);
    assert_eq!(
        s.command_buffers(),
        &vec![
            CommandBuffer { raw: 31, state: CommandBufferState::Initial },
            CommandBuffer { raw: 32, state: CommandBufferState::Submitted },
            CommandBuffer { raw: 33, state: CommandBufferState::Initial },
        ]
    );
    assert_eq!(s.framebuffers(), &vec![21, 22, 23]);
    assert_eq!(s.raw(), 0xabc);
}

#[test]
fn framebuffer_descriptors_attach_one_view_each() {
    let views = vec![11, 12, 13];
    let extent = Extent2D { width: 800, height: 600 };
    let descriptors = Swapchain::framebuffer_descriptors(40, &views, extent);
    assert_eq!(descriptors.len(), 3);
    let mut cache = FramebufferCache::new();
    for (d, fb) in descriptors.into_iter().zip([21u64, 22, 23]) {
        assert_eq!(cache.insert(d, fb), None);
    }
    for (view, fb) in views.iter().zip([21u64, 22, 23]) {
        let d = illuminate::framebuffer::FramebufferDescriptor::new(40, vec![*view], extent);
        match Swapchain::create_framebuffer(&cache, d) {
            FramebufferLookup::Cached(found) => assert_eq!(found, fb),
            FramebufferLookup::Create(_) => panic!("each view has its framebuffer"),
        }
    }
}

#[test]
fn depth_texture_matches_the_swapchain_extent() {
    let info = Swapchain::depth_texture_info(FORMAT_D32_SFLOAT, Extent2D { width: 1024, height: 768 });
    assert_eq!(
        info,
        DepthTextureInfo {
            image_type: IMAGE_TYPE_2D,
            format: FORMAT_D32_SFLOAT,
            extent: Extent2D { width: 1024, height: 768 },
            mip_levels: 4,
            array_layers: 1,
            samples: SAMPLE_COUNT_1,
            tiling: IMAGE_TILING_OPTIMAL,
            usage: IMAGE_USAGE_DEPTH_STENCIL_ATTACHMENT,
            sharing_mode: SHARING_MODE_EXCLUSIVE,
            memory_properties: MEMORY_PROPERTY_DEVICE_LOCAL,
        }
    );
}

#[test]
fn swapchain_carries_the_chosen_properties() {
    let fixed = Swapchain::new(parts(Extent2D { width: 800, height: 600 }));
    assert_eq!(fixed.extent(), Extent2D { width: 800, height: 600 });
    assert_eq!(
        fixed.surface_format(),
        SurfaceFormat { format: FORMAT_B8G8R8A8_SRGB, color_space: COLOR_SPACE_SRGB_NONLINEAR }
    );
    let free = Swapchain::new(parts(Extent2D { width: u32::MAX, height: u32::MAX }));
    assert_eq!(free.extent(), Extent2D { width: 1280, height: 720 });
}

#[test]
fn handle_and_frames_survive_submission() {
    let mut s = Swapchain::new(parts(Extent2D { width: 800, height: 600 }));
    let before = s.render(0).commands;
    s.update_submitted_command_buffer(0);
    s.update_submitted_command_buffer(2);
    assert_eq!(s.raw(), 0xabc);
    assert_eq!(s.render(0).commands, before);
    assert_eq!(s.command_buffers()[1].state, CommandBufferState::Initial);
    assert_eq!(s.command_buffers()[2].state, CommandBufferState::Submitted);
    assert_eq!(s.texture_views(), &vec![11, 12, 13]);
    assert_eq!(s.depth_texture(), (70, 71));
}
