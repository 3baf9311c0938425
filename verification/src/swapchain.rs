//! A created swapchain: its images and the per-image framebuffers and command buffers,
//! the commands recorded for a frame, and the choices it makes when it is set up.

use vstd::prelude::*;
use crate::error::DeviceError;
use crate::framebuffer::{
    create_info_for, FramebufferCache, FramebufferDescriptor,
    FramebufferLookup,
};
use crate::memory::{
    depth_format_candidates, has_suitable_memory_type, memory_properties_valid,
    memory_type_suitable, select_supported_format, selection_matches,
    spec_depth_format_candidates, FormatProperties, MemoryProperties, MemoryRequirements,
};
use crate::types::{FORMAT_D24_UNORM_S8_UINT, FORMAT_D32_SFLOAT, FORMAT_D32_SFLOAT_S8_UINT};
use crate::support::{
    extent_is_free, lemma_chosen_extent_within_limits, lemma_chosen_format_is_offered,
    preferred_surface_format, SwapChainSupportDetail,
};
use crate::types::{
    Extent2D, QueueFamilyIndices, SurfaceCapabilities, SurfaceFormat,
    FORMAT_FEATURE_DEPTH_STENCIL_ATTACHMENT, IMAGE_TILING_OPTIMAL, IMAGE_TYPE_2D,
    IMAGE_USAGE_DEPTH_STENCIL_ATTACHMENT, MEMORY_PROPERTY_DEVICE_LOCAL, SAMPLE_COUNT_1,
    SHARING_MODE_EXCLUSIVE,
};

verus! {

/// Whether a command buffer has been submitted since it was allocated.
#[derive(Clone, Copy, Debug, PartialEq, Eq, Structural)]
pub enum CommandBufferState {
    Initial,
    Submitted,
}

/// A command buffer and where it is in its life.
#[derive(Clone, Copy, Debug, PartialEq, Eq, Structural)]
pub struct CommandBuffer {
    pub raw: u64,
    pub state: CommandBufferState,
}

/// Everything a swapchain is assembled from once its Vulkan objects exist.
pub struct SwapchainParts {
    pub raw: u64,
    pub family_index: QueueFamilyIndices,
    /// The swapchain's images.
    pub textures: Vec<u64>,
    /// One view per image, in the same order.
    pub texture_views: Vec<u64>,
    /// What the surface supports, as queried when the swapchain was planned.
    pub support: SwapChainSupportDetail,
    /// The window's dimensions (width, height) the swapchain was planned for.
    pub dimensions: [u32; 2],
    pub depth_format: i32,
    pub render_pass: u64,
    pub pipeline: u64,
    /// One framebuffer per image view, in the same order.
    pub framebuffers: Vec<u64>,
    /// One freshly allocated command buffer per image view, in the same order.
    pub command_buffers: Vec<u64>,
    pub graphics_queue: u64,
    pub present_queue: u64,
    pub depth_texture: u64,
    pub depth_texture_view: u64,
}

impl SwapchainParts {
    /// One view, one framebuffer and one command buffer per image, and a support that
    /// properties can be chosen from.
    pub open spec fn consistent(&self) -> bool {
        &&& self.support.choosable()
        &&& self.texture_views.len() == self.textures.len()
        &&& self.framebuffers.len() == self.textures.len()
        &&& self.command_buffers.len() == self.textures.len()
    }
}

/// The capabilities with a current extent of at least one pixel in each direction.
pub open spec fn spec_normalized_capabilities(capabilities: SurfaceCapabilities) -> SurfaceCapabilities {
    SurfaceCapabilities {
        current_extent: Extent2D {
            width: if capabilities.current_extent.width >= 1 {
                capabilities.current_extent.width
            } else {
                1
            },
            height: if capabilities.current_extent.height >= 1 {
                capabilities.current_extent.height
            } else {
                1
            },
        },
        ..capabilities
    }
}

/// A viewport in whole pixels (`VkViewport` without its depth range); a negative height
/// flips the y axis.
#[derive(Clone, Copy, Debug, PartialEq, Eq, Structural)]
pub struct Viewport {
    pub x: i64,
    pub y: i64,
    pub width: i64,
    pub height: i64,
}

/// A rectangle in pixels (`VkRect2D`).
#[derive(Clone, Copy, Debug, PartialEq, Eq, Structural)]
pub struct Rect2D {
    pub x: i32,
    pub y: i32,
    pub width: u32,
    pub height: u32,
}

/// One command recorded for a frame.
#[derive(Clone, Copy, Debug, PartialEq, Eq, Structural)]
pub enum RenderCommand {
    ResetCommandBuffer,
    BeginCommandBuffer,
    BeginRenderPass { render_pass: u64, framebuffer: u64, render_area: Rect2D },
    BindGraphicsPipeline { pipeline: u64 },
    SetViewport { viewport: Viewport },
    SetScissor { scissor: Rect2D },
    Draw { vertex_count: u32, instance_count: u32, first_vertex: u32, first_instance: u32 },
    EndRenderPass,
    EndCommandBuffer,
}

/// The command buffer of a frame and the commands to record in it, in order.
pub struct FrameRecording {
    pub command_buffer: u64,
    pub commands: Vec<RenderCommand>,
}

/// The whole of an extent, from the origin.
pub open spec fn full_rect(extent: Extent2D) -> Rect2D {
    Rect2D { x: 0, y: 0, width: extent.width, height: extent.height }
}

/// The viewport that covers `extent` with the y axis pointing up: it starts at the
/// bottom edge and has a negative height.
pub open spec fn flipped_viewport(extent: Extent2D) -> Viewport {
    Viewport { x: 0, y: extent.height as i64, width: extent.width as i64, height: (-(extent.height as int)) as i64 }
}

/// The commands that draw a frame: reset and begin the command buffer, run the render
/// pass on `framebuffer` with `pipeline`, a flipped viewport and a full scissor, draw
/// one triangle, end the render pass and the command buffer.
pub open spec fn spec_frame_commands(
    render_pass: u64,
    framebuffer: u64,
    pipeline: u64,
    extent: Extent2D,
) -> Seq<RenderCommand> {
    seq![
        RenderCommand::ResetCommandBuffer,
        RenderCommand::BeginCommandBuffer,
        RenderCommand::BeginRenderPass { render_pass, framebuffer, render_area: full_rect(extent) },
        RenderCommand::BindGraphicsPipeline { pipeline },
        RenderCommand::SetViewport { viewport: flipped_viewport(extent) },
        RenderCommand::SetScissor { scissor: full_rect(extent) },
        RenderCommand::Draw { vertex_count: 3, instance_count: 1, first_vertex: 0, first_instance: 0 },
        RenderCommand::EndRenderPass,
        RenderCommand::EndCommandBuffer,
    ]
}

/// What the depth texture is created with.
#[derive(Clone, Copy, Debug, PartialEq, Eq, Structural)]
pub struct DepthTextureInfo {
    pub image_type: i32,
    pub format: i32,
    pub extent: Extent2D,
    pub mip_levels: u32,
    pub array_layers: u32,
    pub samples: u32,
    pub tiling: i32,
    pub usage: u32,
    pub sharing_mode: i32,
    pub memory_properties: u32,
}

/// The depth texture of a swapchain: a 2D image of the depth format at the swapchain's
/// extent, four mip levels, one layer, one sample, optimal tiling, used as depth-stencil
/// attachment, owned by one queue family, in device-local memory.
pub open spec fn spec_depth_texture_info(depth_format: i32, extent: Extent2D) -> DepthTextureInfo {
    DepthTextureInfo {
        image_type: IMAGE_TYPE_2D,
        format: depth_format,
        extent,
        mip_levels: 4,
        array_layers: 1,
        samples: SAMPLE_COUNT_1,
        tiling: IMAGE_TILING_OPTIMAL,
        usage: IMAGE_USAGE_DEPTH_STENCIL_ATTACHMENT,
        sharing_mode: SHARING_MODE_EXCLUSIVE,
        memory_properties: MEMORY_PROPERTY_DEVICE_LOCAL,
    }
}

/// A created swapchain and what belongs to each of its images.
pub struct Swapchain {
    raw: u64,
    family_index: QueueFamilyIndices,
    textures: Vec<u64>,
    texture_views: Vec<u64>,
    surface_format: SurfaceFormat,
    depth_format: i32,
    extent: Extent2D,
    capabilities: SurfaceCapabilities,
    render_pass: u64,
    pipeline: u64,
    command_buffers: Vec<CommandBuffer>,
    framebuffers: Vec<u64>,
    graphics_queue: u64,
    present_queue: u64,
    depth_texture: u64,
    depth_texture_view: u64,
}

impl Swapchain {
    /// One view, one framebuffer and one command buffer per image.
    pub closed spec fn wf(&self) -> bool {
        &&& self.texture_views.len() == self.textures.len()
        &&& self.framebuffers.len() == self.textures.len()
        &&& self.command_buffers.len() == self.textures.len()
    }

    pub closed spec fn spec_raw(&self) -> u64 {
        self.raw
    }

    pub closed spec fn spec_family_index(&self) -> QueueFamilyIndices {
        self.family_index
    }

    pub closed spec fn spec_textures(&self) -> Seq<u64> {
        self.textures@
    }

    pub closed spec fn spec_texture_views(&self) -> Seq<u64> {
        self.texture_views@
    }

    pub closed spec fn spec_surface_format(&self) -> SurfaceFormat {
        self.surface_format
    }

    pub closed spec fn spec_depth_format(&self) -> i32 {
        self.depth_format
    }

    pub closed spec fn spec_extent(&self) -> Extent2D {
        self.extent
    }

    pub closed spec fn spec_capabilities(&self) -> SurfaceCapabilities {
        self.capabilities
    }

    pub closed spec fn spec_render_pass(&self) -> u64 {
        self.render_pass
    }

    pub closed spec fn spec_pipeline(&self) -> u64 {
        self.pipeline
    }

    pub closed spec fn spec_command_buffers(&self) -> Seq<CommandBuffer> {
        self.command_buffers@
    }

    pub closed spec fn spec_framebuffers(&self) -> Seq<u64> {
        self.framebuffers@
    }

    pub closed spec fn spec_queues(&self) -> (u64, u64) {
        (self.graphics_queue, self.present_queue)
    }

    pub closed spec fn spec_depth_texture(&self) -> (u64, u64) {
        (self.depth_texture, self.depth_texture_view)
    }

    /// The number of images.
    pub closed spec fn spec_image_count(&self) -> nat {
        self.textures.len() as nat
    }

    /// A well-formed swapchain has as many images as views, framebuffers and command buffers.
    pub proof fn lemma_per_image_counts(&self)
        requires
            self.wf(),
        ensures
            self.spec_image_count() == self.spec_textures().len(),
            self.spec_image_count() == self.spec_texture_views().len(),
            self.spec_image_count() == self.spec_framebuffers().len(),
            self.spec_image_count() == self.spec_command_buffers().len(),
    {
    }

    /// Everything but the command buffers is the same in `self` and `other`.
    pub open spec fn same_but_command_buffers(&self, other: &Swapchain) -> bool {
        &&& self.spec_raw() == other.spec_raw()
        &&& self.spec_family_index() == other.spec_family_index()
        &&& self.spec_textures() == other.spec_textures()
        &&& self.spec_texture_views() == other.spec_texture_views()
        &&& self.spec_surface_format() == other.spec_surface_format()
        &&& self.spec_depth_format() == other.spec_depth_format()
        &&& self.spec_extent() == other.spec_extent()
        &&& self.spec_capabilities() == other.spec_capabilities()
        &&& self.spec_render_pass() == other.spec_render_pass()
        &&& self.spec_pipeline() == other.spec_pipeline()
        &&& self.spec_framebuffers() == other.spec_framebuffers()
        &&& self.spec_queues() == other.spec_queues()
        &&& self.spec_depth_texture() == other.spec_depth_texture()
    }

    /// Assembles a swapchain: the surface format and extent are the ones chosen from the
    /// queried support for the planned dimensions, the capabilities are kept with a current
    /// extent of at least one pixel each way, and every command buffer starts out initial.
    pub fn new(parts: SwapchainParts) -> (r: Swapchain)
        requires
            parts.consistent(),
        ensures
            r.wf(),
            r.spec_image_count() == parts.textures.len(),
            r.spec_raw() == parts.raw,
            r.spec_family_index() == parts.family_index,
            r.spec_textures() == parts.textures@,
            r.spec_texture_views() == parts.texture_views@,
            r.spec_surface_format() == parts.support.spec_ideal_properties(
                parts.dimensions,
            ).surface_format,
            r.spec_depth_format() == parts.depth_format,
            r.spec_extent() == parts.support.spec_ideal_properties(parts.dimensions).extent,
            r.spec_capabilities() == spec_normalized_capabilities(parts.support.capabilities),
            r.spec_render_pass() == parts.render_pass,
            r.spec_pipeline() == parts.pipeline,
            r.spec_framebuffers() == parts.framebuffers@,
            r.spec_queues() == (parts.graphics_queue, parts.present_queue),
            r.spec_depth_texture() == (parts.depth_texture, parts.depth_texture_view),
            r.spec_command_buffers().len() == parts.command_buffers.len(),
            forall|i: int|
                0 <= i < parts.command_buffers.len() ==> #[trigger] r.spec_command_buffers()[i]
                    == (CommandBuffer { raw: parts.command_buffers@[i], state: CommandBufferState::Initial }),
    {
        let properties = parts.support.get_ideal_swapchain_properties(parts.dimensions);
        let mut capabilities = parts.support.capabilities;
        capabilities.current_extent.width = if capabilities.current_extent.width >= 1 {
            capabilities.current_extent.width
        } else {
            1
        };
        capabilities.current_extent.height = if capabilities.current_extent.height >= 1 {
            capabilities.current_extent.height
        } else {
            1
        };

        let n = parts.command_buffers.len();
        let mut command_buffers: Vec<CommandBuffer> = Vec::new();
        let mut i: usize = 0;
        while i < n
            invariant
                n == parts.command_buffers.len(),
                i <= n,
                command_buffers.len() == i,
                forall|j: int|
                    0 <= j < i ==> #[trigger] command_buffers@[j] == (CommandBuffer {
                        raw: parts.command_buffers@[j],
                        state: CommandBufferState::Initial,
                    }),
            decreases n - i,
        {
            command_buffers.push(
                CommandBuffer { raw: parts.command_buffers[i], state: CommandBufferState::Initial },
            );
            i = i + 1;
        }

        Swapchain {
            raw: parts.raw,
            family_index: parts.family_index,
            textures: parts.textures,
            texture_views: parts.texture_views,
            surface_format: properties.surface_format,
            depth_format: parts.depth_format,
            extent: properties.extent,
            capabilities,
            render_pass: parts.render_pass,
            pipeline: parts.pipeline,
            command_buffers,
            framebuffers: parts.framebuffers,
            graphics_queue: parts.graphics_queue,
            present_queue: parts.present_queue,
            depth_texture: parts.depth_texture,
            depth_texture_view: parts.depth_texture_view,
        }
    }
}


impl Swapchain {
    /// The command buffer of image `image_index` and the commands that draw a frame into
    /// that image's framebuffer.
    pub fn render(&self, image_index: usize) -> (r: FrameRecording)
        requires
            self.wf(),
            image_index < self.spec_command_buffers().len(),
        ensures
            r.command_buffer == self.spec_command_buffers()[image_index as int].raw,
            r.commands@ == spec_frame_commands(
                self.spec_render_pass(),
                self.spec_framebuffers()[image_index as int],
                self.spec_pipeline(),
                self.spec_extent(),
            ),
            r.commands@.len() == 9,
            r.commands@[0] == RenderCommand::ResetCommandBuffer,
            r.commands@[1] == RenderCommand::BeginCommandBuffer,
            r.commands@[2] == (RenderCommand::BeginRenderPass {
                render_pass: self.spec_render_pass(),
                framebuffer: self.spec_framebuffers()[image_index as int],
                render_area: Rect2D {
                    x: 0,
                    y: 0,
                    width: self.spec_extent().width,
                    height: self.spec_extent().height,
                },
            }),
            r.commands@[3] == (RenderCommand::BindGraphicsPipeline { pipeline: self.spec_pipeline() }),
            r.commands@[4] == (RenderCommand::SetViewport {
                viewport: Viewport {
                    x: 0,
                    y: self.spec_extent().height as i64,
                    width: self.spec_extent().width as i64,
                    height: -(self.spec_extent().height as int) as i64,
                },
            }),
            r.commands@[5] == (RenderCommand::SetScissor {
                scissor: Rect2D {
                    x: 0,
                    y: 0,
                    width: self.spec_extent().width,
                    height: self.spec_extent().height,
                },
            }),
            r.commands@[6] == (RenderCommand::Draw {
                vertex_count: 3,
                instance_count: 1,
                first_vertex: 0,
                first_instance: 0,
            }),
            r.commands@[7] == RenderCommand::EndRenderPass,
            r.commands@[8] == RenderCommand::EndCommandBuffer,
    {
        let command_buffer = self.command_buffers[image_index].raw;
        let framebuffer = self.framebuffers[image_index];
        let extent = self.extent;
        let full = Rect2D { x: 0, y: 0, width: extent.width, height: extent.height };
        let viewport = Viewport {
            x: 0,
            y: extent.height as i64,
            width: extent.width as i64,
            height: -(extent.height as i64),
        };
        let commands = vec![
            RenderCommand::ResetCommandBuffer,
            RenderCommand::BeginCommandBuffer,
            RenderCommand::BeginRenderPass { render_pass: self.render_pass, framebuffer, render_area: full },
            RenderCommand::BindGraphicsPipeline { pipeline: self.pipeline },
            RenderCommand::SetViewport { viewport },
            RenderCommand::SetScissor { scissor: full },
            RenderCommand::Draw { vertex_count: 3, instance_count: 1, first_vertex: 0, first_instance: 0 },
            RenderCommand::EndRenderPass,
            RenderCommand::EndCommandBuffer,
        ];
        assert(commands@ =~= spec_frame_commands(self.render_pass, framebuffer, self.pipeline, extent));
        FrameRecording { command_buffer, commands }
    }

    /// Marks the command buffer at `command_buffer_index` as submitted.
    pub fn update_submitted_command_buffer(&mut self, command_buffer_index: usize)
        requires
            old(self).wf(),
            command_buffer_index < old(self).spec_command_buffers().len(),
        ensures
            final(self).wf(),
            final(self).spec_image_count() == old(self).spec_image_count(),
            final(self).same_but_command_buffers(&*old(self)),
            final(self).spec_command_buffers() == old(self).spec_command_buffers().update(
                command_buffer_index as int,
                CommandBuffer {
                    raw: old(self).spec_command_buffers()[command_buffer_index as int].raw,
                    state: CommandBufferState::Submitted,
                },
            ),
    {
        let raw = self.command_buffers[command_buffer_index].raw;
        self.command_buffers.set(
            command_buffer_index,
            CommandBuffer { raw, state: CommandBufferState::Submitted },
        );
    }

    /// The descriptors of the swapchain's framebuffers: one per image view, in order,
    /// each attaching that view alone to `render_pass` at `extent`.
    pub fn framebuffer_descriptors(render_pass: u64, texture_views: &Vec<u64>, extent: Extent2D) -> (r:
        Vec<FramebufferDescriptor>)
        ensures
            r.len() == texture_views.len(),
            forall|i: int|
                0 <= i < texture_views.len() ==> #[trigger] r@[i]@ == (
                    render_pass,
                    seq![texture_views@[i]],
                    extent,
                ),
    {
        let n = texture_views.len();
        let mut r: Vec<FramebufferDescriptor> = Vec::new();
        let mut i: usize = 0;
        while i < n
            invariant
                n == texture_views.len(),
                i <= n,
                r.len() == i,
                forall|j: int|
                    0 <= j < i ==> #[trigger] r@[j]@ == (render_pass, seq![texture_views@[j]], extent),
            decreases n - i,
        {
            let views = vec![texture_views[i]];
            proof {
                assert(views@ =~= seq![texture_views@[i as int]]);
            }
            r.push(FramebufferDescriptor::new(render_pass, views, extent));
            i = i + 1;
        }
        r
    }

    /// What the depth texture of a swapchain with `depth_format` and `extent` is created with.
    pub fn depth_texture_info(depth_format: i32, extent: Extent2D) -> (r: DepthTextureInfo)
        ensures
            r == spec_depth_texture_info(depth_format, extent),
            r.format == depth_format,
            r.extent == extent,
            r.image_type == IMAGE_TYPE_2D,
            r.mip_levels == 4,
            r.array_layers == 1,
            r.samples == SAMPLE_COUNT_1,
            r.tiling == IMAGE_TILING_OPTIMAL,
            r.usage == IMAGE_USAGE_DEPTH_STENCIL_ATTACHMENT,
            r.sharing_mode == SHARING_MODE_EXCLUSIVE,
            r.memory_properties == MEMORY_PROPERTY_DEVICE_LOCAL,
    {
        DepthTextureInfo {
            image_type: IMAGE_TYPE_2D,
            format: depth_format,
            extent,
            mip_levels: 4,
            array_layers: 1,
            samples: SAMPLE_COUNT_1,
            tiling: IMAGE_TILING_OPTIMAL,
            usage: IMAGE_USAGE_DEPTH_STENCIL_ATTACHMENT,
            sharing_mode: SHARING_MODE_EXCLUSIVE,
            memory_properties: MEMORY_PROPERTY_DEVICE_LOCAL,
        }
    }

    /// Reuses the framebuffer cached in `map` for `desc`, or says what to create.
    /// The cache is left as it is either way.
    pub fn create_framebuffer(map: &FramebufferCache, desc: FramebufferDescriptor) -> (r:
        FramebufferLookup)
        ensures
            match r {
                FramebufferLookup::Cached(framebuffer) => map@.contains_key(desc@) && framebuffer
                    == map@[desc@],
                FramebufferLookup::Create(info) => !map@.contains_key(desc@) && create_info_for(
                    info,
                    desc@,
                ) && info.render_pass == desc@.0 && info.attachments@ == desc@.1 && info.width
                    == desc@.2.width && info.height == desc@.2.height && info.layers == 1,
            },
    {
        match map.get(&desc) {
            Some(framebuffer) => FramebufferLookup::Cached(framebuffer),
            None => FramebufferLookup::Create(desc.into_create_info()),
        }
    }

    /// The first memory type that may back a resource with `requirements` and has every
    /// property of `properties`.
    pub fn get_memory_type_index(
        memory_properties: &MemoryProperties,
        properties: u32,
        requirements: MemoryRequirements,
    ) -> (r: u32)
        requires
            memory_properties_valid(memory_properties),
            has_suitable_memory_type(memory_properties, properties, requirements),
        ensures
            r < memory_properties.memory_type_count,
            requirements.memory_type_bits & (1u32 << r) != 0,
            memory_properties.memory_types@[r as int].property_flags & properties == properties,
            forall|i: u32|
                i < memory_properties.memory_type_count && requirements.memory_type_bits & (1u32
                    << i) != 0 && (#[trigger] memory_properties.memory_types@[i as int]).property_flags
                    & properties == properties ==> r <= i,
            memory_type_suitable(memory_properties, properties, requirements, r),
            forall|j: u32|
                j < r ==> !#[trigger] memory_type_suitable(
                    memory_properties,
                    properties,
                    requirements,
                    j,
                ),
    {
        let count = memory_properties.memory_type_count;
        let mut i: u32 = 0;
        while i < count
            invariant
                count == memory_properties.memory_type_count,
                memory_properties_valid(memory_properties),
                has_suitable_memory_type(memory_properties, properties, requirements),
                i <= count,
                forall|j: u32|
                    j < i ==> !#[trigger] memory_type_suitable(
                        memory_properties,
                        properties,
                        requirements,
                        j,
                    ),
            decreases count - i,
        {
            let suitable = (requirements.memory_type_bits & (1u32 << i)) != 0;
            let memory_type = memory_properties.memory_types[i as usize];
            if suitable && (memory_type.property_flags & properties) == properties {
                proof {
                    assert forall|k: u32|
                        k < memory_properties.memory_type_count && requirements.memory_type_bits
                            & (1u32 << k) != 0 && (#[trigger] memory_properties.memory_types@[
                            k as int]).property_flags & properties == properties implies i <= k by {
                        if k < i {
                            assert(memory_type_suitable(memory_properties, properties, requirements, k));
                        }
                    }
                }
                return i;
            }
            i = i + 1;
        }
        proof {
            let w = choose|w: u32|
                w < memory_properties.memory_type_count && #[trigger] memory_type_suitable(
                    memory_properties,
                    properties,
                    requirements,
                    w,
                );
            assert(!memory_type_suitable(memory_properties, properties, requirements, w));
        }
        0
    }

    /// The first depth format, in the renderer's order of preference, that supports
    /// depth-stencil attachments in optimal tiling; `format_properties` holds what the
    /// device supports of each candidate, in the same order.
    pub fn get_depth_format(format_properties: &Vec<FormatProperties>) -> (r: Result<i32, DeviceError>)
        requires
            format_properties.len() == spec_depth_format_candidates().len(),
        ensures
            selection_matches(
                r,
                spec_depth_format_candidates(),
                format_properties@,
                IMAGE_TILING_OPTIMAL,
                FORMAT_FEATURE_DEPTH_STENCIL_ATTACHMENT,
            ),
            format_properties@[0].optimal_tiling_features & FORMAT_FEATURE_DEPTH_STENCIL_ATTACHMENT
                == FORMAT_FEATURE_DEPTH_STENCIL_ATTACHMENT ==> r == Ok::<i32, DeviceError>(
                FORMAT_D32_SFLOAT,
            ),
            format_properties@[0].optimal_tiling_features & FORMAT_FEATURE_DEPTH_STENCIL_ATTACHMENT
                != FORMAT_FEATURE_DEPTH_STENCIL_ATTACHMENT
                && format_properties@[1].optimal_tiling_features
                & FORMAT_FEATURE_DEPTH_STENCIL_ATTACHMENT == FORMAT_FEATURE_DEPTH_STENCIL_ATTACHMENT
                ==> r == Ok::<i32, DeviceError>(FORMAT_D32_SFLOAT_S8_UINT),
            format_properties@[0].optimal_tiling_features & FORMAT_FEATURE_DEPTH_STENCIL_ATTACHMENT
                != FORMAT_FEATURE_DEPTH_STENCIL_ATTACHMENT
                && format_properties@[1].optimal_tiling_features
                & FORMAT_FEATURE_DEPTH_STENCIL_ATTACHMENT != FORMAT_FEATURE_DEPTH_STENCIL_ATTACHMENT
                && format_properties@[2].optimal_tiling_features
                & FORMAT_FEATURE_DEPTH_STENCIL_ATTACHMENT == FORMAT_FEATURE_DEPTH_STENCIL_ATTACHMENT
                ==> r == Ok::<i32, DeviceError>(FORMAT_D24_UNORM_S8_UINT),
            format_properties@[0].optimal_tiling_features & FORMAT_FEATURE_DEPTH_STENCIL_ATTACHMENT
                != FORMAT_FEATURE_DEPTH_STENCIL_ATTACHMENT
                && format_properties@[1].optimal_tiling_features
                & FORMAT_FEATURE_DEPTH_STENCIL_ATTACHMENT != FORMAT_FEATURE_DEPTH_STENCIL_ATTACHMENT
                && format_properties@[2].optimal_tiling_features
                & FORMAT_FEATURE_DEPTH_STENCIL_ATTACHMENT != FORMAT_FEATURE_DEPTH_STENCIL_ATTACHMENT
                ==> r == Err::<i32, DeviceError>(DeviceError::Unsupported),
    {
        let formats = depth_format_candidates();
        let r = select_supported_format(
            &formats,
            format_properties,
            IMAGE_TILING_OPTIMAL,
            FORMAT_FEATURE_DEPTH_STENCIL_ATTACHMENT,
        );
        proof {
            assert(formats@[0] == FORMAT_D32_SFLOAT);
            assert(formats@[1] == FORMAT_D32_SFLOAT_S8_UINT);
            assert(formats@[2] == FORMAT_D24_UNORM_S8_UINT);
            let _ = format_properties@[0];
            let _ = format_properties@[1];
            let _ = format_properties@[2];
        }
        r
    }
}

impl Swapchain {
    /// The swapchain's handle.
    pub fn raw(&self) -> (r: u64)
        ensures
            r == self.spec_raw(),
    {
        self.raw
    }

    /// The surface format the swapchain's images have.
    pub fn surface_format(&self) -> (r: SurfaceFormat)
        ensures
            r == self.spec_surface_format(),
    {
        self.surface_format
    }

    /// The extent of the swapchain's images.
    pub fn extent(&self) -> (r: Extent2D)
        ensures
            r == self.spec_extent(),
    {
        self.extent
    }

    /// The render pass that draws into the swapchain's framebuffers.
    pub fn render_pass(&self) -> (r: u64)
        ensures
            r == self.spec_render_pass(),
    {
        self.render_pass
    }

    /// The graphics pipeline that frames are drawn with.
    pub fn pipeline(&self) -> (r: u64)
        ensures
            r == self.spec_pipeline(),
    {
        self.pipeline
    }

    /// The framebuffers, one per image, in image order.
    pub fn framebuffers(&self) -> (r: &Vec<u64>)
        ensures
            r@ == self.spec_framebuffers(),
    {
        &self.framebuffers
    }

    /// The image views, one per image, in image order.
    pub fn texture_views(&self) -> (r: &Vec<u64>)
        ensures
            r@ == self.spec_texture_views(),
    {
        &self.texture_views
    }

    /// The depth texture and its view.
    pub fn depth_texture(&self) -> (r: (u64, u64))
        ensures
            r == self.spec_depth_texture(),
    {
        (self.depth_texture, self.depth_texture_view)
    }

    /// The command buffers, one per image, in image order.
    pub fn command_buffers(&self) -> (r: &Vec<CommandBuffer>)
        ensures
            r@ == self.spec_command_buffers(),
    {
        &self.command_buffers
    }

    /// The queue that presents the swapchain's images.
    pub fn present_queue(&self) -> (r: u64)
        ensures
            r == self.spec_queues().1,
    {
        self.present_queue
    }
}

/// The kept capabilities have a current extent of at least one pixel each way; a
/// dimension that already was positive is kept, nothing else changes, and normalizing
/// again changes nothing.
pub proof fn lemma_normalized_capabilities(capabilities: SurfaceCapabilities)
    ensures
        ({
            let n = spec_normalized_capabilities(capabilities);
            &&& n.current_extent.width >= 1
            &&& n.current_extent.height >= 1
            &&& capabilities.current_extent.width >= 1 ==> n.current_extent.width
                == capabilities.current_extent.width
            &&& capabilities.current_extent.height >= 1 ==> n.current_extent.height
                == capabilities.current_extent.height
            &&& n.min_image_count == capabilities.min_image_count
            &&& n.max_image_count == capabilities.max_image_count
            &&& n.min_image_extent == capabilities.min_image_extent
            &&& n.max_image_extent == capabilities.max_image_extent
            &&& n.current_transform == capabilities.current_transform
            &&& spec_normalized_capabilities(n) == n
        }),
{
}

/// A frame's commands reset and begin the command buffer first, end it last, and draw
/// inside the render pass with the pipeline bound and the viewport and scissor set.
pub proof fn lemma_frame_commands_order(render_pass: u64, framebuffer: u64, pipeline: u64, extent: Extent2D)
    ensures
        ({
            let c = spec_frame_commands(render_pass, framebuffer, pipeline, extent);
            &&& c.len() == 9
            &&& c[0] == RenderCommand::ResetCommandBuffer
            &&& c[1] == RenderCommand::BeginCommandBuffer
            &&& c[2] is BeginRenderPass
            &&& c[3] is BindGraphicsPipeline
            &&& c[4] is SetViewport
            &&& c[5] is SetScissor
            &&& c[6] is Draw
            &&& c[7] == RenderCommand::EndRenderPass
            &&& c[8] == RenderCommand::EndCommandBuffer
            &&& c.filter(|cmd: RenderCommand| cmd is Draw).len() == 1
        }),
{
    let c = spec_frame_commands(render_pass, framebuffer, pipeline, extent);
    reveal_with_fuel(Seq::<_>::filter, 10);
    assert(c.filter(|cmd: RenderCommand| cmd is Draw) =~= seq![c[6]]);
}

/// A swapchain assembled from a support for some dimensions presents in a surface format
/// that the surface offers (the preferred one whenever offered), at an extent that is the
/// surface's current extent when it fixes one and lies within its limits otherwise.
pub proof fn lemma_swapchain_properties_supported(
    swapchain: &Swapchain,
    support: &SwapChainSupportDetail,
    dimensions: [u32; 2],
)
    requires
        support.choosable(),
        swapchain.spec_surface_format() == support.spec_ideal_properties(dimensions).surface_format,
        swapchain.spec_extent() == support.spec_ideal_properties(dimensions).extent,
    ensures
        support.surface_formats@.contains(swapchain.spec_surface_format()),
        support.surface_formats@.contains(preferred_surface_format()) ==> swapchain.spec_surface_format()
            == preferred_surface_format(),
        !extent_is_free(support.capabilities) ==> swapchain.spec_extent()
            == support.capabilities.current_extent,
        extent_is_free(support.capabilities) ==> {
            &&& support.capabilities.min_image_extent.width <= swapchain.spec_extent().width
                <= support.capabilities.max_image_extent.width
            &&& support.capabilities.min_image_extent.height <= swapchain.spec_extent().height
                <= support.capabilities.max_image_extent.height
        },
{
    lemma_chosen_format_is_offered(support.surface_formats@);
    lemma_chosen_extent_within_limits(support.capabilities, dimensions);
}

/// The depth texture is made for the depth format and extent it is given, whatever they
/// are: two calls with different formats or extents give textures that differ in exactly
/// those, and everything else about the texture is the same fixed description.
pub proof fn lemma_depth_texture_follows_its_inputs(f1: i32, e1: Extent2D, f2: i32, e2: Extent2D)
    ensures
        spec_depth_texture_info(f1, e1).format == f1,
        spec_depth_texture_info(f1, e1).extent == e1,
        spec_depth_texture_info(f1, e1).mip_levels == 4,
        spec_depth_texture_info(f1, e1).usage == IMAGE_USAGE_DEPTH_STENCIL_ATTACHMENT,
        spec_depth_texture_info(f1, e1).tiling == IMAGE_TILING_OPTIMAL,
        spec_depth_texture_info(f1, e1).memory_properties == MEMORY_PROPERTY_DEVICE_LOCAL,
        (spec_depth_texture_info(f1, e1) == spec_depth_texture_info(f2, e2)) == (f1 == f2 && e1
            == e2),
{
}

/// Two swapchains that are the same but for their command buffers have the same handle,
/// images, views, format, extent, capabilities, render pass, pipeline, framebuffers,
/// queues and depth texture.
pub proof fn lemma_same_but_command_buffers_keeps_the_rest(a: &Swapchain, b: &Swapchain)
    requires
        a.same_but_command_buffers(b),
    ensures
        a.spec_raw() == b.spec_raw(),
        a.spec_family_index() == b.spec_family_index(),
        a.spec_textures() == b.spec_textures(),
        a.spec_texture_views() == b.spec_texture_views(),
        a.spec_surface_format() == b.spec_surface_format(),
        a.spec_depth_format() == b.spec_depth_format(),
        a.spec_extent() == b.spec_extent(),
        a.spec_capabilities() == b.spec_capabilities(),
        a.spec_render_pass() == b.spec_render_pass(),
        a.spec_pipeline() == b.spec_pipeline(),
        a.spec_framebuffers() == b.spec_framebuffers(),
        a.spec_queues() == b.spec_queues(),
        a.spec_depth_texture() == b.spec_depth_texture(),
{
}

} // verus!
