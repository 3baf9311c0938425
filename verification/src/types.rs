//! Plain-value counterparts of the Vulkan structures the swapchain logic reads.

use vstd::prelude::*;

verus! {

/// `VK_FORMAT_B8G8R8A8_SRGB`.
pub const FORMAT_B8G8R8A8_SRGB: i32 = 50;

/// `VK_FORMAT_D32_SFLOAT`.
pub const FORMAT_D32_SFLOAT: i32 = 126;

/// `VK_FORMAT_D24_UNORM_S8_UINT`.
pub const FORMAT_D24_UNORM_S8_UINT: i32 = 129;

/// `VK_FORMAT_D32_SFLOAT_S8_UINT`.
pub const FORMAT_D32_SFLOAT_S8_UINT: i32 = 130;

/// `VK_COLOR_SPACE_SRGB_NONLINEAR_KHR`.
pub const COLOR_SPACE_SRGB_NONLINEAR: i32 = 0;

/// `VK_PRESENT_MODE_IMMEDIATE_KHR`.
pub const PRESENT_MODE_IMMEDIATE: i32 = 0;

/// `VK_PRESENT_MODE_MAILBOX_KHR`.
pub const PRESENT_MODE_MAILBOX: i32 = 1;

/// `VK_PRESENT_MODE_FIFO_KHR`.
pub const PRESENT_MODE_FIFO: i32 = 2;

/// `VK_SHARING_MODE_EXCLUSIVE`.
pub const SHARING_MODE_EXCLUSIVE: i32 = 0;

/// `VK_SHARING_MODE_CONCURRENT`.
pub const SHARING_MODE_CONCURRENT: i32 = 1;

/// `VK_IMAGE_TILING_OPTIMAL`.
pub const IMAGE_TILING_OPTIMAL: i32 = 0;

/// `VK_IMAGE_TILING_LINEAR`.
pub const IMAGE_TILING_LINEAR: i32 = 1;

/// `VK_IMAGE_TYPE_2D`.
pub const IMAGE_TYPE_2D: i32 = 1;

/// `VK_SAMPLE_COUNT_1_BIT`.
pub const SAMPLE_COUNT_1: u32 = 0x1;

/// `VK_IMAGE_USAGE_COLOR_ATTACHMENT_BIT`.
pub const IMAGE_USAGE_COLOR_ATTACHMENT: u32 = 0x10;

/// `VK_IMAGE_USAGE_DEPTH_STENCIL_ATTACHMENT_BIT`.
pub const IMAGE_USAGE_DEPTH_STENCIL_ATTACHMENT: u32 = 0x20;

/// `VK_COMPOSITE_ALPHA_OPAQUE_BIT_KHR`.
pub const COMPOSITE_ALPHA_OPAQUE: u32 = 0x1;

/// `VK_FORMAT_FEATURE_DEPTH_STENCIL_ATTACHMENT_BIT`.
pub const FORMAT_FEATURE_DEPTH_STENCIL_ATTACHMENT: u32 = 0x200;

/// `VK_MEMORY_PROPERTY_DEVICE_LOCAL_BIT`.
pub const MEMORY_PROPERTY_DEVICE_LOCAL: u32 = 0x1;

/// `VK_NOT_READY`.
pub const RESULT_NOT_READY: i32 = 1;

/// `VK_ERROR_OUT_OF_HOST_MEMORY`.
pub const RESULT_ERROR_OUT_OF_HOST_MEMORY: i32 = -1;

/// `VK_ERROR_OUT_OF_DEVICE_MEMORY`.
pub const RESULT_ERROR_OUT_OF_DEVICE_MEMORY: i32 = -2;

/// `VK_ERROR_DEVICE_LOST`.
pub const RESULT_ERROR_DEVICE_LOST: i32 = -4;

/// `VK_ERROR_SURFACE_LOST_KHR`.
pub const RESULT_ERROR_SURFACE_LOST: i32 = -1000000000;

/// `VK_ERROR_OUT_OF_DATE_KHR`.
pub const RESULT_ERROR_OUT_OF_DATE: i32 = -1000001004;

/// The null handle (`VK_NULL_HANDLE`).
pub const NULL_HANDLE: u64 = 0;

/// A two-dimensional extent in pixels (`VkExtent2D`).
#[derive(Clone, Copy, Debug, PartialEq, Eq, Hash, Structural)]
pub struct Extent2D {
    pub width: u32,
    pub height: u32,
}

/// A surface format: a pixel format paired with a color space (`VkSurfaceFormatKHR`).
#[derive(Clone, Copy, Debug, PartialEq, Eq, Structural)]
pub struct SurfaceFormat {
    pub format: i32,
    pub color_space: i32,
}

/// What a surface supports (`VkSurfaceCapabilitiesKHR`), flags held as raw bits.
#[derive(Clone, Copy, Debug, PartialEq, Eq, Structural)]
pub struct SurfaceCapabilities {
    pub min_image_count: u32,
    /// Zero means that there is no limit.
    pub max_image_count: u32,
    /// A width of `u32::MAX` means that the swapchain decides the extent.
    pub current_extent: Extent2D,
    pub min_image_extent: Extent2D,
    pub max_image_extent: Extent2D,
    pub max_image_array_layers: u32,
    pub supported_transforms: u32,
    pub current_transform: u32,
    pub supported_composite_alpha: u32,
    pub supported_usage_flags: u32,
}

/// The queue families that render and present (either may be unknown).
#[derive(Clone, Copy, Debug, PartialEq, Eq, Structural)]
pub struct QueueFamilyIndices {
    pub graphics_family: Option<u32>,
    pub present_family: Option<u32>,
}

/// `flags` holds every bit of `required`.
pub open spec fn flags_contain(flags: u32, required: u32) -> bool {
    flags & required == required
}

} // verus!
